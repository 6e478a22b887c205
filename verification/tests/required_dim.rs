use rgmin::manifold::{
    CenteredMatrix, CenterMode, ComplexCircle, EuclideanComplex, Grassmann, Hyperbolic, Oblique,
    Positive, SkewSymmetric, Spd, SphereComplex, Unitary,
};

#[test]
fn centered_lengths() {
    let m = CenteredMatrix::cols(2, 3);
    assert_eq!(m.required_dim(114), Err(6));
    assert!(m.required_dim(6).is_ok());
    assert!(CenteredMatrix::new(0, 4, CenterMode::Cols)
        .required_dim(0)
        .is_err());
    assert!(CenteredMatrix::cols(3, 2).required_dim(6).is_ok());
    assert!(CenteredMatrix::cols(3, 2).required_dim(9).is_err());
}

#[test]
fn complex_circle_lengths() {
    let m = ComplexCircle { n: 2 };
    assert_eq!(m.required_dim(114), Err(4));
    assert!(m.required_dim(4).is_ok());
    assert!(ComplexCircle::new(1).required_dim(2).is_ok());
    assert!(ComplexCircle::new(0).required_dim(0).is_err());
}

#[test]
fn euclidean_complex_lengths() {
    let m = EuclideanComplex { n: 2 };
    assert_eq!(m.required_dim(114), Err(4));
    assert!(m.required_dim(4).is_ok());
    assert!(EuclideanComplex::new(1).required_dim(2).is_ok());
    assert!(EuclideanComplex::new(0).required_dim(0).is_err());
}

#[test]
fn grassmann_lengths() {
    let g = Grassmann { n: 4, p: 2 };
    assert_eq!(g.required_dim(114), Err(8));
    assert!(g.required_dim(8).is_ok());
    assert!(Grassmann::new(114, 1).required_dim(114).is_ok());
    assert!(Grassmann::new(2, 3).required_dim(6).is_err());
}

#[test]
fn hyperbolic_lengths() {
    assert!(Hyperbolic.required_dim(6).is_ok());
    assert!(Hyperbolic.required_dim(1).is_err());
    assert!(Hyperbolic.required_dim(2).is_ok());
}

#[test]
fn oblique_lengths() {
    let m = Oblique::new(3, 2);
    assert!(m.required_dim(6).is_ok());
    assert_eq!(m.required_dim(114), Err(6));
    assert_eq!(m.required_dim(9), Err(6));
    assert!(Oblique::new(3, 1).required_dim(3).is_ok());
    assert!(Oblique::new(1, 4).required_dim(4).is_err());
}

#[test]
fn positive_lengths() {
    let m = Positive { n: 2 };
    assert_eq!(m.required_dim(114), Err(2));
    assert!(m.required_dim(2).is_ok());
    assert!(Positive::new(1).required_dim(1).is_ok());
    assert!(Positive::new(0).required_dim(0).is_err());
    assert!(Positive::new(3).required_dim(5).is_err());
}

#[test]
fn skewsymmetric_lengths() {
    assert!(SkewSymmetric.required_dim(114).is_err());
    assert!(SkewSymmetric.required_dim(6).is_err());
    assert!(SkewSymmetric.required_dim(1).is_err());
    assert!(SkewSymmetric.required_dim(0).is_err());
    assert!(SkewSymmetric.required_dim(4).is_ok());
    assert!(SkewSymmetric.required_dim(9).is_ok());
}

#[test]
fn spd_lengths() {
    assert!(Spd.required_dim(114).is_err());
    assert!(Spd.required_dim(6).is_err());
    assert!(Spd.required_dim(4).is_ok());
    assert!(Spd.required_dim(9).is_ok());
    assert!(Spd.required_dim(1).is_ok());
}

#[test]
fn sphere_complex_lengths() {
    let m = SphereComplex { n: 2 };
    assert_eq!(m.required_dim(114), Err(4));
    assert!(m.required_dim(4).is_ok());
    let k = SphereComplex { n: 3 };
    assert_eq!(k.required_dim(6), Ok(()));
    assert_eq!(k.required_dim(3), Err(6));
    assert!(SphereComplex::new(1).required_dim(2).is_ok());
    assert!(SphereComplex::new(0).required_dim(0).is_err());
}

#[test]
fn unitary_lengths() {
    let m = Unitary::new(2).unwrap();
    assert!(m.required_dim(8).is_ok());
    assert!(m.required_dim(12).is_err());
    assert!(m.required_dim(2).is_err());
    assert!(m.required_dim(114).is_err());
    assert!(Unitary::new(1).unwrap().required_dim(2).is_ok());
}
