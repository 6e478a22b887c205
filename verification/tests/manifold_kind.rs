use rgmin::manifold::{
    CenterMode, CenteredMatrix, ComplexCircle, EuclideanComplex, Grassmann, Hyperbolic, Multinomial,
    MwRigid, Oblique, Positive, RigidQuotient, SkewSymmetric, Spd, SphereComplex, Unitary,
};
use rgmin::manifold::{skewsymmetric, spd, unitary};
use rgmin::ManifoldKind;

#[test]
fn centered_kind_is_not_sphere_or_stiefel() {
    assert_ne!(
        ManifoldKind::centered_matrix(2, 3, false),
        ManifoldKind::Sphere
    );
    assert_ne!(
        ManifoldKind::centered_matrix(2, 3, false),
        ManifoldKind::Stiefel
    );
    assert_ne!(
        ManifoldKind::centered_matrix(2, 3, false),
        ManifoldKind::Oblique { n: 2, m: 3 }
    );
    assert_ne!(
        ManifoldKind::centered_matrix(2, 3, false),
        ManifoldKind::centered_matrix(2, 3, true)
    );
    assert_eq!(
        ManifoldKind::centered_matrix(2, 3, false).as_str(),
        "centered_matrix"
    );
}

#[test]
fn complex_circle_kind_is_not_sphere_or_stiefel() {
    assert_ne!(ManifoldKind::ComplexCircle { n: 2 }, ManifoldKind::Sphere);
    assert_ne!(ManifoldKind::ComplexCircle { n: 1 }, ManifoldKind::Stiefel);
}

#[test]
fn kind_is_not_sphere() {
    assert_ne!(ManifoldKind::Grassmann { n: 3, p: 1 }, ManifoldKind::Sphere);
    assert_ne!(ManifoldKind::Grassmann { n: 4, p: 2 }, ManifoldKind::Stiefel);
}

#[test]
fn positive_kind_is_not_sphere_or_stiefel() {
    assert_ne!(ManifoldKind::Positive { n: 3 }, ManifoldKind::Sphere);
    assert_ne!(ManifoldKind::Positive { n: 1 }, ManifoldKind::Stiefel);
    assert_ne!(ManifoldKind::Positive { n: 3 }, ManifoldKind::Euclidean);
    assert_ne!(ManifoldKind::Positive { n: 3 }, ManifoldKind::Multinomial);
    assert_ne!(
        ManifoldKind::Positive { n: 3 },
        ManifoldKind::Constant { n: 3 }
    );
}

#[test]
fn not_the_real_sphere_token() {
    assert_ne!(ManifoldKind::SphereComplex { n: 2 }, ManifoldKind::Sphere);
    assert_ne!(
        ManifoldKind::SphereComplex { n: 2 },
        ManifoldKind::ComplexCircle { n: 2 }
    );
    assert_ne!(
        ManifoldKind::SphereComplex { n: 2 },
        ManifoldKind::EuclideanComplex { n: 2 }
    );
    assert_ne!(ManifoldKind::SphereComplex { n: 1 }, ManifoldKind::Stiefel);
}

#[test]
fn kind_is_not_sphere_or_complex_circle() {
    assert_ne!(ManifoldKind::unitary(2), ManifoldKind::Sphere);
    assert_ne!(ManifoldKind::unitary(1), ManifoldKind::ComplexCircle { n: 1 });
    assert_ne!(ManifoldKind::unitary(2), ManifoldKind::Stiefel);
    assert_eq!(ManifoldKind::unitary(2).as_str(), "unitary");
}

#[test]
fn oblique_kind_is_not_sphere() {
    assert_ne!(ManifoldKind::oblique(3, 1), ManifoldKind::Sphere);
}

#[test]
fn required_dim_needs_two_categories() {
    assert_eq!(Multinomial.required_dim(0), Err(2));
    assert_eq!(Multinomial.required_dim(1), Err(2));
    assert!(Multinomial.required_dim(2).is_ok());
    assert!(Multinomial.required_dim(114).is_ok());
}

#[test]
fn required_dim_rejects_a_3n_cluster() {
    let m = Oblique::new(3, 2);
    assert!(m.required_dim(6).is_ok());
    assert_eq!(m.required_dim(114), Err(6));
    assert_eq!(m.required_dim(9), Err(6));
    assert!(Oblique::new(3, 1).required_dim(3).is_ok());
    assert!(Oblique::new(1, 4).required_dim(4).is_err());
}

#[test]
fn required_dim_is_twice_complex_n() {
    let m = SphereComplex { n: 3 };
    assert_eq!(m.required_dim(6), Ok(()));
    assert_eq!(m.required_dim(3), Err(6));
    assert!(SphereComplex::new(1).required_dim(2).is_ok());
    assert!(SphereComplex::new(0).required_dim(0).is_err());
}

#[test]
fn stiefel_tokens_and_column_counts() {
    assert_eq!(ManifoldKind::Stiefel.stiefel_p(), 1);
    assert_eq!(ManifoldKind::stiefel(3, 1), ManifoldKind::Stiefel);
    assert_eq!(ManifoldKind::stiefel(3, 0), ManifoldKind::Stiefel);
    let kind = ManifoldKind::stiefel(4, 2);
    assert_eq!(kind, ManifoldKind::StiefelP { n: 4, p: 2 });
    assert_eq!(kind.stiefel_p(), 2);
    assert_eq!(kind.as_str(), "stiefel");
    assert_eq!(ManifoldKind::Sphere.stiefel_p(), 1);
}

#[test]
fn every_family_has_its_own_token() {
    let kinds = [
        ManifoldKind::Euclidean,
        ManifoldKind::Sphere,
        ManifoldKind::So3,
        ManifoldKind::Stiefel,
        ManifoldKind::Se3,
        ManifoldKind::RigidQuotient,
        ManifoldKind::MwRigid,
        ManifoldKind::oblique(2, 2),
        ManifoldKind::Multinomial,
        ManifoldKind::Spd,
        ManifoldKind::Symmetric,
        ManifoldKind::SkewSymmetric,
        ManifoldKind::complex_circle(1),
        ManifoldKind::euclidean_complex(1),
        ManifoldKind::constant(1),
        ManifoldKind::multinomial_ds(2),
        ManifoldKind::MultinomialSymmetric { n: 2 },
        ManifoldKind::SphereComplex { n: 1 },
        ManifoldKind::centered_matrix(2, 2, true),
        ManifoldKind::Grassmann { n: 2, p: 1 },
        ManifoldKind::Positive { n: 1 },
        ManifoldKind::unitary(1),
    ];
    for (i, a) in kinds.iter().enumerate() {
        for (j, b) in kinds.iter().enumerate() {
            assert_eq!(i == j, a.as_str() == b.as_str(), "{a:?} vs {b:?}");
        }
    }
    assert_eq!(ManifoldKind::multinomial_ds(2).as_str(), "multinomialdoublystochastic");
    assert_eq!(ManifoldKind::default(), ManifoldKind::Euclidean);
}

#[test]
fn packed_lengths_and_their_checks() {
    assert_eq!(ComplexCircle::new(2).required_dim(114), Err(4));
    assert!(ComplexCircle::new(0).required_dim(0).is_err());
    assert_eq!(ComplexCircle::new(usize::MAX).packed_len(), None);
    assert_eq!(ComplexCircle::new(usize::MAX).required_dim(7), Err(7));
    assert_eq!(EuclideanComplex::new(2).required_dim(114), Err(4));
    assert!(EuclideanComplex::new(1).required_dim(2).is_ok());
    let c = CenteredMatrix::cols(2, 3);
    assert_eq!(c.required_dim(114), Err(6));
    assert!(c.required_dim(6).is_ok());
    assert!(CenteredMatrix::new(0, 4, CenterMode::Cols).required_dim(0).is_err());
    assert!(CenteredMatrix::cols(3, 2).required_dim(6).is_ok());
    assert!(CenteredMatrix::cols(3, 2).required_dim(9).is_err());
    assert_eq!(CenteredMatrix::rows(2, 3).mode, CenterMode::Rows);
    let g = Grassmann { n: 4, p: 2 };
    assert_eq!(g.required_dim(114), Err(8));
    assert!(g.required_dim(8).is_ok());
    assert!(Grassmann::new(114, 1).required_dim(114).is_ok());
    assert!(Grassmann::new(2, 3).required_dim(6).is_err());
    let p = Positive { n: 2 };
    assert_eq!(p.required_dim(114), Err(2));
    assert!(p.required_dim(2).is_ok());
    assert!(Positive::new(1).required_dim(1).is_ok());
    assert!(Positive::new(0).required_dim(0).is_err());
    assert!(Positive::new(3).required_dim(5).is_err());
    assert!(Hyperbolic.required_dim(6).is_ok());
    assert!(Hyperbolic.required_dim(1).is_err());
    assert!(Hyperbolic.required_dim(2).is_ok());
    assert!(RigidQuotient.required_dim(114).is_ok());
    assert_eq!(RigidQuotient.required_dim(3), Err(3));
    assert_eq!(MwRigid.required_dim(8), Err(8));
    assert!(SkewSymmetric.required_dim(114).is_err());
    assert!(SkewSymmetric.required_dim(6).is_err());
    assert!(SkewSymmetric.required_dim(1).is_err());
    assert!(SkewSymmetric.required_dim(0).is_err());
    assert!(SkewSymmetric.required_dim(4).is_ok());
    assert!(SkewSymmetric.required_dim(9).is_ok());
    assert!(Spd.required_dim(1).is_ok());
    assert_eq!(Spd.required_dim(0), Err(0));
    let u = Unitary::new(2).unwrap();
    assert!(u.required_dim(8).is_ok());
    assert!(u.required_dim(12).is_err());
    assert!(u.required_dim(2).is_err());
    assert!(u.required_dim(114).is_err());
    assert!(Unitary::new(1).unwrap().required_dim(2).is_ok());
    assert!(Unitary::new(0).is_err());
    assert_eq!(Unitary::new(2).unwrap().packed_len(), Some(8));
    assert_eq!(Unitary::new(usize::MAX).unwrap().packed_len(), None);
}

#[test]
fn square_sides() {
    assert_eq!(skewsymmetric::side(4), Some(2));
    assert_eq!(skewsymmetric::side(9), Some(3));
    assert_eq!(skewsymmetric::side(1), None);
    assert_eq!(skewsymmetric::side(114), None);
    assert_eq!(spd::side(1), Some(1));
    assert_eq!(spd::side(0), None);
    assert_eq!(spd::side(10_000), Some(100));
    assert_eq!(spd::side(9_999), None);
    assert!(unitary::side(8).is_some());
    assert!(unitary::side(2).is_some());
    assert!(unitary::side(12).is_none());
    assert!(unitary::side(1).is_none());
    assert!(unitary::side(0).is_none());
    assert_eq!(unitary::side(18), Some(3));
    let big = 4_294_967_295usize;
    assert_eq!(spd::side(big * big), Some(big));
    assert_eq!(spd::side(big * big - 1), None);
    assert_eq!(spd::side(usize::MAX), None);
    assert_eq!(rgmin::manifold::square::isqrt(usize::MAX), 4_294_967_295);
    assert_eq!(rgmin::manifold::square::isqrt(15), 3);
    assert_eq!(rgmin::manifold::square::isqrt(16), 4);
    assert_eq!(rgmin::manifold::square::isqrt(0), 0);
}

#[test]
fn kind_required_dim_picks_each_geometry_rule() {
    assert!(ManifoldKind::Euclidean.required_dim(114).is_ok());
    assert!(ManifoldKind::Sphere.required_dim(3).is_ok());
    assert_eq!(ManifoldKind::So3.required_dim(6), Err(9));
    assert!(ManifoldKind::So3.required_dim(9).is_ok());
    assert_eq!(ManifoldKind::Se3.required_dim(114), Err(12));
    let st = ManifoldKind::stiefel(4, 2);
    assert!(st.required_dim(8).is_ok());
    assert!(st.required_dim(7).is_err());
    assert!(st.required_dim(114).is_err());
    assert_eq!(ManifoldKind::Symmetric.required_dim(114), Err(114));
    assert!(ManifoldKind::Symmetric.required_dim(1).is_ok());
    assert_eq!(ManifoldKind::SkewSymmetric.required_dim(1), Err(1));
    assert_eq!(ManifoldKind::constant(2).required_dim(114), Err(2));
    assert_eq!(ManifoldKind::multinomial_ds(2).required_dim(1), Err(4));
    assert_eq!(
        ManifoldKind::MultinomialSymmetric { n: 1 }.required_dim(1),
        Err(1)
    );
    assert_eq!(ManifoldKind::complex_circle(2).required_dim(114), Err(4));
    assert_eq!(ManifoldKind::oblique(3, 2).required_dim(114), Err(6));
    assert_eq!(ManifoldKind::RigidQuotient.required_dim(7), Err(7));
    assert_eq!(ManifoldKind::Multinomial.required_dim(1), Err(2));
    assert_eq!(ManifoldKind::unitary(2).required_dim(8), Ok(()));
    assert_eq!(ManifoldKind::Positive { n: 3 }.required_dim(4), Err(3));
}
