//! Which embedded geometry a session retracts onto, and its token.

use vstd::prelude::*;

use super::centered::{CenterMode, CenteredMatrix};
use super::complex_circle::ComplexCircle;
use super::dim::{dim_check, dim_verdict, product_len};
use super::euclidean_complex::EuclideanComplex;
use super::grassmann::Grassmann;
use super::multinomial::Multinomial;
use super::mw_rigid::MwRigid;
use super::oblique::Oblique;
use super::positive::Positive;
use super::rigid_quotient::{is_cluster_len, RigidQuotient};
use super::skewsymmetric::SkewSymmetric;
use super::spd::{self, Spd};
use super::sphere_complex::SphereComplex;
use super::square::square_verdict;
use super::unitary::{unitary_len, Unitary};

verus! {

/// Which embedded geometry a session retracts onto.
#[derive(Clone, Copy, Debug, PartialEq, Eq, Structural)]
pub enum ManifoldKind {
    /// Ambient Euclidean. The default.
    Euclidean,
    /// Unit sphere \(S^{n-1}\).
    Sphere,
    /// Rotation matrices SO(3), 9-vector row-major.
    So3,
    /// Stiefel \(\mathrm{St}(n,1)\). A single orthonormal column.
    /// `p > 1` is [`ManifoldKind::StiefelP`]; a 3N cluster is
    /// [`ManifoldKind::RigidQuotient`].
    Stiefel,
    /// Rigid motions SE(3): 3x3 row-major then translation (12).
    Se3,
    /// Isolated-molecule shape space \(R^{3N}/\mathrm{SE}(3)\).
    RigidQuotient,
    /// Mass-weighted Eckart: Sella IRC / Page-McIver metric on the same
    /// quotient.
    MwRigid,
    /// Product of `m` unit spheres in \(\mathbb{R}^n\). Packed
    /// column-major, length `n*m`. manopt `obliquefactory`.
    Oblique {
        /// Ambient dimension of each sphere (column length).
        n: usize,
        /// Number of unit-norm columns.
        m: usize,
    },
    /// Simplex \(\{x > 0,\ \sum x = 1\}\) with the Fisher metric.
    Multinomial,
    /// Stiefel \(\mathrm{St}(n,p)\) for `p > 1`, packed column-major
    /// length `n*p`. Construct with [`ManifoldKind::stiefel`].
    StiefelP {
        /// Ambient dimension. Rows of the frame.
        n: usize,
        /// Orthonormal columns. Must be `> 1`.
        p: usize,
    },
    /// Symmetric positive definite n-by-n, row-major n².
    Spd,
    /// Real symmetric n-by-n, row-major n².
    Symmetric,
    /// Real skew-symmetric n-by-n, row-major n², `n >= 2`.
    SkewSymmetric,
    /// Product of unit-modulus complex numbers \((S^1)^n\), packed
    /// interleaved `(re, im)`, length `2 n`.
    ComplexCircle {
        /// Number of unit-modulus complex entries.
        n: usize,
    },
    /// Complex Euclidean \(\mathbb{C}^n\), packed interleaved, length `2 n`.
    EuclideanComplex {
        /// Number of complex entries.
        n: usize,
    },
    /// Singleton \(\{A\}\) of packed length `n`. manopt `constantfactory`.
    Constant {
        /// Packed length of the singleton.
        n: usize,
    },
    /// Doubly-stochastic n-by-n, row-major n², `n >= 2`.
    MultinomialDoublyStochastic {
        /// Side length.
        n: usize,
    },
    /// Symmetric doubly-stochastic n-by-n, row-major n², `n >= 2`.
    MultinomialSymmetric {
        /// Side length.
        n: usize,
    },
    /// Complex unit sphere in \(\mathbb{C}^n\), packed `2 n`.
    SphereComplex {
        /// Complex dimension.
        n: usize,
    },
    /// Centered real `m x n` matrices, row-major `m*n`. manopt
    /// `centeredmatrixfactory`.
    CenteredMatrix {
        /// Rows.
        m: usize,
        /// Columns.
        n: usize,
        /// Which mean is removed.
        mode: CenterMode,
    },
    /// Real Grassmannian \(\mathrm{Gr}(n,p)\), column-major `n*p`.
    Grassmann {
        /// Ambient dimension.
        n: usize,
        /// Subspace dimension.
        p: usize,
    },
    /// Positive orthant of packed length `n`. manopt `positivefactory`.
    Positive {
        /// Packed length.
        n: usize,
    },
    /// Unitary group \(\mathrm{U}(n)\), interleaved row-major `2 n^2`.
    Unitary {
        /// Matrix side.
        n: usize,
    },
}

/// The C ABI / INI token of each geometry.
pub open spec fn kind_token(k: ManifoldKind) -> Seq<char> {
    match k {
        ManifoldKind::Euclidean => "euclidean"@,
        ManifoldKind::Sphere => "sphere"@,
        ManifoldKind::So3 => "so3"@,
        ManifoldKind::Stiefel => "stiefel"@,
        ManifoldKind::StiefelP { .. } => "stiefel"@,
        ManifoldKind::Se3 => "se3"@,
        ManifoldKind::RigidQuotient => "rigid_quotient"@,
        ManifoldKind::MwRigid => "mw_rigid"@,
        ManifoldKind::Oblique { .. } => "oblique"@,
        ManifoldKind::Multinomial => "multinomial"@,
        ManifoldKind::Spd => "spd"@,
        ManifoldKind::Symmetric => "symmetric"@,
        ManifoldKind::SkewSymmetric => "skewsymmetric"@,
        ManifoldKind::ComplexCircle { .. } => "complex_circle"@,
        ManifoldKind::EuclideanComplex { .. } => "euclidean_complex"@,
        ManifoldKind::Constant { .. } => "constant"@,
        ManifoldKind::MultinomialDoublyStochastic { .. } => "multinomialdoublystochastic"@,
        ManifoldKind::MultinomialSymmetric { .. } => "multinomialsymmetric"@,
        ManifoldKind::SphereComplex { .. } => "spherecomplex"@,
        ManifoldKind::CenteredMatrix { .. } => "centered_matrix"@,
        ManifoldKind::Grassmann { .. } => "grassmann"@,
        ManifoldKind::Positive { .. } => "positive"@,
        ManifoldKind::Unitary { .. } => "unitary"@,
    }
}

/// Stiefel \(\mathrm{St}(n,p)\): `p <= 1` is the single-column token.
pub open spec fn spec_stiefel(n: usize, p: usize) -> ManifoldKind {
    if p <= 1 {
        ManifoldKind::Stiefel
    } else {
        ManifoldKind::StiefelP { n, p }
    }
}

/// Stiefel column count of a token; `1` for everything but `StiefelP`.
pub open spec fn spec_stiefel_p(k: ManifoldKind) -> usize {
    match k {
        ManifoldKind::StiefelP { p, .. } => p,
        _ => 1,
    }
}

impl Default for ManifoldKind {
    fn default() -> (r: Self)
        ensures
            r == ManifoldKind::Euclidean,
    {
        ManifoldKind::Euclidean
    }
}

impl ManifoldKind {
    /// Stiefel \(\mathrm{St}(n,p)\). `p = 1` is the sphere packing.
    pub fn stiefel(n: usize, p: usize) -> (r: Self)
        ensures
            r == spec_stiefel(n, p),
    {
        if p <= 1 {
            ManifoldKind::Stiefel
        } else {
            ManifoldKind::StiefelP { n, p }
        }
    }

    /// Stiefel column count. `p = 1` is the sphere.
    pub fn stiefel_p(self) -> (r: usize)
        ensures
            r == spec_stiefel_p(self),
    {
        match self {
            ManifoldKind::StiefelP { p, .. } => p,
            _ => 1,
        }
    }

    /// Oblique \(\mathrm{OB}(n, m)\): product of `m` unit spheres.
    pub fn oblique(n: usize, m: usize) -> (r: Self)
        ensures
            r == (ManifoldKind::Oblique { n, m }),
    {
        ManifoldKind::Oblique { n, m }
    }

    /// Product of `n` unit circles. Packed length `2 n`.
    pub fn complex_circle(n: usize) -> (r: Self)
        ensures
            r == (ManifoldKind::ComplexCircle { n }),
    {
        ManifoldKind::ComplexCircle { n }
    }

    /// Complex Euclidean \(\mathbb{C}^n\). Packed length `2 n`.
    pub fn euclidean_complex(n: usize) -> (r: Self)
        ensures
            r == (ManifoldKind::EuclideanComplex { n }),
    {
        ManifoldKind::EuclideanComplex { n }
    }

    /// Singleton of packed length `n`. manopt `constantfactory`.
    pub fn constant(n: usize) -> (r: Self)
        ensures
            r == (ManifoldKind::Constant { n }),
    {
        ManifoldKind::Constant { n }
    }

    /// Doubly-stochastic n-by-n, packed length `n^2`.
    pub fn multinomial_ds(n: usize) -> (r: Self)
        ensures
            r == (ManifoldKind::MultinomialDoublyStochastic { n }),
    {
        ManifoldKind::MultinomialDoublyStochastic { n }
    }

    /// Centered `m x n` matrices; `rows` removes the mean row instead of
    /// the mean column.
    pub fn centered_matrix(m: usize, n: usize, rows: bool) -> (r: Self)
        ensures
            r == (ManifoldKind::CenteredMatrix {
                m,
                n,
                mode: if rows {
                    CenterMode::Rows
                } else {
                    CenterMode::Cols
                },
            }),
    {
        let mode = if rows {
            CenterMode::Rows
        } else {
            CenterMode::Cols
        };
        ManifoldKind::CenteredMatrix { m, n, mode }
    }

    /// Unitary group \(\mathrm{U}(n)\).
    pub fn unitary(n: usize) -> (r: Self)
        ensures
            r == (ManifoldKind::Unitary { n }),
    {
        ManifoldKind::Unitary { n }
    }

    /// C ABI / INI token.
    pub fn as_str(self) -> (r: &'static str)
        ensures
            r@ == kind_token(self),
    {
        match self {
            ManifoldKind::Euclidean => "euclidean",
            ManifoldKind::Sphere => "sphere",
            ManifoldKind::So3 => "so3",
            ManifoldKind::Stiefel => "stiefel",
            ManifoldKind::StiefelP { .. } => "stiefel",
            ManifoldKind::Se3 => "se3",
            ManifoldKind::RigidQuotient => "rigid_quotient",
            ManifoldKind::MwRigid => "mw_rigid",
            ManifoldKind::Oblique { .. } => "oblique",
            ManifoldKind::Multinomial => "multinomial",
            ManifoldKind::Spd => "spd",
            ManifoldKind::Symmetric => "symmetric",
            ManifoldKind::SkewSymmetric => "skewsymmetric",
            ManifoldKind::ComplexCircle { .. } => "complex_circle",
            ManifoldKind::EuclideanComplex { .. } => "euclidean_complex",
            ManifoldKind::Constant { .. } => "constant",
            ManifoldKind::MultinomialDoublyStochastic { .. } => "multinomialdoublystochastic",
            ManifoldKind::MultinomialSymmetric { .. } => "multinomialsymmetric",
            ManifoldKind::SphereComplex { .. } => "spherecomplex",
            ManifoldKind::CenteredMatrix { .. } => "centered_matrix",
            ManifoldKind::Grassmann { .. } => "grassmann",
            ManifoldKind::Positive { .. } => "positive",
            ManifoldKind::Unitary { .. } => "unitary",
        }
    }
}

/// The column count read back from [`ManifoldKind::stiefel`] is `p`,
/// with `p = 0` and `p = 1` both landing on the single-column sphere
/// packing.
pub proof fn lemma_stiefel_round_trip(n: usize, p: usize)
    ensures
        spec_stiefel_p(spec_stiefel(n, p)) == if p <= 1 {
            1
        } else {
            p
        },
        spec_stiefel(n, p) == ManifoldKind::Stiefel <==> p <= 1,
{
}

/// The family of a token: variants that differ only in their size
/// parameters share a family, and so do the two Stiefel tokens.
pub open spec fn kind_family(k: ManifoldKind) -> int {
    match k {
        ManifoldKind::Euclidean => 0,
        ManifoldKind::Sphere => 1,
        ManifoldKind::So3 => 2,
        ManifoldKind::Stiefel => 3,
        ManifoldKind::StiefelP { .. } => 3,
        ManifoldKind::Se3 => 4,
        ManifoldKind::RigidQuotient => 5,
        ManifoldKind::MwRigid => 6,
        ManifoldKind::Oblique { .. } => 7,
        ManifoldKind::Multinomial => 8,
        ManifoldKind::Spd => 9,
        ManifoldKind::Symmetric => 10,
        ManifoldKind::SkewSymmetric => 11,
        ManifoldKind::ComplexCircle { .. } => 12,
        ManifoldKind::EuclideanComplex { .. } => 13,
        ManifoldKind::Constant { .. } => 14,
        ManifoldKind::MultinomialDoublyStochastic { .. } => 15,
        ManifoldKind::MultinomialSymmetric { .. } => 16,
        ManifoldKind::SphereComplex { .. } => 17,
        ManifoldKind::CenteredMatrix { .. } => 18,
        ManifoldKind::Grassmann { .. } => 19,
        ManifoldKind::Positive { .. } => 20,
        ManifoldKind::Unitary { .. } => 21,
    }
}

/// A token names exactly one family of geometries: two kinds share a
/// token if and only if they belong to the same family.
pub proof fn lemma_token_names_family(a: ManifoldKind, b: ManifoldKind)
    ensures
        kind_token(a) == kind_token(b) <==> kind_family(a) == kind_family(b),
{
    reveal_strlit("euclidean");
    reveal_strlit("sphere");
    reveal_strlit("so3");
    reveal_strlit("stiefel");
    reveal_strlit("se3");
    reveal_strlit("rigid_quotient");
    reveal_strlit("mw_rigid");
    reveal_strlit("oblique");
    reveal_strlit("multinomial");
    reveal_strlit("spd");
    reveal_strlit("symmetric");
    reveal_strlit("skewsymmetric");
    reveal_strlit("complex_circle");
    reveal_strlit("euclidean_complex");
    reveal_strlit("constant");
    reveal_strlit("multinomialdoublystochastic");
    reveal_strlit("multinomialsymmetric");
    reveal_strlit("spherecomplex");
    reveal_strlit("centered_matrix");
    reveal_strlit("grassmann");
    reveal_strlit("positive");
    reveal_strlit("unitary");
    let ta = kind_token(a);
    let tb = kind_token(b);
    if kind_family(a) != kind_family(b) {
        assert(ta.len() != tb.len() || ta[0] != tb[0] || ta[1] != tb[1]);
    }
}


/// Which iterate lengths each geometry accepts. `Ok`, or the packed length
/// the geometry wants (the length itself where none can be named):
/// Euclidean, sphere and `St(n,1)` take any length; SO(3) takes 9 and
/// SE(3) 12; the rigid quotients take `3N` with `N >= 2`; the matrix
/// geometries take their packed `rows * cols` (square `n^2` for the
/// symmetric, SPD and skew-symmetric kinds, `2 n` for the complex kinds,
/// `2 n^2` for the unitary group).
pub open spec fn kind_dim_verdict(k: ManifoldKind, n: usize) -> Result<(), usize> {
    match k {
        ManifoldKind::Euclidean => Ok(()),
        ManifoldKind::Sphere => Ok(()),
        ManifoldKind::Stiefel => Ok(()),
        ManifoldKind::So3 => dim_verdict(Some(9), true, n),
        ManifoldKind::Se3 => dim_verdict(Some(12), true, n),
        ManifoldKind::RigidQuotient => if is_cluster_len(n as int) {
            Ok(())
        } else {
            Err(n)
        },
        ManifoldKind::MwRigid => if is_cluster_len(n as int) {
            Ok(())
        } else {
            Err(n)
        },
        ManifoldKind::Oblique { n: a, m } => dim_verdict(product_len(a, m), a >= 2 && m >= 1, n),
        ManifoldKind::Multinomial => if n >= 2 {
            Ok(())
        } else {
            Err(2)
        },
        ManifoldKind::StiefelP { n: a, p } => dim_verdict(product_len(a, p), a >= p && p >= 2, n),
        ManifoldKind::Spd => square_verdict(n, 1),
        ManifoldKind::Symmetric => square_verdict(n, 1),
        ManifoldKind::SkewSymmetric => square_verdict(n, 2),
        ManifoldKind::ComplexCircle { n: c } => dim_verdict(product_len(c, 2), c >= 1, n),
        ManifoldKind::EuclideanComplex { n: c } => dim_verdict(product_len(c, 2), c >= 1, n),
        ManifoldKind::SphereComplex { n: c } => dim_verdict(product_len(c, 2), c >= 1, n),
        ManifoldKind::Constant { n: c } => dim_verdict(Some(c), c >= 1, n),
        ManifoldKind::MultinomialDoublyStochastic { n: s } => dim_verdict(
            product_len(s, s),
            s >= 2,
            n,
        ),
        ManifoldKind::MultinomialSymmetric { n: s } => dim_verdict(product_len(s, s), s >= 2, n),
        ManifoldKind::CenteredMatrix { m, n: c, .. } => dim_verdict(
            product_len(m, c),
            m >= 1 && c >= 1,
            n,
        ),
        ManifoldKind::Grassmann { n: a, p } => dim_verdict(product_len(a, p), a >= p && p >= 1, n),
        ManifoldKind::Positive { n: c } => if c >= 1 && n == c {
            Ok(())
        } else {
            Err(c)
        },
        ManifoldKind::Unitary { n: u } => dim_verdict(unitary_len(u), u >= 1, n),
    }
}

impl ManifoldKind {
    /// `Ok` when an iterate of length `n` is a legal packing of this
    /// geometry; otherwise the packed length the geometry wants (the
    /// length itself where none can be named).
    pub fn required_dim(self, n: usize) -> (r: Result<(), usize>)
        ensures
            r == kind_dim_verdict(self, n),
    {
        match self {
            ManifoldKind::Euclidean => Ok(()),
            ManifoldKind::Sphere => Ok(()),
            ManifoldKind::Stiefel => Ok(()),
            ManifoldKind::So3 => dim_check(Some(9), true, n),
            ManifoldKind::Se3 => dim_check(Some(12), true, n),
            ManifoldKind::RigidQuotient => RigidQuotient.required_dim(n),
            ManifoldKind::MwRigid => MwRigid.required_dim(n),
            ManifoldKind::Oblique { n: a, m } => Oblique { n: a, m }.required_dim(n),
            ManifoldKind::Multinomial => Multinomial.required_dim(n),
            ManifoldKind::StiefelP { n: a, p } => dim_check(a.checked_mul(p), a >= p && p >= 2, n),
            ManifoldKind::Spd => Spd.required_dim(n),
            ManifoldKind::Symmetric => if spd::side(n).is_some() {
                Ok(())
            } else {
                Err(n)
            },
            ManifoldKind::SkewSymmetric => SkewSymmetric.required_dim(n),
            ManifoldKind::ComplexCircle { n: c } => ComplexCircle { n: c }.required_dim(n),
            ManifoldKind::EuclideanComplex { n: c } => EuclideanComplex { n: c }.required_dim(n),
            ManifoldKind::SphereComplex { n: c } => SphereComplex { n: c }.required_dim(n),
            ManifoldKind::Constant { n: c } => dim_check(Some(c), c >= 1, n),
            ManifoldKind::MultinomialDoublyStochastic { n: s } => dim_check(
                s.checked_mul(s),
                s >= 2,
                n,
            ),
            ManifoldKind::MultinomialSymmetric { n: s } => dim_check(s.checked_mul(s), s >= 2, n),
            ManifoldKind::CenteredMatrix { m, n: c, mode } => CenteredMatrix {
                m,
                n: c,
                mode,
            }.required_dim(n),
            ManifoldKind::Grassmann { n: a, p } => Grassmann { n: a, p }.required_dim(n),
            ManifoldKind::Positive { n: c } => Positive { n: c }.required_dim(n),
            ManifoldKind::Unitary { n: u } => Unitary { n: u }.required_dim(n),
        }
    }
}

} // verus!
