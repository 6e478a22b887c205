//! Embedded Riemannian manifolds: tokens, packed-length checks and the
//! ambient packings of their points.

pub mod centered;
pub mod complex_circle;
pub mod dim;
pub mod euclidean;
pub mod euclidean_complex;
pub mod grassmann;
pub mod hyperbolic;
pub mod kind;
pub mod multinomial;
pub mod mw_rigid;
pub mod oblique;
pub mod packing;
pub mod positive;
pub mod rigid_quotient;
pub mod skewsymmetric;
pub mod spd;
pub mod sphere;
pub mod sphere_complex;
pub mod square;
pub mod unitary;

pub use centered::{CenterMode, CenteredMatrix};
pub use complex_circle::ComplexCircle;
pub use euclidean::Euclidean;
pub use euclidean_complex::{is_euclidean_complex, EuclideanComplex};
pub use grassmann::Grassmann;
pub use hyperbolic::Hyperbolic;
pub use kind::ManifoldKind;
pub use multinomial::Multinomial;
pub use mw_rigid::MwRigid;
pub use oblique::Oblique;
pub use packing::Dense;
pub use positive::Positive;
pub use rigid_quotient::RigidQuotient;
pub use skewsymmetric::SkewSymmetric;
pub use spd::Spd;
pub use sphere::Sphere;
pub use sphere_complex::{is_sphere_complex, SphereComplex};
pub use unitary::Unitary;
