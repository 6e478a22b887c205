//! Bookkeeping, packing and dispatch logic of the rgmin Riemannian
//! optimizer: manifold tokens and dimension checks, ambient packings of
//! matrix and complex points, the C-boundary decoders, the L-BFGS pair
//! memory and the spectral-transform tokens of the SLEPc arm.

pub mod entry;
pub mod error;
pub mod ffi;
pub mod laws;
pub mod lbfgs;
pub mod manifold;
pub mod method;
pub mod nlcg;
pub mod pair_memory;
pub mod session;
pub mod slepc_kind;
pub mod vecops;

pub use error::Error;
pub use lbfgs::GradNorm;
pub use manifold::kind::ManifoldKind;
pub use method::{Accept, FireKind, Method, NewtonKind, QnStep};
pub use nlcg::Conjugacy;
pub use pair_memory::PairMemory;
pub use slepc_kind::SlepcStKind;
pub use vecops::{UnsupportedDevice, Vector};
