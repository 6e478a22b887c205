//! Unit sphere \(S^{n-1}\), manopt_cpp `Sphere`. Every length is a
//! legal packing.

use vstd::prelude::*;

verus! {

/// Unit sphere in the ambient Euclidean metric.
#[derive(Clone, Copy, Debug, Default)]
pub struct Sphere;

impl Sphere {
    /// Every length is accepted.
    pub fn required_dim(&self, dim: usize) -> (r: Result<(), usize>)
        ensures
            r is Ok,
    {
        Ok(())
    }
}

} // verus!
