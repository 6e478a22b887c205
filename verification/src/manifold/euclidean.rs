//! Ambient Euclidean space. Every length is a legal packing.

use vstd::prelude::*;

verus! {

/// Unconstrained Euclidean geometry.
#[derive(Clone, Copy, Debug, Default)]
pub struct Euclidean;

impl Euclidean {
    /// Every length is accepted.
    pub fn required_dim(&self, dim: usize) -> (r: Result<(), usize>)
        ensures
            r is Ok,
    {
        Ok(())
    }
}

} // verus!
