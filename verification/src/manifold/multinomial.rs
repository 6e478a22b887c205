//! Multinomial simplex \(\{x > 0,\ 1^\top x = 1\}\) with the Fisher
//! metric, manopt `multinomialfactory` at \(m = 1\). A point has at
//! least two categories.

use vstd::prelude::*;

use super::packing::copy_vec;

verus! {

/// Relative interior of the simplex, Fisher information metric.
#[derive(Clone, Copy, Debug, Default)]
pub struct Multinomial;

impl Multinomial {
    /// `Ok` for `dim >= 2`, otherwise `Err(2)`.
    pub fn required_dim(&self, dim: usize) -> (r: Result<(), usize>)
        ensures
            r is Ok <==> dim >= 2,
            r is Err ==> r == Err::<(), usize>(2),
            r == (if dim >= 2 {
                Ok(())
            } else {
                Err::<(), usize>(2)
            }),
    {
        if dim >= 2 {
            Ok(())
        } else {
            Err(2)
        }
    }

    /// Flat pack of a simplex point (manopt `M.vec`, \(m = 1\)).
    pub fn pack<T: Copy>(x: &Vec<T>) -> (r: Vec<T>)
        ensures
            r@ == x@,
    {
        copy_vec(x)
    }

    /// Inverse of [`Multinomial::pack`] (manopt `M.mat` with \(m = 1\)).
    pub fn unpack<T: Copy>(packed: &Vec<T>) -> (r: Vec<T>)
        ensures
            r@ == packed@,
    {
        copy_vec(packed)
    }
}

} // verus!
