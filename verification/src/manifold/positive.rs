//! Element-wise positive orthant \(\{x \in \mathbb{R}^n : x_i > 0\}\),
//! manopt `positivefactory`, identified with a packed length-`n`
//! vector. Not the sphere, not the simplex and not a 3N cluster packing.

use vstd::prelude::*;

use super::packing::copy_vec;

verus! {

/// Strictly positive orthant of packed length `n`.
#[derive(Clone, Copy, Debug, PartialEq, Eq, Structural)]
pub struct Positive {
    /// Packed length. manopt `m*n` with default `n = 1`.
    pub n: usize,
}

impl Default for Positive {
    fn default() -> (r: Self)
        ensures
            r.n == 1,
    {
        Positive { n: 1 }
    }
}

impl Positive {
    /// Positive orthant of packed length `n`. Illegal `n == 0` fails
    /// [`Positive::required_dim`].
    pub fn new(n: usize) -> (r: Self)
        ensures
            r.n == n,
    {
        Positive { n }
    }

    /// `len` is a legal packing: `n >= 1` and `len == n`.
    pub fn fits(self, len: usize) -> (r: bool)
        ensures
            r <==> self.n >= 1 && self.n == len,
    {
        self.n >= 1 && self.n == len
    }

    /// `Ok` when `dim == n >= 1`, otherwise `Err(n)`.
    pub fn required_dim(&self, dim: usize) -> (r: Result<(), usize>)
        ensures
            r is Ok <==> self.n >= 1 && dim == self.n,
            r is Err ==> r == Err::<(), usize>(self.n),
            r == (if self.n >= 1 && dim == self.n {
                Ok(())
            } else {
                Err::<(), usize>(self.n)
            }),
    {
        if self.n >= 1 && dim == self.n {
            Ok(())
        } else {
            Err(self.n)
        }
    }

    /// Pack a positive vector. Identity on the ambient array.
    pub fn pack<T: Copy>(x: &Vec<T>) -> (r: Vec<T>)
        ensures
            r@ == x@,
    {
        copy_vec(x)
    }

    /// Unpack a packed point. `None` if the length is not `n`.
    pub fn unpack<T: Copy>(self, x: &Vec<T>) -> (r: Option<Vec<T>>)
        ensures
            r is Some <==> self.n >= 1 && x@.len() == self.n,
            r matches Some(a) ==> a@ == x@,
    {
        if self.fits(x.len()) {
            Some(copy_vec(x))
        } else {
            None
        }
    }
}

} // verus!
