//! Product of unit-modulus complex numbers \((S^1)^n\), manopt
//! `complexcirclefactory(n)`. Packed as interleaved `(re, im)` pairs,
//! length `2 n`. Not the sphere \(S^{2n-1}\) and not a 3N cluster.

use vstd::prelude::*;

use super::dim::{dim_check, dim_verdict, product_len};
use super::packing::{deinterleave, evens, interleave, interleaved, odds};

verus! {

/// \((S^1)^n\) as `n` interleaved real-imaginary pairs.
#[derive(Clone, Copy, Debug, PartialEq, Eq, Structural)]
pub struct ComplexCircle {
    /// Number of unit-modulus complex entries. manopt `n` at `m = 1`.
    pub n: usize,
}

impl Default for ComplexCircle {
    fn default() -> (r: Self)
        ensures
            r.n == 1,
    {
        ComplexCircle { n: 1 }
    }
}

impl ComplexCircle {
    /// `n` unit circles. Illegal `n == 0` fails [`ComplexCircle::required_dim`].
    pub fn new(n: usize) -> (r: Self)
        ensures
            r.n == n,
    {
        ComplexCircle { n }
    }

    /// Packed length `2 n`, or `None` on overflow.
    pub fn packed_len(self) -> (r: Option<usize>)
        ensures
            r == product_len(self.n, 2),
    {
        self.n.checked_mul(2)
    }

    /// `len` is a legal packing of this product of circles.
    pub fn fits(self, len: usize) -> (r: bool)
        ensures
            r <==> self.n >= 1 && len == 2 * self.n,
    {
        self.n >= 1 && self.packed_len() == Some(len)
    }

    /// `Ok` when `dim` is the packed length `2 n` with `n >= 1`,
    /// otherwise the length this geometry wants.
    pub fn required_dim(&self, dim: usize) -> (r: Result<(), usize>)
        ensures
            r == dim_verdict(product_len(self.n, 2), self.n >= 1, dim),
            r is Ok <==> self.n >= 1 && dim == 2 * self.n,
    {
        dim_check(self.packed_len(), self.n >= 1, dim)
    }

    /// Interleaved pack of real and imaginary parts (the longer is truncated).
    pub fn pack<T: Copy>(re: &Vec<T>, im: &Vec<T>) -> (r: Vec<T>)
        ensures
            r@ == interleaved(re@, im@),
    {
        interleave(re, im)
    }

    /// Split a packed vector into `(re, im)`. `None` if the length is odd.
    pub fn unpack<T: Copy>(x: &Vec<T>) -> (r: Option<(Vec<T>, Vec<T>)>)
        ensures
            r is None <==> x@.len() % 2 != 0,
            r matches Some((re, im)) ==> re@ == evens(x@) && im@ == odds(x@),
    {
        deinterleave(x)
    }
}

} // verus!
