//! Complex Euclidean space \(\mathbb{C}^n\) identified with
//! \(\mathbb{R}^{2n}\), manopt `euclideancomplexfactory`. Packed as
//! interleaved `(re, im)` pairs, length `2 n`. Not the sphere, not the
//! product of circles and not a 3N cluster.

use vstd::prelude::*;

use super::dim::{dim_check, dim_verdict, product_len};
use super::packing::{deinterleave, evens, interleave, interleaved, odds};

verus! {

/// \(\mathbb{C}^n\) as `n` interleaved real-imaginary pairs.
#[derive(Clone, Copy, Debug, PartialEq, Eq, Structural)]
pub struct EuclideanComplex {
    /// Number of complex entries.
    pub n: usize,
}

impl Default for EuclideanComplex {
    fn default() -> (r: Self)
        ensures
            r.n == 1,
    {
        EuclideanComplex { n: 1 }
    }
}

impl EuclideanComplex {
    /// `n` complex entries. Illegal `n == 0` fails [`EuclideanComplex::required_dim`].
    pub fn new(n: usize) -> (r: Self)
        ensures
            r.n == n,
    {
        EuclideanComplex { n }
    }

    /// Packed length `2 n`, or `None` on overflow.
    pub fn packed_len(self) -> (r: Option<usize>)
        ensures
            r == product_len(self.n, 2),
    {
        self.n.checked_mul(2)
    }

    /// `len` is a legal packing of this complex space.
    pub fn fits(self, len: usize) -> (r: bool)
        ensures
            r <==> self.n >= 1 && len == 2 * self.n,
    {
        self.n >= 1 && self.packed_len() == Some(len)
    }

    /// `Ok` when `dim` is the packed length `2 n` with `n >= 1`,
    /// otherwise the length this geometry wants.
    pub fn required_dim(&self, dim: usize) -> (r: Result<(), usize>)
        ensures
            r == dim_verdict(product_len(self.n, 2), self.n >= 1, dim),
            r is Ok <==> self.n >= 1 && dim == 2 * self.n,
    {
        dim_check(self.packed_len(), self.n >= 1, dim)
    }

    /// Interleaved pack of real and imaginary parts (the longer is truncated).
    pub fn pack<T: Copy>(re: &Vec<T>, im: &Vec<T>) -> (r: Vec<T>)
        ensures
            r@ == interleaved(re@, im@),
    {
        interleave(re, im)
    }

    /// Split a packed vector into `(re, im)`. `None` if the length is odd.
    pub fn unpack<T: Copy>(x: &Vec<T>) -> (r: Option<(Vec<T>, Vec<T>)>)
        ensures
            r is None <==> x@.len() % 2 != 0,
            r matches Some((re, im)) ==> re@ == evens(x@) && im@ == odds(x@),
    {
        deinterleave(x)
    }
}

/// Interleaved pack of real and imaginary parts.
pub fn pack<T: Copy>(re: &Vec<T>, im: &Vec<T>) -> (r: Vec<T>)
    ensures
        r@ == interleaved(re@, im@),
{
    EuclideanComplex::pack(re, im)
}

/// Split a packed vector into `(re, im)`. `None` if the length is odd.
pub fn unpack<T: Copy>(x: &Vec<T>) -> (r: Option<(Vec<T>, Vec<T>)>)
    ensures
        r is None <==> x@.len() % 2 != 0,
        r matches Some((re, im)) ==> re@ == evens(x@) && im@ == odds(x@),
{
    EuclideanComplex::unpack(x)
}

/// `true` when the vector is a legal interleaved packing (`2 n`, `n >= 1`).
pub fn is_euclidean_complex<T>(x: &Vec<T>) -> (r: bool)
    ensures
        r <==> x@.len() >= 2 && x@.len() % 2 == 0,
{
    x.len() >= 2 && x.len() % 2 == 0
}

} // verus!
