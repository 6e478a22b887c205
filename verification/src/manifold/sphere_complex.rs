//! Complex unit sphere \(\{z \in \mathbb{C}^n : z^* z = 1\}\), manopt
//! `spherecomplexfactory`. Packed as interleaved `(re, im)` pairs,
//! length `2 n`. Not the real sphere token and not the product of
//! circles.

use vstd::prelude::*;

use super::dim::{dim_check, dim_verdict, product_len};
use super::packing::{deinterleave, evens, interleave, interleaved, odds};

verus! {

/// Unit sphere in \(\mathbb{C}^n\), packed as `2 n` reals.
#[derive(Clone, Copy, Debug, PartialEq, Eq, Structural)]
pub struct SphereComplex {
    /// Complex dimension. Packed length is `2 n`.
    pub n: usize,
}

impl Default for SphereComplex {
    fn default() -> (r: Self)
        ensures
            r.n == 1,
    {
        SphereComplex { n: 1 }
    }
}

impl SphereComplex {
    /// \(\mathbb{C}^n\) unit sphere. Illegal `n == 0` fails [`SphereComplex::required_dim`].
    pub fn new(n: usize) -> (r: Self)
        ensures
            r.n == n,
    {
        SphereComplex { n }
    }

    /// Packed length `2 n`, or `None` on overflow.
    pub fn packed_len(self) -> (r: Option<usize>)
        ensures
            r == product_len(self.n, 2),
    {
        self.n.checked_mul(2)
    }

    /// `len` is a legal packing of this complex sphere.
    pub fn fits(self, len: usize) -> (r: bool)
        ensures
            r <==> self.n >= 1 && len == 2 * self.n,
    {
        self.n >= 1 && self.packed_len() == Some(len)
    }

    /// `Ok` when `dim` is the packed length `2 n` with `n >= 1`,
    /// otherwise the length this geometry wants.
    pub fn required_dim(&self, dim: usize) -> (r: Result<(), usize>)
        ensures
            r == dim_verdict(product_len(self.n, 2), self.n >= 1, dim),
            r is Ok <==> self.n >= 1 && dim == 2 * self.n,
    {
        dim_check(self.packed_len(), self.n >= 1, dim)
    }

    /// Interleaved pack of real and imaginary parts (the longer is truncated).
    pub fn pack<T: Copy>(re: &Vec<T>, im: &Vec<T>) -> (r: Vec<T>)
        ensures
            r@ == interleaved(re@, im@),
    {
        interleave(re, im)
    }

    /// Split a packed vector into `(re, im)`. `None` if the length is odd.
    pub fn unpack<T: Copy>(x: &Vec<T>) -> (r: Option<(Vec<T>, Vec<T>)>)
        ensures
            r is None <==> x@.len() % 2 != 0,
            r matches Some((re, im)) ==> re@ == evens(x@) && im@ == odds(x@),
    {
        deinterleave(x)
    }
}

/// `true` when `x` is a legal interleaved packing (`length = 2 n`, `n >= 1`).
pub fn is_sphere_complex<T>(x: &Vec<T>) -> (r: bool)
    ensures
        r <==> x@.len() >= 2 && x@.len() % 2 == 0,
{
    x.len() >= 2 && x.len() % 2 == 0
}

} // verus!
