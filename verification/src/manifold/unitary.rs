//! Unitary group \(\mathrm{U}(n)\), `n >= 1`, manopt `unitaryfactory(n)`
//! at `k = 1`. A point is an `n x n` complex unitary matrix packed
//! interleaved `(re, im)` row-major, length `2 n^2`.

use vstd::prelude::*;

use super::dim::{dim_check, dim_verdict};
use super::packing::copy_vec;
use super::square::{square_side, square_side_at_least};

verus! {

/// `n >= 1` is the side of a packed complex `n x n` matrix of length `len`.
pub open spec fn unitary_side(len: int, n: int) -> bool {
    n >= 1 && 2 * (n * n) == len
}

/// Packed length `2 n^2`, or `None` when it overflows.
pub open spec fn unitary_len(n: usize) -> Option<usize> {
    if 2 * (n * n) <= usize::MAX {
        Some((2 * (n * n)) as usize)
    } else {
        None
    }
}

/// \(\mathrm{U}(n)\), \(n \ge 1\). Packed interleaved row-major, length `2 n^2`.
#[derive(Clone, Copy, Debug, PartialEq, Eq, Structural)]
pub struct Unitary {
    /// Matrix side. Must be `>= 1`.
    pub n: usize,
}

impl Default for Unitary {
    fn default() -> (r: Self)
        ensures
            r.n == 1,
    {
        Unitary { n: 1 }
    }
}

impl Unitary {
    /// \(\mathrm{U}(n)\) with \(n \ge 1\); `Err(n)` for `n == 0`.
    pub fn new(n: usize) -> (r: Result<Self, usize>)
        ensures
            n >= 1 ==> r == Ok::<Unitary, usize>(Unitary { n }),
            n == 0 ==> r == Err::<Unitary, usize>(n),
    {
        if n >= 1 {
            Ok(Unitary { n })
        } else {
            Err(n)
        }
    }

    /// Packed length `2 n^2`, or `None` on overflow.
    pub fn packed_len(self) -> (r: Option<usize>)
        ensures
            r == unitary_len(self.n),
    {
        match self.n.checked_mul(self.n) {
            Some(nn) => nn.checked_mul(2),
            None => {
                proof {
                    assert(2 * (self.n * self.n) > usize::MAX);
                }
                None
            },
        }
    }

    /// `len` is a legal packing of this group.
    pub fn fits(self, len: usize) -> (r: bool)
        ensures
            r <==> self.n >= 1 && len == 2 * (self.n * self.n),
    {
        self.n >= 1 && self.packed_len() == Some(len)
    }

    /// `Ok` when `dim == 2 n^2` with `n >= 1`, otherwise the length
    /// this group wants.
    pub fn required_dim(&self, dim: usize) -> (r: Result<(), usize>)
        ensures
            r == dim_verdict(unitary_len(self.n), self.n >= 1, dim),
            r is Ok <==> self.n >= 1 && dim == 2 * (self.n * self.n),
    {
        dim_check(self.packed_len(), self.n >= 1, dim)
    }

    /// Interleaved row-major storage of this size as a packed point.
    pub fn pack<T: Copy>(&self, mat: &Vec<T>) -> (r: Option<Vec<T>>)
        ensures
            r is Some <==> self.n >= 1 && mat@.len() == 2 * (self.n * self.n),
            r matches Some(x) ==> x@ == mat@,
    {
        if !self.fits(mat.len()) {
            return None;
        }
        Some(copy_vec(mat))
    }

    /// Interleaved row-major storage of a packed point or tangent.
    pub fn unpack<T: Copy>(&self, x: &Vec<T>) -> (r: Option<Vec<T>>)
        ensures
            r is Some <==> self.n >= 1 && x@.len() == 2 * (self.n * self.n),
            r matches Some(a) ==> a@ == x@,
    {
        if !self.fits(x.len()) {
            return None;
        }
        Some(copy_vec(x))
    }
}

/// Side length if `len` is `2 n^2` for some \(n \ge 1\).
pub fn side(len: usize) -> (r: Option<usize>)
    ensures
        r matches Some(n) ==> unitary_side(len as int, n as int),
        r is None <==> forall|k: int| !unitary_side(len as int, k),
{
    if len < 2 || len % 2 != 0 {
        proof {
            assert forall|k: int| !unitary_side(len as int, k) by {
                if k >= 1 {
                    assert(2 * (k * k) >= 2) by (nonlinear_arith)
                        requires k >= 1;
                }
            }
        }
        return None;
    }
    let nn = len / 2;
    let r = square_side_at_least(nn, 1);
    proof {
        if r is None {
            assert forall|k: int| !unitary_side(len as int, k) by {
                assert(!square_side(nn as int, k, 1));
            }
        }
    }
    r
}

/// Split a length-`2 n^2` ambient vector into `(n, interleaved entries)`.
pub fn unpack<T: Copy>(x: &Vec<T>) -> (r: Option<(usize, Vec<T>)>)
    ensures
        r is None <==> forall|k: int| !unitary_side(x@.len() as int, k),
        r matches Some((n, a)) ==> unitary_side(x@.len() as int, n as int) && a@ == x@,
{
    match side(x.len()) {
        Some(n) => Some((n, copy_vec(x))),
        None => None,
    }
}

/// Flatten an interleaved n-by-n complex matrix into the ambient vector.
pub fn pack<T>(n: usize, a: Vec<T>) -> (r: Vec<T>)
    requires
        a@.len() == 2 * (n * n),
    ensures
        r@ == a@,
{
    a
}

} // verus!
