//! Euclidean space of real skew-symmetric matrices, manopt
//! `skewsymmetricfactory`. A point is an `n x n` matrix packed row-major
//! as length `n^2` (the full matrix, not the `n(n-1)/2` unique
//! entries), `n >= 2`. A 3N cluster is not this packing.

use vstd::prelude::*;

use super::packing::copy_vec;
use super::square::{square_side, square_side_at_least, square_verdict};

verus! {

/// Real skew-symmetric `n x n` matrices. Packed row-major, length `n^2`.
#[derive(Clone, Copy, Debug, Default)]
pub struct SkewSymmetric;

/// Side length if `len` is a perfect square of an integer `n >= 2`.
pub fn side(len: usize) -> (r: Option<usize>)
    ensures
        r matches Some(n) ==> square_side(len as int, n as int, 2),
        r is None <==> forall|k: int| !square_side(len as int, k, 2),
{
    if len < 4 {
        proof {
            assert forall|k: int| !square_side(len as int, k, 2) by {
                if k >= 2 {
                    assert(k * k >= 4) by (nonlinear_arith)
                        requires k >= 2;
                }
            }
        }
        return None;
    }
    square_side_at_least(len, 2)
}

/// Split a length-`n^2` ambient vector into `(n, row-major entries)`.
pub fn unpack<T: Copy>(x: &Vec<T>) -> (r: Option<(usize, Vec<T>)>)
    ensures
        r is None <==> forall|k: int| !square_side(x@.len() as int, k, 2),
        r matches Some((n, a)) ==> square_side(x@.len() as int, n as int, 2) && a@ == x@,
{
    match side(x.len()) {
        Some(n) => Some((n, copy_vec(x))),
        None => None,
    }
}

/// Flatten a row-major n-by-n matrix into the ambient vector.
pub fn pack<T>(n: usize, a: Vec<T>) -> (r: Vec<T>)
    requires
        a@.len() == n * n,
    ensures
        r@ == a@,
{
    a
}

impl SkewSymmetric {
    /// `Ok` when `dim` is `n^2` for some `n >= 2`, otherwise `Err(dim)`.
    pub fn required_dim(&self, dim: usize) -> (r: Result<(), usize>)
        ensures
            r is Ok <==> exists|k: int| square_side(dim as int, k, 2),
            r is Err ==> r == Err::<(), usize>(dim),
            r == square_verdict(dim, 2),
    {
        if side(dim).is_some() {
            Ok(())
        } else {
            Err(dim)
        }
    }
}

} // verus!
