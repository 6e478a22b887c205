//! Symmetric positive definite matrices with the affine-invariant
//! metric, manopt `sympositivedefinitefactory`. An `n x n` point is
//! packed row-major as length `n^2`. A 3N cluster is not this packing:
//! the length must be a positive square.

use vstd::prelude::*;

use super::packing::copy_vec;
use super::square::{square_side, square_side_at_least, square_verdict};

verus! {

/// Affine-invariant SPD cone. Packed row-major, length `n^2`.
#[derive(Clone, Copy, Debug, Default)]
pub struct Spd;

/// Side length if `len` is a positive perfect square.
pub fn side(len: usize) -> (r: Option<usize>)
    ensures
        r matches Some(n) ==> square_side(len as int, n as int, 1),
        r is None <==> forall|k: int| !square_side(len as int, k, 1),
{
    matrix_order(len)
}

fn matrix_order(len: usize) -> (r: Option<usize>)
    ensures
        r matches Some(n) ==> square_side(len as int, n as int, 1),
        r is None <==> forall|k: int| !square_side(len as int, k, 1),
{
    if len == 0 {
        proof {
            assert forall|k: int| !square_side(len as int, k, 1) by {
                if k >= 1 {
                    assert(k * k >= 1) by (nonlinear_arith)
                        requires k >= 1;
                }
            }
        }
        return None;
    }
    square_side_at_least(len, 1)
}

/// Split a length-`n^2` ambient vector into `(n, row-major entries)`.
pub fn unpack<T: Copy>(x: &Vec<T>) -> (r: Option<(usize, Vec<T>)>)
    ensures
        r is None <==> forall|k: int| !square_side(x@.len() as int, k, 1),
        r matches Some((n, a)) ==> square_side(x@.len() as int, n as int, 1) && a@ == x@,
{
    match matrix_order(x.len()) {
        Some(n) => Some((n, copy_vec(x))),
        None => None,
    }
}

/// Flatten a row-major n-by-n matrix into the ambient vector.
pub fn pack<T>(n: usize, a: Vec<T>) -> (r: Vec<T>)
    requires
        a@.len() == n * n,
    ensures
        r@ == a@,
{
    a
}

impl Spd {
    /// `Ok` when `dim` is `n^2` for some `n >= 1`, otherwise `Err(dim)`.
    pub fn required_dim(&self, dim: usize) -> (r: Result<(), usize>)
        ensures
            r is Ok <==> exists|k: int| square_side(dim as int, k, 1),
            r is Err ==> r == Err::<(), usize>(dim),
            r == square_verdict(dim, 1),
    {
        if side(dim).is_some() {
            Ok(())
        } else {
            Err(dim)
        }
    }
}

} // verus!
