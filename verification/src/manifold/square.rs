//! Integer square roots and the side lengths of square packings.

use vstd::prelude::*;

verus! {

/// `r * r <= x < (r + 1) * (r + 1)`.
pub open spec fn is_isqrt(x: int, r: int) -> bool {
    0 <= r && r * r <= x && x < (r + 1) * (r + 1)
}

proof fn lemma_square_monotone(a: int, b: int)
    by (nonlinear_arith)
    requires
        0 <= a <= b,
    ensures
        a * a <= b * b,
{
}

proof fn lemma_square_strict(a: int, b: int)
    by (nonlinear_arith)
    requires
        0 <= a < b,
    ensures
        a * a < b * b,
{
}

/// An integer square root pins every other candidate: `k * k == x` only
/// for `k == r`.
pub proof fn lemma_isqrt_unique(x: int, r: int, k: int)
    requires
        is_isqrt(x, r),
        0 <= k,
        k * k == x,
    ensures
        k == r,
{
    if k < r {
        lemma_square_strict(k, r);
    } else if k > r {
        lemma_square_monotone(r + 1, k);
    }
}

/// A square has one non-negative root: the side of a packed square is
/// determined by its length.
pub proof fn lemma_square_root_unique(a: int, b: int)
    requires
        0 <= a,
        0 <= b,
        a * a == b * b,
    ensures
        a == b,
{
    if a < b {
        lemma_square_strict(a, b);
    } else if b < a {
        lemma_square_strict(b, a);
    }
}

/// Floor of the square root of `x`.
pub fn isqrt(x: usize) -> (r: usize)
    ensures
        is_isqrt(x as int, r as int),
{
    let xx = x as u128;
    let mut lo: u128 = 0;
    let mut hi: u128 = xx + 1;
    proof {
        assert(0 * 0 <= xx as int) by (nonlinear_arith);
        assert((xx as int) < (xx as int + 1) * (xx as int + 1)) by (nonlinear_arith)
            requires xx as int >= 0;
    }
    while hi - lo > 1
        invariant
            lo < hi,
            hi <= xx + 1,
            xx == x as u128,
            x <= usize::MAX,
            lo * lo <= xx,
            xx < hi * hi,
        decreases hi - lo,
    {
        let mid = lo + (hi - lo) / 2;
        assert(mid < hi);
        assert(mid * mid <= u128::MAX) by (nonlinear_arith)
            requires mid < hi, hi <= xx + 1, xx <= usize::MAX as u128, usize::MAX <= u64::MAX;
        if mid * mid <= xx {
            lo = mid;
        } else {
            hi = mid;
        }
    }
    assert(lo <= xx) by (nonlinear_arith)
        requires lo * lo <= xx;
    assert(hi == lo + 1);
    lo as usize
}

/// `n` is the side of a packed square of length `len` with `n >= lo`.
pub open spec fn square_side(len: int, n: int, lo: int) -> bool {
    n >= lo && n * n == len
}

/// `isqrt` result of `len`, checked against `n * n == len` and `n >= lo`.
fn checked_side(len: usize, lo: usize) -> (r: Option<usize>)
    ensures
        r matches Some(n) ==> square_side(len as int, n as int, lo as int),
        r is None ==> forall|k: int| !square_side(len as int, k, lo as int),
{
    let n = isqrt(len);
    if n >= lo && n * n == len {
        Some(n)
    } else {
        proof {
            assert forall|k: int| !square_side(len as int, k, lo as int) by {
                if square_side(len as int, k, lo as int) {
                    lemma_isqrt_unique(len as int, n as int, k);
                }
            }
        }
        None
    }
}

/// Side of a real square packing (`len = n^2`, `n >= lo`).
pub fn square_side_at_least(len: usize, lo: usize) -> (r: Option<usize>)
    ensures
        r matches Some(n) ==> square_side(len as int, n as int, lo as int),
        r is None <==> forall|k: int| !square_side(len as int, k, lo as int),
{
    checked_side(len, lo)
}

/// Verdict on a square packing `n x n` with side at least `lo`: `Ok`, or
/// the length itself when it is no such square.
pub open spec fn square_verdict(len: usize, lo: int) -> Result<(), usize> {
    if exists|k: int| square_side(len as int, k, lo) {
        Ok(())
    } else {
        Err(len)
    }
}

} // verus!
