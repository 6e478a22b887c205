//! The shared verdict of the packed-length checks.

use vstd::prelude::*;

verus! {

/// `a * b` when it fits in a `usize`.
pub open spec fn product_len(a: usize, b: usize) -> Option<usize> {
    if a * b <= usize::MAX {
        Some((a * b) as usize)
    } else {
        None
    }
}

/// Verdict on a working length `dim` for a geometry whose packed length
/// is `want` (`None` when it overflows) and whose parameters are
/// `legal`: `Ok` on a match, otherwise the length the geometry wants
/// (or `dim` itself when no length can be named).
pub open spec fn dim_verdict(want: Option<usize>, legal: bool, dim: usize) -> Result<(), usize> {
    match want {
        Some(w) => if legal && dim == w {
            Ok(())
        } else {
            Err(w)
        },
        None => Err(dim),
    }
}

/// Executable form of [`dim_verdict`].
pub fn dim_check(want: Option<usize>, legal: bool, dim: usize) -> (r: Result<(), usize>)
    ensures
        r == dim_verdict(want, legal, dim),
{
    match want {
        Some(w) => if legal && dim == w {
            Ok(())
        } else {
            Err(w)
        },
        None => Err(dim),
    }
}

} // verus!
