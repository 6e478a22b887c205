//! Hyperboloid model of \(H^{n-1}\), manopt `hyperbolicfactory`. A point
//! is a length-`n` vector (`n >= 2`): the time-like coordinate, then the
//! space-like tail. Not the unit sphere and not a 3N cluster packing.

use vstd::prelude::*;

use super::packing::copy_vec;

verus! {

/// Hyperboloid \(H^{n-1}\) in the ambient Lorentz metric.
#[derive(Clone, Copy, Debug, Default)]
pub struct Hyperbolic;

impl Hyperbolic {
    /// `Ok` for `dim >= 2`, otherwise `Err(2)`.
    pub fn required_dim(&self, dim: usize) -> (r: Result<(), usize>)
        ensures
            r is Ok <==> dim >= 2,
            r is Err ==> r == Err::<(), usize>(2),
    {
        if dim >= 2 {
            Ok(())
        } else {
            Err(2)
        }
    }
}

/// Time-like component and space-like tail of a packed point. An empty
/// vector gives `(zero, [])`.
pub fn unpack<T: Copy>(x: &Vec<T>, zero: T) -> (r: (T, Vec<T>))
    ensures
        x@.len() == 0 ==> r.0 == zero && r.1@.len() == 0,
        x@.len() > 0 ==> r.0 == x@[0] && r.1@ == x@.subrange(1, x@.len() as int),
{
    if x.len() == 0 {
        return (zero, Vec::new());
    }
    let mut tail: Vec<T> = Vec::new();
    let mut k: usize = 1;
    while k < x.len()
        invariant
            1 <= k <= x@.len(),
            tail@ == x@.subrange(1, k as int),
        decreases x@.len() - k,
    {
        tail.push(x[k]);
        k = k + 1;
        assert(tail@ =~= x@.subrange(1, k as int));
    }
    (x[0], tail)
}

/// Pack a time-like scalar in front of a space-like vector.
pub fn pack<T: Copy>(time: T, space: &Vec<T>) -> (r: Vec<T>)
    ensures
        r@ == seq![time] + space@,
{
    let mut y: Vec<T> = Vec::new();
    y.push(time);
    let mut k: usize = 0;
    while k < space.len()
        invariant
            k <= space@.len(),
            y@ == seq![time] + space@.subrange(0, k as int),
        decreases space@.len() - k,
    {
        y.push(space[k]);
        k = k + 1;
        assert(y@ =~= seq![time] + space@.subrange(0, k as int));
    }
    assert(space@.subrange(0, space@.len() as int) =~= space@);
    y
}

/// Unpacking a packed point gives back its time and space parts.
pub proof fn lemma_pack_unpack<T>(time: T, space: Seq<T>)
    ensures
        (seq![time] + space)[0] == time,
        (seq![time] + space).subrange(1, space.len() as int + 1) == space,
{
    assert((seq![time] + space).subrange(1, space.len() as int + 1) =~= space);
}

} // verus!
