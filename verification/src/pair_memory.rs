//! The curvature memory of the persistent L-BFGS: a bounded history of
//! correction pairs that survives between relaxations. The newest pairs
//! are kept, in the order they were recorded.

use vstd::prelude::*;

verus! {

/// The last `cap` entries of `s` (all of `s` when it is shorter).
pub open spec fn keep_newest<P>(s: Seq<P>, cap: int) -> Seq<P> {
    if s.len() > cap {
        s.subrange(s.len() - cap, s.len() as int)
    } else {
        s
    }
}

/// The capacity a memory actually enforces: at least one pair.
pub open spec fn effective_cap(max_pairs: usize) -> usize {
    if max_pairs >= 1 {
        max_pairs
    } else {
        1
    }
}

/// Two-loop visiting order over `m` stored pairs with `extra` replays
/// of the newest.
pub open spec fn replay_indices(m: nat, extra: nat) -> Seq<usize> {
    Seq::new(m, |k: int| k as usize) + if m > 0 {
        Seq::new(extra, |k: int| (m - 1) as usize)
    } else {
        Seq::empty()
    }
}

/// A bounded, oldest-first history of correction pairs.
#[derive(Debug)]
pub struct PairMemory<P> {
    pairs: Vec<P>,
    max_pairs: usize,
}

impl<P> View for PairMemory<P> {
    type V = Seq<P>;

    closed spec fn view(&self) -> Seq<P> {
        self.pairs@
    }
}

impl<P> PairMemory<P> {
    /// Pairs retained.
    pub closed spec fn cap(&self) -> usize {
        self.max_pairs
    }

    /// Pairs retained; the usual choice is between five and ten.
    pub fn max_pairs(&self) -> (r: usize)
        ensures
            r == self.cap(),
    {
        self.max_pairs
    }

    /// Change the pairs retained. A smaller value takes effect at the
    /// next [`PairMemory::trim`] or [`PairMemory::push`].
    pub fn set_max_pairs(&mut self, max_pairs: usize)
        ensures
            final(self).cap() == max_pairs,
            final(self)@ == old(self)@,
    {
        self.max_pairs = max_pairs;
    }

    /// Empty memory with room for `max_pairs` pairs (at least one).
    pub fn with_capacity(max_pairs: usize) -> (r: Self)
        ensures
            r@ == Seq::<P>::empty(),
            r.cap() == effective_cap(max_pairs),
    {
        PairMemory { pairs: Vec::new(), max_pairs: if max_pairs >= 1 {
            max_pairs
        } else {
            1
        } }
    }

    /// Discards the stored curvature.
    pub fn forget(&mut self)
        ensures
            final(self)@ == Seq::<P>::empty(),
            final(self).cap() == old(self).cap(),
    {
        self.pairs.clear();
    }

    /// Pairs currently held.
    pub fn len(&self) -> (r: usize)
        ensures
            r == self@.len(),
    {
        self.pairs.len()
    }

    /// True when no curvature is stored.
    pub fn is_empty(&self) -> (r: bool)
        ensures
            r <==> self@.len() == 0,
    {
        self.pairs.len() == 0
    }

    /// Drops the oldest pairs until at most `max_pairs` (at least one)
    /// remain.
    pub fn trim(&mut self)
        ensures
            final(self).cap() == effective_cap(old(self).cap()),
            final(self)@ == keep_newest(old(self)@, effective_cap(old(self).cap()) as int),
    {
        let cap = if self.max_pairs >= 1 {
            self.max_pairs
        } else {
            1
        };
        self.max_pairs = cap;
        let ghost start = self.pairs@;
        let ghost mut dropped: int = 0;
        while self.pairs.len() > cap
            invariant
                0 <= dropped <= start.len(),
                self.pairs@ == start.subrange(dropped, start.len() as int),
                self.max_pairs == cap,
                cap >= 1,
                dropped > 0 ==> start.len() - dropped >= cap,
            decreases self.pairs@.len(),
        {
            self.pairs.remove(0);
            proof {
                dropped = dropped + 1;
                assert(self.pairs@ =~= start.subrange(dropped, start.len() as int));
            }
        }
        proof {
            if start.len() > cap {
                assert(dropped == start.len() - cap);
            } else {
                assert(dropped == 0);
                assert(self.pairs@ =~= start);
            }
        }
    }

    /// Record a pair as the newest, then [`PairMemory::trim`].
    pub fn push(&mut self, pair: P)
        ensures
            final(self).cap() == effective_cap(old(self).cap()),
            final(self)@ == keep_newest(
                old(self)@.push(pair),
                effective_cap(old(self).cap()) as int,
            ),
    {
        self.pairs.push(pair);
        self.trim();
    }

    /// Remove and return the newest pair, if any.
    pub fn pop_newest(&mut self) -> (r: Option<P>)
        ensures
            final(self).cap() == old(self).cap(),
            old(self)@.len() == 0 ==> r is None && final(self)@ == old(self)@,
            old(self)@.len() > 0 ==> r == Some(old(self)@.last()) && final(self)@ == old(
                self,
            )@.drop_last(),
    {
        self.pairs.pop()
    }

    /// Drop the newest pair, if any, then record `pair` as the newest
    /// when the curvature test `admitted` it (used after a retraction
    /// moves the last accepted point). A refused pair leaves the memory
    /// one pair shorter.
    pub fn replace_newest(&mut self, pair: P, admitted: bool)
        ensures
            final(self).cap() == (if admitted {
                effective_cap(old(self).cap())
            } else {
                old(self).cap()
            }),
            ({
                let popped = if old(self)@.len() > 0 {
                    old(self)@.drop_last()
                } else {
                    old(self)@
                };
                final(self)@ == if admitted {
                    keep_newest(popped.push(pair), effective_cap(old(self).cap()) as int)
                } else {
                    popped
                }
            }),
    {
        let _ = self.pop_newest();
        if admitted {
            self.push(pair);
        }
    }

    /// Order in which the two-loop recursion visits the pairs: every
    /// pair oldest first, then the newest pair `extra_updates` more times
    /// (Al-Baali extra updates). Empty memory replays nothing.
    pub fn replay_order(&self, extra_updates: usize) -> (r: Vec<usize>)
        requires
            self@.len() + extra_updates <= usize::MAX,
        ensures
            r@ == replay_indices(self@.len(), extra_updates as nat),
    {
        let m = self.pairs.len();
        let mut idxs: Vec<usize> = Vec::new();
        let mut i: usize = 0;
        while i < m
            invariant
                m == self@.len(),
                i <= m,
                idxs@ == Seq::new(i as nat, |k: int| k as usize),
            decreases m - i,
        {
            idxs.push(i);
            i = i + 1;
            assert(idxs@ =~= Seq::new(i as nat, |k: int| k as usize));
        }
        if m > 0 {
            let mut e: usize = 0;
            while e < extra_updates
                invariant
                    m == self@.len(),
                    m > 0,
                    e <= extra_updates,
                    idxs@ == Seq::new(m as nat, |k: int| k as usize) + Seq::new(
                        e as nat,
                        |k: int| (m - 1) as usize,
                    ),
                decreases extra_updates - e,
            {
                idxs.push(m - 1);
                e = e + 1;
                assert(idxs@ =~= Seq::new(m as nat, |k: int| k as usize) + Seq::new(
                    e as nat,
                    |k: int| (m - 1) as usize,
                ));
            }
        } else {
            assert(idxs@ =~= Seq::new(0, |k: int| k as usize) + Seq::<usize>::empty());
        }
        idxs
    }

    /// The stored pairs, oldest first.
    pub fn pairs(&self) -> (r: &Vec<P>)
        ensures
            r@ == self@,
    {
        &self.pairs
    }
}

/// After a push the memory holds at most its capacity, the pushed pair
/// is the newest, and the pairs it keeps are the newest ones in the
/// order they were recorded.
pub proof fn lemma_push_keeps_newest<P>(old_pairs: Seq<P>, pair: P, cap: int, i: int)
    requires
        cap >= 1,
    ensures
        keep_newest(old_pairs.push(pair), cap).len() == if old_pairs.len() + 1 <= cap {
            old_pairs.len() + 1
        } else {
            cap as nat
        },
        keep_newest(old_pairs.push(pair), cap).last() == pair,
        0 <= i < keep_newest(old_pairs.push(pair), cap).len() - 1 ==> keep_newest(
            old_pairs.push(pair),
            cap,
        )[i] == old_pairs[old_pairs.len() + 1 - keep_newest(old_pairs.push(pair), cap).len() + i],
{
}

/// The two-loop replay order only ever names a stored pair, and it
/// visits every stored pair once before replaying the newest.
pub proof fn lemma_replay_in_bounds(m: nat, extra: nat, k: int)
    requires
        m <= usize::MAX,
        0 <= k < replay_indices(m, extra).len(),
    ensures
        replay_indices(m, extra)[k] < m,
        k < m ==> replay_indices(m, extra)[k] == k,
        k >= m ==> replay_indices(m, extra)[k] == m - 1,
{
}

/// Trimming twice is trimming once.
pub proof fn lemma_keep_newest_idempotent<P>(s: Seq<P>, cap: int)
    requires
        cap >= 1,
    ensures
        keep_newest(keep_newest(s, cap), cap) == keep_newest(s, cap),
{
}

} // verus!
