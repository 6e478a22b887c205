//! Nonlinear conjugate-gradient conjugacy choices.

use vstd::prelude::*;

verus! {

/// Conjugacy coefficient \(\beta\) of nonlinear CG. The leaves are in the
/// declaration order of the C enum `rgmin_conjugacy_t`.
#[derive(Debug, PartialEq, Eq)]
pub enum Conjugacy {
    /// Fletcher-Reeves.
    FletcherReeves,
    /// Polak-Ribiere.
    PolakRibiere,
    /// Hestenes-Stiefel.
    HestenesStiefel,
    /// Dai-Yuan.
    DaiYuan,
    /// Fletcher conjugate descent.
    ConjugateDescent,
    /// Hager-Zhang.
    HagerZhang,
    /// Liu-Storey.
    LiuStorey,
    /// Gilbert-Nocedal FR-PR hybrid leaf.
    FrPr,
    /// A combination of two conjugacies, with the flag of the combining
    /// rule.
    Hybrid {
        /// First coefficient.
        first: Box<Conjugacy>,
        /// Second coefficient.
        second: Box<Conjugacy>,
        /// Flag of the combining rule.
        flag: bool,
    },
}

impl Conjugacy {
    /// Combine two conjugacies.
    pub fn hybrid(first: Conjugacy, second: Conjugacy, flag: bool) -> (r: Conjugacy)
        ensures
            r == (Conjugacy::Hybrid { first: Box::new(first), second: Box::new(second), flag }),
    {
        Conjugacy::Hybrid { first: Box::new(first), second: Box::new(second), flag }
    }
}

} // verus!
