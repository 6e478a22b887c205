//! Closed SLEPc spectral-transform tokens. They exist on every build so
//! a host can name the transform whether or not SLEPc is linked.

use vstd::prelude::*;

verus! {

/// Spectral transformation for the SLEPc arm. The ordinals are the
/// public ABI (see [`SlepcStKind::from_ordinal`]).
#[derive(Clone, Copy, Debug, PartialEq, Eq, Hash, Structural)]
pub enum SlepcStKind {
    /// Leave SLEPc's default (`STSHIFT` at 0).
    Default,
    /// `STSHIFT`.
    Shift,
    /// `STSINVERT`. Needs a host Pmat; a MatShell cannot be factored.
    Sinvert,
    /// `STPRECOND`. Uses the host Pmat when one is supplied.
    Precond,
    /// `STCAYLEY`. Needs a host Pmat.
    Cayley,
}

/// The ABI ordinal of each transform.
pub open spec fn st_ordinal(k: SlepcStKind) -> u8 {
    match k {
        SlepcStKind::Default => 0,
        SlepcStKind::Shift => 1,
        SlepcStKind::Sinvert => 2,
        SlepcStKind::Precond => 3,
        SlepcStKind::Cayley => 4,
    }
}

/// The schema / C ABI name of each transform.
pub open spec fn st_name(k: SlepcStKind) -> Seq<char> {
    match k {
        SlepcStKind::Default => "default"@,
        SlepcStKind::Shift => "shift"@,
        SlepcStKind::Sinvert => "sinvert"@,
        SlepcStKind::Precond => "precond"@,
        SlepcStKind::Cayley => "cayley"@,
    }
}

impl SlepcStKind {
    /// Schema / C ABI name. Never a free-form string key.
    pub fn name(self) -> (r: &'static str)
        ensures
            r@ == st_name(self),
    {
        match self {
            SlepcStKind::Default => "default",
            SlepcStKind::Shift => "shift",
            SlepcStKind::Sinvert => "sinvert",
            SlepcStKind::Precond => "precond",
            SlepcStKind::Cayley => "cayley",
        }
    }

    /// Decode a closed ordinal. Unknown integers are `None`.
    pub fn from_ordinal(raw: u8) -> (r: Option<SlepcStKind>)
        ensures
            r matches Some(k) ==> st_ordinal(k) == raw,
            r is None <==> raw > 4,
            forall|k: SlepcStKind| st_ordinal(k) == raw ==> r == Some(k),
    {
        match raw {
            0 => Some(SlepcStKind::Default),
            1 => Some(SlepcStKind::Shift),
            2 => Some(SlepcStKind::Sinvert),
            3 => Some(SlepcStKind::Precond),
            4 => Some(SlepcStKind::Cayley),
            _ => None,
        }
    }

    /// Shift-and-invert and Cayley factor an assembled matrix.
    pub fn needs_pmat(self) -> (r: bool)
        ensures
            r <==> (self == SlepcStKind::Sinvert || self == SlepcStKind::Cayley),
    {
        match self {
            SlepcStKind::Sinvert | SlepcStKind::Cayley => true,
            _ => false,
        }
    }
}

/// Every transform survives the trip through its ABI ordinal, and no two
/// transforms share an ordinal.
pub proof fn lemma_st_ordinal_round_trip(k: SlepcStKind, j: SlepcStKind)
    ensures
        st_ordinal(k) <= 4,
        st_ordinal(k) == st_ordinal(j) ==> k == j,
{
}

} // verus!
