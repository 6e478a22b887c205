//! Errors from a minimization.

use vstd::prelude::*;

verus! {

/// Recoverable minimization failure.
#[derive(Clone, Debug, PartialEq, Eq)]
pub enum Error {
    /// Initial point length does not match the objective dimension.
    Dim {
        /// Length of the supplied start vector.
        got: usize,
        /// `Objective::dim`.
        dim: usize,
    },
    /// HiGHS rejected the L-BFGS quadratic model.
    Highs(String),
    /// Newton / RFO / dogleg needs a Hessian oracle.
    NeedHessian,
    /// Packed manifold rejected this ambient dimension.
    ManifoldDim {
        /// Token (`so3`, `se3`, `rigid_quotient`, `mw_rigid`).
        kind: &'static str,
        /// Length of the working vector.
        got: usize,
    },
    /// SCG cannot make progress (non-finite objective everywhere it can
    /// step, or damping at its limit).
    ScgStalled {
        /// What exhausted the algorithm.
        what: &'static str,
    },
    /// The trust region collapsed without an acceptable step.
    TrustCollapsed {
        /// Outer iterations completed when the radius hit its floor.
        steps: usize,
    },
    /// Host oracle returned a non-finite value or gradient.
    Oracle {
        /// What the host callback failed to produce.
        what: &'static str,
    },
    /// Named eigensolver is not linked in this build. Fail closed: the
    /// waist does not silently fall back to Lanczos.
    EigenUnavailable {
        /// Closed-enum name (`elpa`, `primme`, ...).
        kind: &'static str,
    },
    /// Linked SLEPc EPS rejected the typed configuration or the pair.
    Slepc {
        /// What the typed EPS/ST call failed to produce.
        what: &'static str,
    },
}

} // verus!
