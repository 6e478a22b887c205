//! Choices of the persistent L-BFGS.

use vstd::prelude::*;

verus! {

/// How L-BFGS compares the gradient to its tolerance.
#[derive(Clone, Copy, Debug, PartialEq, Eq, Structural)]
pub enum GradNorm {
    /// Euclidean `||g||_2`.
    Euclidean,
    /// Infinity `||g||_inf`. Matches SciPy L-BFGS-B and hopping polish.
    Infinity,
}

} // verus!
