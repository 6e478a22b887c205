//! Method selector and the small closed choices that steer a session.

use vstd::prelude::*;

use crate::nlcg::Conjugacy;

verus! {

/// How a Newton step uses the caller Hessian.
#[derive(Clone, Copy, Debug, PartialEq, Eq, Structural)]
pub enum NewtonKind {
    /// Shifted (regularized) Newton.
    Shifted,
    /// Banerjee / Baker rational function optimization.
    Rfo,
}

/// FIRE variant.
#[derive(Clone, Copy, Debug, PartialEq, Eq, Structural)]
pub enum FireKind {
    /// FIRE (Bitzek 2006).
    V1,
    /// FIRE 2.0 (Guénolé 2020).
    V2,
}

/// How an L-BFGS session uses a caller Hessian (eOn `lbfgs_step`).
#[derive(Clone, Copy, Debug, PartialEq, Eq, Structural)]
pub enum QnStep {
    /// Two-loop recursion; a supplied Hessian is the preconditioner.
    TwoLoop,
    /// Regularized Newton on the caller Hessian.
    Newton,
    /// Banerjee RFO on the caller Hessian.
    Rfo,
}

/// How a session takes a proposed step (eOn `lbfgs_accept`).
#[derive(Clone, Copy, Debug, PartialEq, Eq, Structural)]
pub enum Accept {
    /// Always take the maxmove-clipped step.
    Always,
    /// Refuse an energy rise.
    Energy,
    /// Grippo window of the last accepted values.
    Nonmonotone,
}

/// The minimization method. Adam and particle swarm run with their
/// default hyperparameters.
#[derive(Debug, PartialEq, Eq)]
pub enum Method {
    /// Nonlinear CG with the given conjugacy and the default restart.
    Nlcg {
        /// Conjugacy coefficient.
        conjugacy: Conjugacy,
    },
    /// Dense inverse-BFGS.
    Bfgs,
    /// Limited-memory BFGS with `memory` correction pairs.
    Lbfgs {
        /// Correction pairs kept.
        memory: usize,
    },
    /// Inverse SR1.
    Sr1,
    /// Adam.
    Adam,
    /// Steepest descent.
    Steepest,
    /// SR2 Hessian update.
    Sr2,
    /// Particle swarm.
    Pso,
    /// Newton-type step on a caller Hessian.
    Newton {
        /// Which Newton step.
        kind: NewtonKind,
    },
    /// FIRE inertial relaxation.
    Fire {
        /// Which FIRE.
        kind: FireKind,
    },
    /// Barzilai-Borwein spectral steepest descent.
    Bb,
    /// Powell dogleg on a caller Hessian.
    Dogleg,
}

} // verus!
