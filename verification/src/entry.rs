//! Argument checks of the C entry points, in the order each entry makes
//! them. The host shim reads each pointer only far enough to say whether
//! it is null (and, for the iterate, to fill a [`TensorHeader`]); what
//! is refused, and with which status, is decided here.

#![allow(non_camel_case_types)]

use vstd::prelude::*;

use crate::ffi::{
    check_tensor, conjugacy_from_c, conjugacy_of_code, eigen_kind_from_c, eigen_kind_of_code,
    rgmin_eigen_kind_t, method_needs_hessian, rgmin_method_t,
    rgmin_status_t, tensor_check, tensor_refusal_status, TensorHeader, TensorRefusal,
};
use crate::nlcg::Conjugacy;

verus! {

/// Why an entry point refused its arguments before doing any work.
#[derive(Clone, Copy, Debug, PartialEq, Eq, Structural)]
pub enum EntryRefusal {
    /// The session handle is null.
    NullSolver,
    /// The value callback is null.
    NullEval,
    /// The gradient callback is null.
    NullGrad,
    /// The Hessian callback is null.
    NullHess,
    /// The fused value-and-gradient callback is null.
    NullEvalGrad,
    /// The control block or the report slot is null.
    NullCtrlOrOut,
    /// The report slot is null.
    NullOut,
    /// One of the objective, stamp, control or report pointers is null.
    NullArgument,
    /// Newton / RFO / dogleg asked of the first-order entry.
    NeedsHessianEntry,
    /// The SCG parameter block names no known conjugacy.
    UnknownConjugacy(i32),
    /// The producer's ABI stamp is not compatible with this build.
    IncompatibleStamp,
    /// The objective has no analytic gradient.
    NoGradient,
    /// The iterate's length differs from the objective's dimension.
    DimMismatch {
        /// Length of the iterate.
        got: usize,
        /// Dimension the objective declares.
        dim: usize,
    },
    /// The iterate tensor was refused.
    Tensor(TensorRefusal),
    /// The Hessian-vector callback is null.
    NullHvp,
    /// The seed tensor was refused.
    SeedTensor(TensorRefusal),
    /// The output mode tensor was refused.
    ModeTensor(TensorRefusal),
    /// The point, seed and output tensors differ in length.
    LengthMismatch,
    /// The eigensolver parameter block names no known kind.
    UnknownEigenKind(i32),
}

/// The status an entry returns for a refusal: the tensor's own status,
/// otherwise an invalid parameter.
pub open spec fn refusal_status(r: EntryRefusal) -> rgmin_status_t {
    match r {
        EntryRefusal::Tensor(t) => tensor_refusal_status(t),
        EntryRefusal::SeedTensor(t) => tensor_refusal_status(t),
        EntryRefusal::ModeTensor(t) => tensor_refusal_status(t),
        _ => rgmin_status_t::RGMIN_INVALID_PARAMETER,
    }
}

impl EntryRefusal {
    /// The C status for this refusal.
    pub fn status(&self) -> (r: rgmin_status_t)
        ensures
            r == refusal_status(*self),
    {
        match self {
            EntryRefusal::Tensor(t) => t.status(),
            EntryRefusal::SeedTensor(t) => t.status(),
            EntryRefusal::ModeTensor(t) => t.status(),
            _ => rgmin_status_t::RGMIN_INVALID_PARAMETER,
        }
    }
}

/// The header behind an optional borrow.
pub open spec fn header_of(x: Option<&TensorHeader>) -> Option<TensorHeader> {
    match x {
        Some(h) => Some(*h),
        None => None,
    }
}

/// The iterate's verdict, as an entry refusal.
pub open spec fn iterate_verdict(x: Option<&TensorHeader>) -> Result<usize, EntryRefusal> {
    match tensor_check(header_of(x)) {
        Ok(n) => Ok(n),
        Err(t) => Err(EntryRefusal::Tensor(t)),
    }
}

fn iterate_len(x: Option<&TensorHeader>) -> (r: Result<usize, EntryRefusal>)
    ensures
        r == iterate_verdict(x),
{
    match check_tensor(x) {
        Ok(n) => Ok(n),
        Err(t) => Err(EntryRefusal::Tensor(t)),
    }
}

/// `rgmin_minimize`: value and gradient callbacks, a first-order method,
/// control and report, then the iterate.
pub open spec fn minimize_verdict(
    eval: bool,
    grad: bool,
    method: rgmin_method_t,
    ctrl: bool,
    out: bool,
    x: Option<&TensorHeader>,
) -> Result<usize, EntryRefusal> {
    if !eval {
        Err(EntryRefusal::NullEval)
    } else if !grad {
        Err(EntryRefusal::NullGrad)
    } else if method == rgmin_method_t::RGMIN_NEWTON || method == rgmin_method_t::RGMIN_RFO
        || method == rgmin_method_t::RGMIN_DOGLEG {
        Err(EntryRefusal::NeedsHessianEntry)
    } else if !ctrl || !out {
        Err(EntryRefusal::NullCtrlOrOut)
    } else {
        iterate_verdict(x)
    }
}

/// Checks of `rgmin_minimize`. Each flag says the pointer is non-null;
/// `Ok` carries the iterate's length.
pub fn minimize_preflight(
    eval: bool,
    grad: bool,
    method: rgmin_method_t,
    ctrl: bool,
    out: bool,
    x: Option<&TensorHeader>,
) -> (r: Result<usize, EntryRefusal>)
    ensures
        r == minimize_verdict(eval, grad, method, ctrl, out, x),
{
    if !eval {
        return Err(EntryRefusal::NullEval);
    }
    if !grad {
        return Err(EntryRefusal::NullGrad);
    }
    if method_needs_hessian(method) {
        return Err(EntryRefusal::NeedsHessianEntry);
    }
    if !ctrl || !out {
        return Err(EntryRefusal::NullCtrlOrOut);
    }
    iterate_len(x)
}

/// The conjugacy an SCG parameter block selects: Polak-Ribiere when
/// there is no block.
pub open spec fn scg_conjugacy(params: Option<i32>) -> Result<Conjugacy, EntryRefusal> {
    match params {
        None => Ok(Conjugacy::PolakRibiere),
        Some(raw) => match conjugacy_of_code(raw) {
            Some(c) => Ok(c),
            None => Err(EntryRefusal::UnknownConjugacy(raw)),
        },
    }
}

/// `rgmin_minimize_scg`: callbacks, control and report, the iterate,
/// then the conjugacy code of the parameter block (`None` when null).
pub open spec fn minimize_scg_verdict(
    eval: bool,
    grad: bool,
    ctrl: bool,
    out: bool,
    x: Option<&TensorHeader>,
    params: Option<i32>,
) -> Result<(usize, Conjugacy), EntryRefusal> {
    if !eval {
        Err(EntryRefusal::NullEval)
    } else if !grad {
        Err(EntryRefusal::NullGrad)
    } else if !ctrl || !out {
        Err(EntryRefusal::NullCtrlOrOut)
    } else {
        match iterate_verdict(x) {
            Err(e) => Err(e),
            Ok(n) => match scg_conjugacy(params) {
                Err(e) => Err(e),
                Ok(c) => Ok((n, c)),
            },
        }
    }
}

/// Checks of `rgmin_minimize_scg`. `Ok` carries the iterate's length
/// and the conjugacy to run with.
pub fn minimize_scg_preflight(
    eval: bool,
    grad: bool,
    ctrl: bool,
    out: bool,
    x: Option<&TensorHeader>,
    params: Option<i32>,
) -> (r: Result<(usize, Conjugacy), EntryRefusal>)
    ensures
        r == minimize_scg_verdict(eval, grad, ctrl, out, x, params),
{
    if !eval {
        return Err(EntryRefusal::NullEval);
    }
    if !grad {
        return Err(EntryRefusal::NullGrad);
    }
    if !ctrl || !out {
        return Err(EntryRefusal::NullCtrlOrOut);
    }
    let n = match iterate_len(x) {
        Ok(n) => n,
        Err(e) => return Err(e),
    };
    let c = match params {
        None => Conjugacy::PolakRibiere,
        Some(raw) => match conjugacy_from_c(raw) {
            Ok(c) => c,
            Err(_) => return Err(EntryRefusal::UnknownConjugacy(raw)),
        },
    };
    Ok((n, c))
}

/// `rgmin_minimize_hess`: value, gradient and Hessian callbacks, control
/// and report, then the iterate.
pub open spec fn minimize_hess_verdict(
    eval: bool,
    grad: bool,
    hess: bool,
    ctrl: bool,
    out: bool,
    x: Option<&TensorHeader>,
) -> Result<usize, EntryRefusal> {
    if !eval {
        Err(EntryRefusal::NullEval)
    } else if !grad {
        Err(EntryRefusal::NullGrad)
    } else if !hess {
        Err(EntryRefusal::NullHess)
    } else if !ctrl || !out {
        Err(EntryRefusal::NullCtrlOrOut)
    } else {
        iterate_verdict(x)
    }
}

/// Checks of `rgmin_minimize_hess`.
pub fn minimize_hess_preflight(
    eval: bool,
    grad: bool,
    hess: bool,
    ctrl: bool,
    out: bool,
    x: Option<&TensorHeader>,
) -> (r: Result<usize, EntryRefusal>)
    ensures
        r == minimize_hess_verdict(eval, grad, hess, ctrl, out, x),
{
    if !eval {
        return Err(EntryRefusal::NullEval);
    }
    if !grad {
        return Err(EntryRefusal::NullGrad);
    }
    if !hess {
        return Err(EntryRefusal::NullHess);
    }
    if !ctrl || !out {
        return Err(EntryRefusal::NullCtrlOrOut);
    }
    iterate_len(x)
}

/// `rgmin_minimize_eindir`: every pointer, the producer's stamp, the
/// objective's gradient, the iterate, then its length against the
/// objective's dimension.
pub open spec fn minimize_eindir_verdict(
    pointers: bool,
    stamp_compatible: bool,
    has_grad: bool,
    x: Option<&TensorHeader>,
    objective_dim: usize,
) -> Result<usize, EntryRefusal> {
    if !pointers {
        Err(EntryRefusal::NullArgument)
    } else if !stamp_compatible {
        Err(EntryRefusal::IncompatibleStamp)
    } else if !has_grad {
        Err(EntryRefusal::NoGradient)
    } else {
        match iterate_verdict(x) {
            Err(e) => Err(e),
            Ok(n) => if n != objective_dim {
                Err(EntryRefusal::DimMismatch { got: n, dim: objective_dim })
            } else {
                Ok(n)
            },
        }
    }
}

/// Checks of `rgmin_minimize_eindir`. `pointers` says that the objective,
/// stamp, control and report are all non-null; `stamp_compatible` and
/// `has_grad` are the producer library's answers.
pub fn minimize_eindir_preflight(
    pointers: bool,
    stamp_compatible: bool,
    has_grad: bool,
    x: Option<&TensorHeader>,
    objective_dim: usize,
) -> (r: Result<usize, EntryRefusal>)
    ensures
        r == minimize_eindir_verdict(pointers, stamp_compatible, has_grad, x, objective_dim),
{
    if !pointers {
        return Err(EntryRefusal::NullArgument);
    }
    if !stamp_compatible {
        return Err(EntryRefusal::IncompatibleStamp);
    }
    if !has_grad {
        return Err(EntryRefusal::NoGradient);
    }
    let n = match iterate_len(x) {
        Ok(n) => n,
        Err(e) => return Err(e),
    };
    if n != objective_dim {
        return Err(EntryRefusal::DimMismatch { got: n, dim: objective_dim });
    }
    Ok(n)
}

/// `rgmin_lowest_eigenpair`: the Hessian-vector callback, the report,
/// the point, seed and output tensors in turn, their lengths, then the
/// kind of the parameter block (`None` when it is null: Lanczos).
pub open spec fn lowest_eigenpair_verdict(
    hvp: bool,
    out: bool,
    x: Option<&TensorHeader>,
    seed: Option<&TensorHeader>,
    mode_out: Option<&TensorHeader>,
    kind: Option<i32>,
) -> Result<(usize, rgmin_eigen_kind_t), EntryRefusal> {
    if !hvp {
        Err(EntryRefusal::NullHvp)
    } else if !out {
        Err(EntryRefusal::NullOut)
    } else {
        match tensor_check(header_of(x)) {
            Err(t) => Err(EntryRefusal::Tensor(t)),
            Ok(n) => match tensor_check(header_of(seed)) {
                Err(t) => Err(EntryRefusal::SeedTensor(t)),
                Ok(ns) => match tensor_check(header_of(mode_out)) {
                    Err(t) => Err(EntryRefusal::ModeTensor(t)),
                    Ok(nm) => if n != ns || n != nm {
                        Err(EntryRefusal::LengthMismatch)
                    } else {
                        match kind {
                            None => Ok((n, rgmin_eigen_kind_t::RGMIN_EIGEN_LANCZOS)),
                            Some(raw) => match eigen_kind_of_code(raw) {
                                Some(k) => Ok((n, k)),
                                None => Err(EntryRefusal::UnknownEigenKind(raw)),
                            },
                        }
                    },
                },
            },
        }
    }
}

/// Checks of `rgmin_lowest_eigenpair`. `Ok` carries the common length
/// and the eigensolver kind to run.
pub fn lowest_eigenpair_preflight(
    hvp: bool,
    out: bool,
    x: Option<&TensorHeader>,
    seed: Option<&TensorHeader>,
    mode_out: Option<&TensorHeader>,
    kind: Option<i32>,
) -> (r: Result<(usize, rgmin_eigen_kind_t), EntryRefusal>)
    ensures
        r == lowest_eigenpair_verdict(hvp, out, x, seed, mode_out, kind),
{
    if !hvp {
        return Err(EntryRefusal::NullHvp);
    }
    if !out {
        return Err(EntryRefusal::NullOut);
    }
    let n = match check_tensor(x) {
        Ok(n) => n,
        Err(t) => return Err(EntryRefusal::Tensor(t)),
    };
    let ns = match check_tensor(seed) {
        Ok(n) => n,
        Err(t) => return Err(EntryRefusal::SeedTensor(t)),
    };
    let nm = match check_tensor(mode_out) {
        Ok(n) => n,
        Err(t) => return Err(EntryRefusal::ModeTensor(t)),
    };
    if n != ns || n != nm {
        return Err(EntryRefusal::LengthMismatch);
    }
    match kind {
        None => Ok((n, rgmin_eigen_kind_t::RGMIN_EIGEN_LANCZOS)),
        Some(raw) => match eigen_kind_from_c(raw) {
            Some(k) => Ok((n, k)),
            None => Err(EntryRefusal::UnknownEigenKind(raw)),
        },
    }
}

/// How a session step is driven: separate value and gradient callbacks,
/// or one fused callback; with or without a Hessian.
#[derive(Clone, Copy, Debug, PartialEq, Eq, Structural)]
pub enum StepCallbacks {
    /// `rgmin_solver_step`.
    Split { eval: bool, grad: bool },
    /// `rgmin_solver_step_hess`.
    SplitHess { eval: bool, grad: bool, hess: bool },
    /// `rgmin_solver_step_fg`.
    Fused { evalgrad: bool },
    /// `rgmin_solver_step_hess_fg`.
    FusedHess { evalgrad: bool, hess: bool },
}

/// The first absent callback, in the order the step entry checks them.
pub open spec fn missing_callback(c: StepCallbacks) -> Option<EntryRefusal> {
    match c {
        StepCallbacks::Split { eval, grad } => if !eval {
            Some(EntryRefusal::NullEval)
        } else if !grad {
            Some(EntryRefusal::NullGrad)
        } else {
            None
        },
        StepCallbacks::SplitHess { eval, grad, hess } => if !eval {
            Some(EntryRefusal::NullEval)
        } else if !grad {
            Some(EntryRefusal::NullGrad)
        } else if !hess {
            Some(EntryRefusal::NullHess)
        } else {
            None
        },
        StepCallbacks::Fused { evalgrad } => if !evalgrad {
            Some(EntryRefusal::NullEvalGrad)
        } else {
            None
        },
        StepCallbacks::FusedHess { evalgrad, hess } => if !evalgrad {
            Some(EntryRefusal::NullEvalGrad)
        } else if !hess {
            Some(EntryRefusal::NullHess)
        } else {
            None
        },
    }
}

/// The four session step entries: session, callbacks, report, iterate.
pub open spec fn solver_step_verdict(
    solver: bool,
    callbacks: StepCallbacks,
    out: bool,
    x: Option<&TensorHeader>,
) -> Result<usize, EntryRefusal> {
    if !solver {
        Err(EntryRefusal::NullSolver)
    } else if missing_callback(callbacks) is Some {
        Err(missing_callback(callbacks).unwrap())
    } else if !out {
        Err(EntryRefusal::NullOut)
    } else {
        iterate_verdict(x)
    }
}

/// Checks of the session step entries.
pub fn solver_step_preflight(
    solver: bool,
    callbacks: StepCallbacks,
    out: bool,
    x: Option<&TensorHeader>,
) -> (r: Result<usize, EntryRefusal>)
    ensures
        r == solver_step_verdict(solver, callbacks, out, x),
{
    if !solver {
        return Err(EntryRefusal::NullSolver);
    }
    let missing = match callbacks {
        StepCallbacks::Split { eval, grad } => if !eval {
            Some(EntryRefusal::NullEval)
        } else if !grad {
            Some(EntryRefusal::NullGrad)
        } else {
            None
        },
        StepCallbacks::SplitHess { eval, grad, hess } => if !eval {
            Some(EntryRefusal::NullEval)
        } else if !grad {
            Some(EntryRefusal::NullGrad)
        } else if !hess {
            Some(EntryRefusal::NullHess)
        } else {
            None
        },
        StepCallbacks::Fused { evalgrad } => if !evalgrad {
            Some(EntryRefusal::NullEvalGrad)
        } else {
            None
        },
        StepCallbacks::FusedHess { evalgrad, hess } => if !evalgrad {
            Some(EntryRefusal::NullEvalGrad)
        } else if !hess {
            Some(EntryRefusal::NullHess)
        } else {
            None
        },
    };
    if let Some(e) = missing {
        return Err(e);
    }
    if !out {
        return Err(EntryRefusal::NullOut);
    }
    iterate_len(x)
}

/// `rgmin_solver_create` hands back a session only with a control block
/// and a positive dimension.
pub fn solver_create_accepts(ctrl: bool, dim: usize) -> (r: bool)
    ensures
        r <==> (ctrl && dim > 0),
{
    ctrl && dim != 0
}

/// An entry that accepts its arguments hands its iterate's length on:
/// a non-empty CPU vector, whatever entry checked it.
pub proof fn lemma_accepted_iterate_is_nonempty_cpu(x: Option<&TensorHeader>)
    requires
        iterate_verdict(x) is Ok,
    ensures
        header_of(x) is Some,
        header_of(x).unwrap().device_type == crate::ffi::DL_DEVICE_CPU,
        iterate_verdict(x).unwrap() > 0,
{
}

/// An iterate on any device but the CPU is refused as an unsupported
/// device, whatever its layout, at every entry that reaches the iterate.
pub proof fn lemma_non_cpu_iterate_is_unsupported(h: TensorHeader)
    requires
        h.device_type != crate::ffi::DL_DEVICE_CPU,
    ensures
        iterate_verdict(Some(&h)) == Err::<usize, EntryRefusal>(
            EntryRefusal::Tensor(TensorRefusal::Device(h.device_type)),
        ),
        refusal_status(EntryRefusal::Tensor(TensorRefusal::Device(h.device_type)))
            == rgmin_status_t::RGMIN_UNSUPPORTED_DEVICE,
        crate::ffi::tensor_verdict(Some(h)) == Err::<usize, rgmin_status_t>(
            rgmin_status_t::RGMIN_UNSUPPORTED_DEVICE,
        ),
{
}

/// Every refusal of a pointer, callback, code or length is an invalid
/// parameter; a tensor's own refusal is an invalid parameter or an
/// unsupported device. No refusal reports success.
pub proof fn lemma_refusal_statuses(r: EntryRefusal, x: Option<&TensorHeader>)
    ensures
        !(r is Tensor || r is SeedTensor || r is ModeTensor) ==> refusal_status(r)
            == rgmin_status_t::RGMIN_INVALID_PARAMETER,
        refusal_status(r) == rgmin_status_t::RGMIN_INVALID_PARAMETER || refusal_status(r)
            == rgmin_status_t::RGMIN_UNSUPPORTED_DEVICE,
        iterate_verdict(x) matches Err(e) ==> (refusal_status(e)
            == rgmin_status_t::RGMIN_INVALID_PARAMETER || refusal_status(e)
            == rgmin_status_t::RGMIN_UNSUPPORTED_DEVICE),
{
}

} // verus!
