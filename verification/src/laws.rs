//! Laws of the library's decisions, stated over their inputs and results
//! rather than through the spec functions the decisions are written with.

use vstd::prelude::*;

use crate::entry::{
    header_of, lowest_eigenpair_verdict, minimize_eindir_verdict, minimize_hess_verdict,
    minimize_scg_verdict, minimize_verdict, refusal_status, solver_step_verdict, EntryRefusal,
    StepCallbacks,
};
use crate::error::Error;
use crate::ffi::{
    conjugacy_of_code, error_status, rgmin_eigen_kind_t, rgmin_status_t, tensor_refusal_status, conjugacy_tag_code, eigen_kind_of_code, manifold_of, method_of,
    rgmin_conjugacy_t, rgmin_manifold_t, rgmin_method_t, tensor_check, TensorHeader,
    TensorRefusal,
};
use crate::manifold::centered::CenterMode;
use crate::manifold::kind::{kind_dim_verdict, ManifoldKind};
use crate::manifold::square::square_side;
use crate::method::{Method, NewtonKind, QnStep};
use crate::nlcg::Conjugacy;
use crate::session::{
    hess_route_of, memory_kind_of, pair_cap_of, pairs_after_first_order, pairs_after_hessian,
    session_wf, step_route_of, HessRoute, MemoryKind, SessionModel, StepRoute,
};

verus! {

/// A borrowed tensor is accepted exactly when it is a non-null, rank-1,
/// 64-bit single-lane float tensor on the CPU (`kDLCPU` is 1, `kDLFloat`
/// is 2) with shape and data, a positive length and no stride other than
/// one; the accepted length is its shape.
pub proof fn lemma_accepted_tensor_is_a_cpu_f64_vector(h: TensorHeader)
    ensures
        tensor_check(Some(h)) is Ok <==> (h.device_type == 1 && h.ndim == 1 && h.dtype_code == 2
            && h.dtype_bits == 64 && h.dtype_lanes == 1 && !h.data_null && h.shape0 is Some && (
        h.shape0.unwrap() as usize) > 0 && (h.stride0 is None || h.stride0 == Some(1i64))),
        tensor_check(Some(h)) is Ok ==> tensor_check(Some(h)) == Ok::<usize, TensorRefusal>(
            h.shape0.unwrap() as usize,
        ),
        tensor_check(None) == Err::<usize, TensorRefusal>(TensorRefusal::Null),
        h.device_type != 1 ==> tensor_check(Some(h)) == Err::<usize, TensorRefusal>(
            TensorRefusal::Device(h.device_type),
        ),
{
}

/// Lengths accepted by the geometries that take any length, a fixed
/// length, or a rigid cluster: any length for the ambient, sphere and
/// `St(n,1)` geometries; 9 for SO(3) and 12 for SE(3), which name that
/// length when they refuse; `3N` with `N >= 2` for the rigid quotients,
/// which name the refused length; at least 2 for the simplex, which
/// names 2.
pub proof fn lemma_fixed_geometry_lengths(len: usize)
    ensures
        kind_dim_verdict(ManifoldKind::Euclidean, len) is Ok,
        kind_dim_verdict(ManifoldKind::Sphere, len) is Ok,
        kind_dim_verdict(ManifoldKind::Stiefel, len) is Ok,
        kind_dim_verdict(ManifoldKind::So3, len) == (if len == 9 {
            Ok::<(), usize>(())
        } else {
            Err(9)
        }),
        kind_dim_verdict(ManifoldKind::Se3, len) == (if len == 12 {
            Ok::<(), usize>(())
        } else {
            Err(12)
        }),
        kind_dim_verdict(ManifoldKind::RigidQuotient, len) == (if len >= 6 && len % 3 == 0 {
            Ok::<(), usize>(())
        } else {
            Err(len)
        }),
        kind_dim_verdict(ManifoldKind::MwRigid, len) == (if len >= 6 && len % 3 == 0 {
            Ok::<(), usize>(())
        } else {
            Err(len)
        }),
        kind_dim_verdict(ManifoldKind::Multinomial, len) == (if len >= 2 {
            Ok::<(), usize>(())
        } else {
            Err(2)
        }),
{
}

/// The `a x b` matrix geometries accept exactly their packed length
/// `a * b` on legal shapes, and otherwise name that length: the oblique
/// product needs columns of length at least 2; a Stiefel frame with
/// `b >= 2` and a Grassmann subspace with `b >= 1` need `b <= a`;
/// centered matrices need both sides positive; the doubly stochastic and
/// symmetric doubly stochastic `a x a` need `a >= 2`.
pub proof fn lemma_matrix_geometry_lengths(a: usize, b: usize, len: usize)
    requires
        a * b <= usize::MAX,
        a * a <= usize::MAX,
    ensures
        kind_dim_verdict(ManifoldKind::Oblique { n: a, m: b }, len) == (if a >= 2 && b >= 1 && len
            == a * b {
            Ok::<(), usize>(())
        } else {
            Err((a * b) as usize)
        }),
        kind_dim_verdict(ManifoldKind::StiefelP { n: a, p: b }, len) == (if a >= b && b >= 2 && len
            == a * b {
            Ok::<(), usize>(())
        } else {
            Err((a * b) as usize)
        }),
        kind_dim_verdict(ManifoldKind::Grassmann { n: a, p: b }, len) == (if a >= b && b >= 1 && len
            == a * b {
            Ok::<(), usize>(())
        } else {
            Err((a * b) as usize)
        }),
        kind_dim_verdict(
            ManifoldKind::CenteredMatrix { m: a, n: b, mode: CenterMode::Cols },
            len,
        ) == (if a >= 1 && b >= 1 && len == a * b {
            Ok::<(), usize>(())
        } else {
            Err((a * b) as usize)
        }),
        kind_dim_verdict(
            ManifoldKind::CenteredMatrix { m: a, n: b, mode: CenterMode::Rows },
            len,
        ) == (if a >= 1 && b >= 1 && len == a * b {
            Ok::<(), usize>(())
        } else {
            Err((a * b) as usize)
        }),
        kind_dim_verdict(ManifoldKind::MultinomialDoublyStochastic { n: a }, len) == (if a >= 2
            && len == a * a {
            Ok::<(), usize>(())
        } else {
            Err((a * a) as usize)
        }),
        kind_dim_verdict(ManifoldKind::MultinomialSymmetric { n: a }, len) == (if a >= 2 && len
            == a * a {
            Ok::<(), usize>(())
        } else {
            Err((a * a) as usize)
        }),
{
}

/// The square geometries accept exactly the squares of a side at least
/// 1 (symmetric, SPD) or 2 (skew-symmetric), and name the refused length.
pub proof fn lemma_square_geometry_lengths(len: usize)
    ensures
        kind_dim_verdict(ManifoldKind::Symmetric, len) == (if exists|j: int|
            #[trigger] square_side(len as int, j, 1) {
            Ok::<(), usize>(())
        } else {
            Err(len)
        }),
        kind_dim_verdict(ManifoldKind::Spd, len) == (if exists|j: int|
            #[trigger] square_side(len as int, j, 1) {
            Ok::<(), usize>(())
        } else {
            Err(len)
        }),
        kind_dim_verdict(ManifoldKind::SkewSymmetric, len) == (if exists|j: int|
            #[trigger] square_side(len as int, j, 2) {
            Ok::<(), usize>(())
        } else {
            Err(len)
        }),
        kind_dim_verdict(ManifoldKind::Symmetric, len) is Ok ==> len >= 1,
        kind_dim_verdict(ManifoldKind::SkewSymmetric, len) is Ok ==> len >= 4,
{
    if kind_dim_verdict(ManifoldKind::Symmetric, len) is Ok {
        let j = choose|j: int| square_side(len as int, j, 1);
        assert(j * j >= 1) by (nonlinear_arith)
            requires
                j >= 1,
        ;
    }
    if kind_dim_verdict(ManifoldKind::SkewSymmetric, len) is Ok {
        let j = choose|j: int| square_side(len as int, j, 2);
        assert(j * j >= 4) by (nonlinear_arith)
            requires
                j >= 2,
        ;
    }
}

/// The complex geometries on `n` entries accept exactly `2 n` with
/// `n >= 1`; a singleton or positive orthant of length `n` accepts
/// exactly `n` with `n >= 1`; the unitary group `U(n)` accepts exactly
/// `2 n^2` with `n >= 1`. Each names its packed length when it refuses.
pub proof fn lemma_sized_geometry_lengths(c: usize, len: usize)
    requires
        2 * (c * c) <= usize::MAX,
        2 * c <= usize::MAX,
    ensures
        kind_dim_verdict(ManifoldKind::ComplexCircle { n: c }, len) == (if c >= 1 && len == 2 * c {
            Ok::<(), usize>(())
        } else {
            Err((2 * c) as usize)
        }),
        kind_dim_verdict(ManifoldKind::EuclideanComplex { n: c }, len) == (if c >= 1 && len == 2
            * c {
            Ok::<(), usize>(())
        } else {
            Err((2 * c) as usize)
        }),
        kind_dim_verdict(ManifoldKind::SphereComplex { n: c }, len) == (if c >= 1 && len == 2 * c {
            Ok::<(), usize>(())
        } else {
            Err((2 * c) as usize)
        }),
        kind_dim_verdict(ManifoldKind::Constant { n: c }, len) == (if c >= 1 && len == c {
            Ok::<(), usize>(())
        } else {
            Err(c)
        }),
        kind_dim_verdict(ManifoldKind::Positive { n: c }, len) == (if c >= 1 && len == c {
            Ok::<(), usize>(())
        } else {
            Err(c)
        }),
        kind_dim_verdict(ManifoldKind::Unitary { n: c }, len) == (if c >= 1 && len == 2 * (c
            * c) {
            Ok::<(), usize>(())
        } else {
            Err((2 * (c * c)) as usize)
        }),
{
    assert(c * 2 == 2 * c) by (nonlinear_arith);
}

/// Each method's session carries the state of the same name; the Newton
/// and FIRE variants are carried through. Distinct methods (up to their
/// parameters) carry distinct states.
pub proof fn lemma_memory_kind_names(m: Method, other: Method)
    ensures
        m is Lbfgs <==> memory_kind_of(m) is Lbfgs,
        m is Nlcg <==> memory_kind_of(m) is Nlcg,
        m is Bfgs <==> memory_kind_of(m) is Bfgs,
        m is Sr1 <==> memory_kind_of(m) is Sr1,
        m is Sr2 <==> memory_kind_of(m) is Sr2,
        m is Adam <==> memory_kind_of(m) is Adam,
        m is Steepest <==> memory_kind_of(m) is Steepest,
        m is Pso <==> memory_kind_of(m) is Pso,
        m is Bb <==> memory_kind_of(m) is Bb,
        m is Dogleg <==> memory_kind_of(m) is Dogleg,
        m matches Method::Newton { kind } ==> memory_kind_of(m) == MemoryKind::Newton(kind),
        m matches Method::Fire { kind } ==> memory_kind_of(m) == MemoryKind::Fire(kind),
        memory_kind_of(m) == memory_kind_of(other) && !(m is Lbfgs) && !(m is Nlcg) ==> m
            == other,
{
}

/// A session for a Newton method runs that Newton step under the Hessian
/// verb, whatever its L-BFGS step rule, and refuses the first-order verb.
/// An L-BFGS session runs the Newton step its rule names, or the
/// preconditioned two-loop. A dogleg session runs the dogleg and refuses
/// the first-order verb. Every other session ignores the Hessian; of
/// those the swarm runs a generation and the rest update their own state.
pub proof fn lemma_routes_by_state(k: MemoryKind, qn: QnStep, kind: NewtonKind)
    ensures
        hess_route_of(memory_kind_of(Method::Newton { kind }), qn) == HessRoute::Newton(kind),
        k matches MemoryKind::Newton(nk) ==> hess_route_of(k, qn) == HessRoute::Newton(nk)
            && step_route_of(k) == StepRoute::NeedHessian,
        k is Lbfgs ==> hess_route_of(k, QnStep::Newton) == HessRoute::Newton(NewtonKind::Shifted)
            && hess_route_of(k, QnStep::Rfo) == HessRoute::Newton(NewtonKind::Rfo)
            && hess_route_of(k, QnStep::TwoLoop) == HessRoute::Preconditioned,
        k is Dogleg ==> hess_route_of(k, qn) == HessRoute::Dogleg && step_route_of(k)
            == StepRoute::NeedHessian,
        !(k is Newton || k is Lbfgs || k is Dogleg) ==> hess_route_of(k, qn)
            == HessRoute::FirstOrder,
        k is Pso ==> step_route_of(k) == StepRoute::Swarm,
        !(k is Newton || k is Dogleg || k is Pso) ==> step_route_of(k) == StepRoute::Update(k),
{
}

/// Distinct C method tags decode to distinct methods, for any L-BFGS
/// memory; L-BFGS memory 0 means 10 pairs and any other memory is kept.
pub proof fn lemma_method_tags_are_distinct(a: rgmin_method_t, b: rgmin_method_t, memory: usize)
    ensures
        method_of(a, memory) == method_of(b, memory) ==> a == b,
        method_of(rgmin_method_t::RGMIN_LBFGS, memory) == (Method::Lbfgs {
            memory: if memory == 0 {
                10
            } else {
                memory
            },
        }),
{
}

/// Each NLCG method tag selects the same conjugacy as the conjugacy code
/// of the same name, so the two C enumerations agree.
pub proof fn lemma_nlcg_tags_agree_with_conjugacy_codes(memory: usize)
    ensures
        method_of(rgmin_method_t::RGMIN_FLETCHER_REEVES, memory) == (Method::Nlcg {
            conjugacy: conjugacy_of_code(
                conjugacy_tag_code(rgmin_conjugacy_t::RGMIN_CONJUGACY_FLETCHER_REEVES),
            ).unwrap(),
        }),
        method_of(rgmin_method_t::RGMIN_POLAK_RIBIERE, memory) == (Method::Nlcg {
            conjugacy: conjugacy_of_code(
                conjugacy_tag_code(rgmin_conjugacy_t::RGMIN_CONJUGACY_POLAK_RIBIERE),
            ).unwrap(),
        }),
        method_of(rgmin_method_t::RGMIN_HESTENES_STIEFEL, memory) == (Method::Nlcg {
            conjugacy: conjugacy_of_code(
                conjugacy_tag_code(rgmin_conjugacy_t::RGMIN_CONJUGACY_HESTENES_STIEFEL),
            ).unwrap(),
        }),
        method_of(rgmin_method_t::RGMIN_DAI_YUAN, memory) == (Method::Nlcg {
            conjugacy: conjugacy_of_code(
                conjugacy_tag_code(rgmin_conjugacy_t::RGMIN_CONJUGACY_DAI_YUAN),
            ).unwrap(),
        }),
        method_of(rgmin_method_t::RGMIN_CONJUGATE_DESCENT, memory) == (Method::Nlcg {
            conjugacy: conjugacy_of_code(
                conjugacy_tag_code(rgmin_conjugacy_t::RGMIN_CONJUGACY_CONJUGATE_DESCENT),
            ).unwrap(),
        }),
        method_of(rgmin_method_t::RGMIN_HAGER_ZHANG, memory) == (Method::Nlcg {
            conjugacy: conjugacy_of_code(
                conjugacy_tag_code(rgmin_conjugacy_t::RGMIN_CONJUGACY_HAGER_ZHANG),
            ).unwrap(),
        }),
        method_of(rgmin_method_t::RGMIN_LIU_STOREY, memory) == (Method::Nlcg {
            conjugacy: conjugacy_of_code(
                conjugacy_tag_code(rgmin_conjugacy_t::RGMIN_CONJUGACY_LIU_STOREY),
            ).unwrap(),
        }),
        method_of(rgmin_method_t::RGMIN_FR_PR, memory) == (Method::Nlcg {
            conjugacy: conjugacy_of_code(
                conjugacy_tag_code(rgmin_conjugacy_t::RGMIN_CONJUGACY_FR_PR),
            ).unwrap(),
        }),
{
}

/// Conjugacy codes `0..=7` decode, and only those; distinct codes decode
/// to distinct leaves.
pub proof fn lemma_conjugacy_codes_are_distinct(a: i32, b: i32)
    ensures
        conjugacy_of_code(a) is Some <==> 0 <= a < 8,
        conjugacy_of_code(a) is Some && conjugacy_of_code(a) == conjugacy_of_code(b) ==> a == b,
        conjugacy_of_code(a) matches Some(c) ==> !(c is Hybrid),
{
}

/// Distinct C manifold tokens select distinct geometries.
pub proof fn lemma_manifold_tokens_are_distinct(a: rgmin_manifold_t, b: rgmin_manifold_t)
    ensures
        manifold_of(a) == manifold_of(b) ==> a == b,
{
}

/// An eigensolver kind is decoded from the low byte of the field: bytes
/// `0..=13` decode, to distinct kinds, and nothing else does.
pub proof fn lemma_eigen_kind_codes(a: i32, b: i32)
    ensures
        eigen_kind_of_code(a) is Some <==> (a as u8) < 14,
        eigen_kind_of_code(a) is Some && eigen_kind_of_code(a) == eigen_kind_of_code(b) ==> (a as u8)
            == (b as u8),
{
}

/// What an entry reads of a borrowed iterate is the header itself.
pub proof fn lemma_header_of(h: TensorHeader)
    ensures
        header_of(Some(&h)) == Some(h),
        header_of(None) == None::<TensorHeader>,
{
}

/// `rgmin_minimize` runs exactly when both callbacks, the control block
/// and the report are present, the method is first-order (not Newton, RFO
/// or dogleg) and the iterate is an accepted tensor, whose length it
/// runs with. A missing value callback is reported first, then a missing
/// gradient; a refused iterate is reported with the tensor's own reason
/// once everything before it passed.
pub proof fn lemma_minimize_entry(
    eval: bool,
    grad: bool,
    method: rgmin_method_t,
    ctrl: bool,
    out: bool,
    x: Option<&TensorHeader>,
)
    ensures
        minimize_verdict(eval, grad, method, ctrl, out, x) is Ok <==> (eval && grad && method
            != rgmin_method_t::RGMIN_NEWTON && method != rgmin_method_t::RGMIN_RFO && method
            != rgmin_method_t::RGMIN_DOGLEG && ctrl && out && tensor_check(header_of(x)) is Ok),
        minimize_verdict(eval, grad, method, ctrl, out, x) is Ok ==> minimize_verdict(
            eval,
            grad,
            method,
            ctrl,
            out,
            x,
        ).unwrap() == tensor_check(header_of(x)).unwrap(),
        !eval ==> minimize_verdict(eval, grad, method, ctrl, out, x) == Err::<usize, EntryRefusal>(
            EntryRefusal::NullEval,
        ),
        eval && !grad ==> minimize_verdict(eval, grad, method, ctrl, out, x) == Err::<
            usize,
            EntryRefusal,
        >(EntryRefusal::NullGrad),
        (eval && grad && ctrl && out && (method == rgmin_method_t::RGMIN_NEWTON || method
            == rgmin_method_t::RGMIN_RFO || method == rgmin_method_t::RGMIN_DOGLEG))
            ==> minimize_verdict(eval, grad, method, ctrl, out, x) == Err::<usize, EntryRefusal>(
            EntryRefusal::NeedsHessianEntry,
        ),
        (eval && grad && !method_needs_hessian_tag(method) && ctrl && out) ==> (tensor_check(
            header_of(x),
        ) matches Err(t) ==> minimize_verdict(eval, grad, method, ctrl, out, x) == Err::<
            usize,
            EntryRefusal,
        >(EntryRefusal::Tensor(t))),
{
}

/// The tags the first-order entry sends to the Hessian entry.
pub open spec fn method_needs_hessian_tag(m: rgmin_method_t) -> bool {
    m == rgmin_method_t::RGMIN_NEWTON || m == rgmin_method_t::RGMIN_RFO || m
        == rgmin_method_t::RGMIN_DOGLEG
}

/// `rgmin_minimize_scg` runs exactly when both callbacks, the control
/// block and the report are present, the iterate is accepted and the
/// parameter block, if any, names a leaf conjugacy; it runs with the
/// iterate's length and that conjugacy (Polak-Ribiere without a block).
/// The iterate is checked before the block's conjugacy.
pub proof fn lemma_minimize_scg_entry(
    eval: bool,
    grad: bool,
    ctrl: bool,
    out: bool,
    x: Option<&TensorHeader>,
    params: Option<i32>,
)
    ensures
        minimize_scg_verdict(eval, grad, ctrl, out, x, params) is Ok <==> (eval && grad && ctrl
            && out && tensor_check(header_of(x)) is Ok && (params matches Some(raw) ==> 0 <= raw
            < 8)),
        minimize_scg_verdict(eval, grad, ctrl, out, x, params) is Ok ==> minimize_scg_verdict(
            eval,
            grad,
            ctrl,
            out,
            x,
            params,
        ).unwrap().0 == tensor_check(header_of(x)).unwrap(),
        minimize_scg_verdict(eval, grad, ctrl, out, x, None) is Ok ==> minimize_scg_verdict(
            eval,
            grad,
            ctrl,
            out,
            x,
            None,
        ).unwrap().1 == Conjugacy::PolakRibiere,
        (params is Some && minimize_scg_verdict(eval, grad, ctrl, out, x, params) is Ok) ==> Some(
            minimize_scg_verdict(eval, grad, ctrl, out, x, params).unwrap().1,
        ) == conjugacy_of_code(params.unwrap()),
        (eval && grad && ctrl && out && tensor_check(header_of(x)) is Err) ==> minimize_scg_verdict(
            eval,
            grad,
            ctrl,
            out,
            x,
            params,
        ) == Err::<(usize, Conjugacy), EntryRefusal>(
            EntryRefusal::Tensor(tensor_check(header_of(x)).unwrap_err()),
        ),
        (eval && grad && ctrl && out && tensor_check(header_of(x)) is Ok && params is Some && !(0
            <= params.unwrap() < 8)) ==> minimize_scg_verdict(eval, grad, ctrl, out, x, params) == Err::<
            (usize, Conjugacy),
            EntryRefusal,
        >(EntryRefusal::UnknownConjugacy(params.unwrap())),
{
}

/// `rgmin_minimize_hess` runs exactly when all three callbacks, the
/// control block and the report are present and the iterate is accepted,
/// with the iterate's length; a missing Hessian is reported after the
/// value and gradient callbacks.
pub proof fn lemma_minimize_hess_entry(
    eval: bool,
    grad: bool,
    hess: bool,
    ctrl: bool,
    out: bool,
    x: Option<&TensorHeader>,
)
    ensures
        minimize_hess_verdict(eval, grad, hess, ctrl, out, x) is Ok <==> (eval && grad && hess
            && ctrl && out && tensor_check(header_of(x)) is Ok),
        minimize_hess_verdict(eval, grad, hess, ctrl, out, x) is Ok ==> minimize_hess_verdict(
            eval,
            grad,
            hess,
            ctrl,
            out,
            x,
        ).unwrap() == tensor_check(header_of(x)).unwrap(),
        (eval && grad && !hess) ==> minimize_hess_verdict(eval, grad, hess, ctrl, out, x) == Err::<
            usize,
            EntryRefusal,
        >(EntryRefusal::NullHess),
{
}

/// `rgmin_minimize_eindir` runs exactly when every pointer is present,
/// the stamp is compatible, the objective has a gradient and the iterate
/// is accepted with the objective's dimension; a length mismatch names
/// both lengths. The stamp is refused before the iterate is read.
pub proof fn lemma_minimize_eindir_entry(
    pointers: bool,
    stamp: bool,
    has_grad: bool,
    x: Option<&TensorHeader>,
    dim: usize,
)
    ensures
        minimize_eindir_verdict(pointers, stamp, has_grad, x, dim) is Ok <==> (pointers && stamp
            && has_grad && tensor_check(header_of(x)) == Ok::<usize, TensorRefusal>(dim)),
        minimize_eindir_verdict(pointers, stamp, has_grad, x, dim) is Ok ==> minimize_eindir_verdict(
            pointers,
            stamp,
            has_grad,
            x,
            dim,
        ).unwrap() == dim,
        (pointers && !stamp) ==> minimize_eindir_verdict(pointers, stamp, has_grad, x, dim)
            == Err::<usize, EntryRefusal>(EntryRefusal::IncompatibleStamp),
        (pointers && stamp && has_grad && tensor_check(header_of(x)) is Ok && tensor_check(
            header_of(x),
        ).unwrap() != dim) ==> minimize_eindir_verdict(pointers, stamp, has_grad, x, dim) == Err::<
            usize,
            EntryRefusal,
        >(EntryRefusal::DimMismatch { got: tensor_check(header_of(x)).unwrap(), dim }),
{
}

/// Every callback a step entry needs is present.
pub open spec fn callbacks_present(c: StepCallbacks) -> bool {
    match c {
        StepCallbacks::Split { eval, grad } => eval && grad,
        StepCallbacks::SplitHess { eval, grad, hess } => eval && grad && hess,
        StepCallbacks::Fused { evalgrad } => evalgrad,
        StepCallbacks::FusedHess { evalgrad, hess } => evalgrad && hess,
    }
}

/// A session step runs exactly when the session, every callback of its
/// entry and the report are present and the iterate is accepted, with
/// the iterate's length; a null session is reported before anything else.
pub proof fn lemma_solver_step_entry(
    solver: bool,
    callbacks: StepCallbacks,
    out: bool,
    x: Option<&TensorHeader>,
)
    ensures
        solver_step_verdict(solver, callbacks, out, x) is Ok <==> (solver && callbacks_present(
            callbacks,
        ) && out && tensor_check(header_of(x)) is Ok),
        solver_step_verdict(solver, callbacks, out, x) is Ok ==> solver_step_verdict(
            solver,
            callbacks,
            out,
            x,
        ).unwrap() == tensor_check(header_of(x)).unwrap(),
        !solver ==> solver_step_verdict(solver, callbacks, out, x) == Err::<usize, EntryRefusal>(
            EntryRefusal::NullSolver,
        ),
{
}

/// `rgmin_lowest_eigenpair` runs exactly when the callback and report are
/// present, the point, seed and output tensors are accepted with one
/// common length, and the parameter block, if any, names a kind; it runs
/// with that length and kind (Lanczos without a block).
pub proof fn lemma_lowest_eigenpair_entry(
    hvp: bool,
    out: bool,
    x: Option<&TensorHeader>,
    seed: Option<&TensorHeader>,
    mode_out: Option<&TensorHeader>,
    kind: Option<i32>,
)
    ensures
        lowest_eigenpair_verdict(hvp, out, x, seed, mode_out, kind) is Ok <==> (hvp && out
            && tensor_check(header_of(x)) is Ok && tensor_check(header_of(seed)) == tensor_check(
            header_of(x),
        ) && tensor_check(header_of(mode_out)) == tensor_check(header_of(x)) && (kind matches Some(
            raw,
        ) ==> (raw as u8) < 14)),
        lowest_eigenpair_verdict(hvp, out, x, seed, mode_out, kind) is Ok ==> lowest_eigenpair_verdict(
            hvp,
            out,
            x,
            seed,
            mode_out,
            kind,
        ).unwrap().0 == tensor_check(header_of(x)).unwrap(),
        lowest_eigenpair_verdict(hvp, out, x, seed, mode_out, None) is Ok
            ==> lowest_eigenpair_verdict(hvp, out, x, seed, mode_out, None).unwrap().1
            == rgmin_eigen_kind_t::RGMIN_EIGEN_LANCZOS,
        (kind is Some && lowest_eigenpair_verdict(hvp, out, x, seed, mode_out, kind) is Ok) ==> Some(
            lowest_eigenpair_verdict(hvp, out, x, seed, mode_out, kind).unwrap().1,
        ) == eigen_kind_of_code(kind.unwrap()),
        !hvp ==> lowest_eigenpair_verdict(hvp, out, x, seed, mode_out, kind) == Err::<
            (usize, rgmin_eigen_kind_t),
            EntryRefusal,
        >(EntryRefusal::NullHvp),
{
}

/// A library error reaches C as an internal error exactly for a failed
/// host oracle, as unavailable exactly for an unlinked eigensolver, and
/// as an invalid parameter otherwise; never as success. A refused tensor
/// is an unsupported device exactly when it lives off the CPU.
pub proof fn lemma_statuses(e: Error, t: TensorRefusal)
    ensures
        error_status(e) == rgmin_status_t::RGMIN_INTERNAL_ERROR <==> e is Oracle,
        error_status(e) == rgmin_status_t::RGMIN_UNAVAILABLE <==> e is EigenUnavailable,
        error_status(e) == rgmin_status_t::RGMIN_INVALID_PARAMETER <==> !(e is Oracle
            || e is EigenUnavailable),
        tensor_refusal_status(t) == rgmin_status_t::RGMIN_UNSUPPORTED_DEVICE <==> t is Device,
        tensor_refusal_status(t) == rgmin_status_t::RGMIN_INVALID_PARAMETER <==> !(t is Device),
        refusal_status(EntryRefusal::Tensor(t)) == tensor_refusal_status(t),
        refusal_status(EntryRefusal::SeedTensor(t)) == tensor_refusal_status(t),
        refusal_status(EntryRefusal::ModeTensor(t)) == tensor_refusal_status(t),
{
}

/// An L-BFGS session keeps as many correction pairs as its memory, at
/// least one; other sessions keep none beyond a nominal one.
pub proof fn lemma_pair_caps(memory: usize, m: Method)
    ensures
        pair_cap_of(Method::Lbfgs { memory }) == (if memory == 0 {
            1
        } else {
            memory as nat
        }),
        !(m is Lbfgs) ==> pair_cap_of(m) == 1,
{
}

/// Pairs after a step, counted directly. A Hessian step that moved with
/// an admitted pair adds one unless the memory is full; otherwise nothing
/// changes. A first-order step first adds the update's own pair (unless
/// full); if it moved it then drops the newest pair and adds the
/// Riemannian pair only when admitted. Only L-BFGS sessions change.
pub proof fn lemma_pair_counts(s: SessionModel, inner_pushed: bool, moved: bool, admitted: bool)
    requires
        session_wf(s),
    ensures
        s.memory != MemoryKind::Lbfgs ==> pairs_after_hessian(s, moved, admitted) == s.pairs
            && pairs_after_first_order(s, inner_pushed, moved, admitted) == s.pairs,
        s.memory == MemoryKind::Lbfgs ==> pairs_after_hessian(s, moved, admitted) == (if moved
            && admitted && s.pairs < s.pair_cap {
            s.pairs + 1int
        } else {
            s.pairs as int
        }),
        s.memory == MemoryKind::Lbfgs && !moved ==> pairs_after_first_order(
            s,
            inner_pushed,
            moved,
            admitted,
        ) == (if inner_pushed && s.pairs < s.pair_cap {
            s.pairs + 1int
        } else {
            s.pairs as int
        }),
        s.memory == MemoryKind::Lbfgs && moved ==> pairs_after_first_order(
            s,
            inner_pushed,
            moved,
            admitted,
        ) == (if inner_pushed && s.pairs < s.pair_cap {
            s.pairs + 1int
        } else {
            s.pairs as int
        }) - (if (inner_pushed || s.pairs > 0) && !admitted {
            1int
        } else if !(inner_pushed || s.pairs > 0) && admitted {
            -1int
        } else {
            0int
        }),
{
}

} // verus!
