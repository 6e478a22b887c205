//! Decisions of the C waist: status codes, the ABI stamp, the closed C
//! enumerations and what they decode to, and the acceptance test of a
//! borrowed DLPack tensor. The pointers themselves stay with the host
//! shim; here every input is a plain value.

#![allow(non_camel_case_types)]

use vstd::prelude::*;

use crate::error::Error;
use crate::manifold::kind::ManifoldKind;
use crate::method::{Accept, FireKind, Method, NewtonKind, QnStep};
use crate::nlcg::Conjugacy;

verus! {

/// Status codes. `RGMIN_SUCCESS` is 0, matching metatensor / eindir.
#[derive(Clone, Copy, Debug, PartialEq, Eq, Structural)]
pub enum rgmin_status_t {
    /// Completed.
    RGMIN_SUCCESS,
    /// Null pointer or inconsistent length.
    RGMIN_INVALID_PARAMETER,
    /// Panic or internal failure behind the C boundary.
    RGMIN_INTERNAL_ERROR,
    /// Tensor is not on a device this build can evaluate.
    RGMIN_UNSUPPORTED_DEVICE,
    /// Named eigensolver is not linked in this build.
    RGMIN_UNAVAILABLE,
}

/// Compatibility identity for the rgmin C ABI.
#[derive(Clone, Copy, Debug, PartialEq, Eq, Structural)]
pub struct rgmin_abi_stamp_t {
    /// Incompatible changes increment this value.
    pub abi_major: u16,
    /// Additive compatible changes increment this value.
    pub abi_minor: u16,
    /// Struct and function-layout revision for this ABI major/minor.
    pub layout_revision: u16,
}

/// ABI major version of this build.
pub const RGMIN_ABI_VERSION_MAJOR: u16 = 1;
/// ABI minor version of this build.
pub const RGMIN_ABI_VERSION_MINOR: u16 = 20;
/// Layout revision of this build.
pub const RGMIN_ABI_LAYOUT_REVISION: u16 = 4;

/// Method tag. A closed C enum; [`Method`] is what it decodes to.
#[derive(Clone, Copy, Debug, PartialEq, Eq, Structural)]
pub enum rgmin_method_t {
    /// Polak-Ribiere NLCG.
    RGMIN_POLAK_RIBIERE,
    /// Fletcher-Reeves NLCG.
    RGMIN_FLETCHER_REEVES,
    /// Dense inverse-BFGS.
    RGMIN_BFGS,
    /// Limited-memory BFGS.
    RGMIN_LBFGS,
    /// Inverse SR1.
    RGMIN_SR1,
    /// Adam.
    RGMIN_ADAM,
    /// Steepest descent.
    RGMIN_STEEPEST,
    /// SR2 Hessian update.
    RGMIN_SR2,
    /// Particle swarm.
    RGMIN_PSO,
    /// Hestenes-Stiefel NLCG.
    RGMIN_HESTENES_STIEFEL,
    /// Dai-Yuan NLCG.
    RGMIN_DAI_YUAN,
    /// Fletcher conjugate-descent NLCG.
    RGMIN_CONJUGATE_DESCENT,
    /// Hager-Zhang NLCG.
    RGMIN_HAGER_ZHANG,
    /// Liu-Storey NLCG.
    RGMIN_LIU_STOREY,
    /// Gilbert-Nocedal FR-PR hybrid NLCG.
    RGMIN_FR_PR,
    /// Shifted Newton on a caller-supplied Hessian.
    RGMIN_NEWTON,
    /// Banerjee / Baker RFO on a caller-supplied Hessian.
    RGMIN_RFO,
    /// FIRE (Bitzek 2006).
    RGMIN_FIRE,
    /// Barzilai-Borwein spectral steepest descent.
    RGMIN_BB,
    /// Powell dogleg on a caller-supplied Hessian.
    RGMIN_DOGLEG,
    /// FIRE 2.0 (Guénolé 2020).
    RGMIN_FIRE2,
}

/// Closed leaf conjugacy, in [`Conjugacy`] declaration order. Not
/// [`rgmin_method_t`] (that enum is the solver axis).
#[derive(Clone, Copy, Debug, PartialEq, Eq, Structural)]
pub enum rgmin_conjugacy_t {
    /// Fletcher-Reeves.
    RGMIN_CONJUGACY_FLETCHER_REEVES,
    /// Polak-Ribiere.
    RGMIN_CONJUGACY_POLAK_RIBIERE,
    /// Hestenes-Stiefel.
    RGMIN_CONJUGACY_HESTENES_STIEFEL,
    /// Dai-Yuan.
    RGMIN_CONJUGACY_DAI_YUAN,
    /// Conjugate descent.
    RGMIN_CONJUGACY_CONJUGATE_DESCENT,
    /// Hager-Zhang.
    RGMIN_CONJUGACY_HAGER_ZHANG,
    /// Liu-Storey.
    RGMIN_CONJUGACY_LIU_STOREY,
    /// FR-PR.
    RGMIN_CONJUGACY_FR_PR,
}

/// Closed eigensolver tag, in `schema/eigen.capnp` order.
#[derive(Clone, Copy, Debug, PartialEq, Eq, Structural)]
pub enum rgmin_eigen_kind_t {
    /// Lanczos.
    RGMIN_EIGEN_LANCZOS,
    /// Rayleigh-Ritz.
    RGMIN_EIGEN_RAYLEIGH_RITZ,
    /// Jacobi-Davidson.
    RGMIN_EIGEN_JACOBI_DAVIDSON,
    /// LOBPCG.
    RGMIN_EIGEN_LOBPCG,
    /// PRIMME.
    RGMIN_EIGEN_PRIMME,
    /// SLEPc EPS.
    RGMIN_EIGEN_SLEPC,
    /// ChASE.
    RGMIN_EIGEN_CHASE,
    /// ELPA one-stage.
    RGMIN_EIGEN_ELPA,
    /// ELPA two-stage.
    RGMIN_EIGEN_ELPA2,
    /// SLATE.
    RGMIN_EIGEN_SLATE,
    /// MAGMA.
    RGMIN_EIGEN_MAGMA,
    /// cuSOLVER.
    RGMIN_EIGEN_CUSOLVER,
    /// DLA-Future.
    RGMIN_EIGEN_DLA_FUTURE,
    /// EigenExa.
    RGMIN_EIGEN_EIGENEXA,
}

/// How an L-BFGS session uses a caller Hessian (eOn `lbfgs_step`).
#[derive(Clone, Copy, Debug, PartialEq, Eq, Structural)]
pub enum rgmin_qn_step_t {
    /// Two-loop. A supplied Hessian is \(H_0 = P^{-1}\).
    RGMIN_QN_LBFGS,
    /// Regularized Newton on the caller Hessian.
    RGMIN_QN_NEWTON,
    /// Banerjee RFO on the caller Hessian.
    RGMIN_QN_RFO,
}

/// How a session takes a proposed step (eOn `lbfgs_accept`).
#[derive(Clone, Copy, Debug, PartialEq, Eq, Structural)]
pub enum rgmin_accept_t {
    /// Take the maxmove-clipped step.
    RGMIN_ACCEPT_NONE,
    /// Refuse an energy rise (up to 10 halvings).
    RGMIN_ACCEPT_ENERGY,
    /// Grippo window of the last five accepted values.
    RGMIN_ACCEPT_NONMONOTONE,
}

/// Embedded manifold token of the C waist.
#[derive(Clone, Copy, Debug, PartialEq, Eq, Structural)]
pub enum rgmin_manifold_t {
    /// Ambient Euclidean.
    RGMIN_MANIFOLD_EUCLIDEAN,
    /// Unit sphere.
    RGMIN_MANIFOLD_SPHERE,
    /// SO(3).
    RGMIN_MANIFOLD_SO3,
    /// Stiefel St(n,1).
    RGMIN_MANIFOLD_STIEFEL,
    /// SE(3).
    RGMIN_MANIFOLD_SE3,
    /// Sella Cartesian \(R^{3N}/\mathrm{SE}(3)\). 3N, N >= 2.
    RGMIN_MANIFOLD_RIGID_QUOTIENT,
    /// Mass-weighted Eckart (Sella IRC / Page-McIver). 3N, N >= 2.
    RGMIN_MANIFOLD_MW_RIGID,
    /// Product of unit spheres. Shape from `rgmin_solver_set_oblique`.
    RGMIN_MANIFOLD_OBLIQUE,
    /// Simplex with the Fisher metric.
    RGMIN_MANIFOLD_MULTINOMIAL,
    /// Product of unit circles, defaults to `n = 1`.
    RGMIN_MANIFOLD_COMPLEX_CIRCLE,
    /// Real symmetric n-by-n.
    RGMIN_MANIFOLD_SYMMETRIC,
    /// Real skew-symmetric n-by-n, n >= 2.
    RGMIN_MANIFOLD_SKEWSYMMETRIC,
    /// Complex Euclidean, defaults to `n = 1`.
    RGMIN_MANIFOLD_EUCLIDEAN_COMPLEX,
    /// Singleton, defaults to `n = 1`.
    RGMIN_MANIFOLD_CONSTANT,
    /// Doubly-stochastic, defaults to `n = 2`.
    RGMIN_MANIFOLD_MULTINOMIAL_DS,
    /// Symmetric doubly-stochastic, defaults to `n = 2`.
    RGMIN_MANIFOLD_MULTINOMIAL_SYM,
    /// Complex unit sphere, defaults to `n = 1`.
    RGMIN_MANIFOLD_SPHERE_COMPLEX,
}

/// The stamp this build reports.
pub open spec fn this_stamp() -> rgmin_abi_stamp_t {
    rgmin_abi_stamp_t {
        abi_major: RGMIN_ABI_VERSION_MAJOR,
        abi_minor: RGMIN_ABI_VERSION_MINOR,
        layout_revision: RGMIN_ABI_LAYOUT_REVISION,
    }
}

/// This build accepts a caller's stamp: same major, same layout; the
/// minor version is additive and does not matter.
pub open spec fn stamp_accepted(s: rgmin_abi_stamp_t) -> bool {
    s.abi_major == RGMIN_ABI_VERSION_MAJOR && s.layout_revision == RGMIN_ABI_LAYOUT_REVISION
}

/// Return the compatibility identity for this C ABI build.
pub fn rgmin_abi_stamp() -> (r: rgmin_abi_stamp_t)
    ensures
        r == this_stamp(),
{
    rgmin_abi_stamp_t {
        abi_major: RGMIN_ABI_VERSION_MAJOR,
        abi_minor: RGMIN_ABI_VERSION_MINOR,
        layout_revision: RGMIN_ABI_LAYOUT_REVISION,
    }
}

/// `1` when a caller's ABI identity is accepted by this build, `0` when
/// it is not or when there is no stamp at all.
pub fn rgmin_abi_compatible(stamp: Option<&rgmin_abi_stamp_t>) -> (r: i32)
    ensures
        r == 1 || r == 0,
        r == 1 <==> (stamp matches Some(s) && stamp_accepted(*s)),
{
    match stamp {
        None => 0,
        Some(s) => if s.abi_major == RGMIN_ABI_VERSION_MAJOR && s.layout_revision
            == RGMIN_ABI_LAYOUT_REVISION {
            1
        } else {
            0
        },
    }
}

/// This build accepts its own stamp, and acceptance never depends on
/// the minor version.
pub proof fn lemma_stamp_acceptance(s: rgmin_abi_stamp_t, minor: u16)
    ensures
        stamp_accepted(this_stamp()),
        stamp_accepted(s) == stamp_accepted(rgmin_abi_stamp_t { abi_minor: minor, ..s }),
{
}

/// The status a library error maps to at the C boundary.
pub open spec fn error_status(e: Error) -> rgmin_status_t {
    match e {
        Error::Oracle { .. } => rgmin_status_t::RGMIN_INTERNAL_ERROR,
        Error::EigenUnavailable { .. } => rgmin_status_t::RGMIN_UNAVAILABLE,
        _ => rgmin_status_t::RGMIN_INVALID_PARAMETER,
    }
}

/// Status for a library error: a failed host oracle is internal, an
/// unlinked eigensolver is unavailable, everything else is a bad
/// parameter. (The host shim records the message as the last error.)
pub fn status_from_error(e: &Error) -> (r: rgmin_status_t)
    ensures
        r == error_status(*e),
        r != rgmin_status_t::RGMIN_SUCCESS,
{
    match e {
        Error::Oracle { .. } => rgmin_status_t::RGMIN_INTERNAL_ERROR,
        Error::EigenUnavailable { .. } => rgmin_status_t::RGMIN_UNAVAILABLE,
        _ => rgmin_status_t::RGMIN_INVALID_PARAMETER,
    }
}

/// The leaf conjugacy with C code `raw`, if any.
pub open spec fn conjugacy_of_code(raw: i32) -> Option<Conjugacy> {
    if raw == 0 {
        Some(Conjugacy::FletcherReeves)
    } else if raw == 1 {
        Some(Conjugacy::PolakRibiere)
    } else if raw == 2 {
        Some(Conjugacy::HestenesStiefel)
    } else if raw == 3 {
        Some(Conjugacy::DaiYuan)
    } else if raw == 4 {
        Some(Conjugacy::ConjugateDescent)
    } else if raw == 5 {
        Some(Conjugacy::HagerZhang)
    } else if raw == 6 {
        Some(Conjugacy::LiuStorey)
    } else if raw == 7 {
        Some(Conjugacy::FrPr)
    } else {
        None
    }
}

/// The eigensolver tag whose ordinal is the low byte of `raw` (the C
/// field is an `i32` read as an ordinal), if any.
pub open spec fn eigen_kind_of_code(raw: i32) -> Option<rgmin_eigen_kind_t> {
    let o = raw as u8;
    if o == 0 {
        Some(rgmin_eigen_kind_t::RGMIN_EIGEN_LANCZOS)
    } else if o == 1 {
        Some(rgmin_eigen_kind_t::RGMIN_EIGEN_RAYLEIGH_RITZ)
    } else if o == 2 {
        Some(rgmin_eigen_kind_t::RGMIN_EIGEN_JACOBI_DAVIDSON)
    } else if o == 3 {
        Some(rgmin_eigen_kind_t::RGMIN_EIGEN_LOBPCG)
    } else if o == 4 {
        Some(rgmin_eigen_kind_t::RGMIN_EIGEN_PRIMME)
    } else if o == 5 {
        Some(rgmin_eigen_kind_t::RGMIN_EIGEN_SLEPC)
    } else if o == 6 {
        Some(rgmin_eigen_kind_t::RGMIN_EIGEN_CHASE)
    } else if o == 7 {
        Some(rgmin_eigen_kind_t::RGMIN_EIGEN_ELPA)
    } else if o == 8 {
        Some(rgmin_eigen_kind_t::RGMIN_EIGEN_ELPA2)
    } else if o == 9 {
        Some(rgmin_eigen_kind_t::RGMIN_EIGEN_SLATE)
    } else if o == 10 {
        Some(rgmin_eigen_kind_t::RGMIN_EIGEN_MAGMA)
    } else if o == 11 {
        Some(rgmin_eigen_kind_t::RGMIN_EIGEN_CUSOLVER)
    } else if o == 12 {
        Some(rgmin_eigen_kind_t::RGMIN_EIGEN_DLA_FUTURE)
    } else if o == 13 {
        Some(rgmin_eigen_kind_t::RGMIN_EIGEN_EIGENEXA)
    } else {
        None
    }
}

/// Decode the `kind` of `rgmin_eigen_params_t`: ordinals `0..=13` in
/// declaration order, read from the low byte of the field.
pub fn eigen_kind_from_c(raw: i32) -> (r: Option<rgmin_eigen_kind_t>)
    ensures
        r == eigen_kind_of_code(raw),
{
    let o = raw as u8;
    if o == 0 {
        Some(rgmin_eigen_kind_t::RGMIN_EIGEN_LANCZOS)
    } else if o == 1 {
        Some(rgmin_eigen_kind_t::RGMIN_EIGEN_RAYLEIGH_RITZ)
    } else if o == 2 {
        Some(rgmin_eigen_kind_t::RGMIN_EIGEN_JACOBI_DAVIDSON)
    } else if o == 3 {
        Some(rgmin_eigen_kind_t::RGMIN_EIGEN_LOBPCG)
    } else if o == 4 {
        Some(rgmin_eigen_kind_t::RGMIN_EIGEN_PRIMME)
    } else if o == 5 {
        Some(rgmin_eigen_kind_t::RGMIN_EIGEN_SLEPC)
    } else if o == 6 {
        Some(rgmin_eigen_kind_t::RGMIN_EIGEN_CHASE)
    } else if o == 7 {
        Some(rgmin_eigen_kind_t::RGMIN_EIGEN_ELPA)
    } else if o == 8 {
        Some(rgmin_eigen_kind_t::RGMIN_EIGEN_ELPA2)
    } else if o == 9 {
        Some(rgmin_eigen_kind_t::RGMIN_EIGEN_SLATE)
    } else if o == 10 {
        Some(rgmin_eigen_kind_t::RGMIN_EIGEN_MAGMA)
    } else if o == 11 {
        Some(rgmin_eigen_kind_t::RGMIN_EIGEN_CUSOLVER)
    } else if o == 12 {
        Some(rgmin_eigen_kind_t::RGMIN_EIGEN_DLA_FUTURE)
    } else if o == 13 {
        Some(rgmin_eigen_kind_t::RGMIN_EIGEN_EIGENEXA)
    } else {
        None
    }
}

/// Decode the `i32` conjugacy of `rgmin_scg_params_t`. Codes outside
/// `0..=7` (method codes included) are an invalid parameter; the host
/// shim records a message naming the conjugacy.
pub fn conjugacy_from_c(raw: i32) -> (r: Result<Conjugacy, rgmin_status_t>)
    ensures
        conjugacy_of_code(raw) matches Some(c) ==> r == Ok::<Conjugacy, rgmin_status_t>(c),
        conjugacy_of_code(raw) is None ==> r == Err::<Conjugacy, rgmin_status_t>(
            rgmin_status_t::RGMIN_INVALID_PARAMETER,
        ),
        r is Ok <==> 0 <= raw <= 7,
{
    match raw {
        0 => Ok(Conjugacy::FletcherReeves),
        1 => Ok(Conjugacy::PolakRibiere),
        2 => Ok(Conjugacy::HestenesStiefel),
        3 => Ok(Conjugacy::DaiYuan),
        4 => Ok(Conjugacy::ConjugateDescent),
        5 => Ok(Conjugacy::HagerZhang),
        6 => Ok(Conjugacy::LiuStorey),
        7 => Ok(Conjugacy::FrPr),
        _ => Err(rgmin_status_t::RGMIN_INVALID_PARAMETER),
    }
}

/// The C code of each conjugacy tag.
pub open spec fn conjugacy_tag_code(t: rgmin_conjugacy_t) -> i32 {
    match t {
        rgmin_conjugacy_t::RGMIN_CONJUGACY_FLETCHER_REEVES => 0,
        rgmin_conjugacy_t::RGMIN_CONJUGACY_POLAK_RIBIERE => 1,
        rgmin_conjugacy_t::RGMIN_CONJUGACY_HESTENES_STIEFEL => 2,
        rgmin_conjugacy_t::RGMIN_CONJUGACY_DAI_YUAN => 3,
        rgmin_conjugacy_t::RGMIN_CONJUGACY_CONJUGATE_DESCENT => 4,
        rgmin_conjugacy_t::RGMIN_CONJUGACY_HAGER_ZHANG => 5,
        rgmin_conjugacy_t::RGMIN_CONJUGACY_LIU_STOREY => 6,
        rgmin_conjugacy_t::RGMIN_CONJUGACY_FR_PR => 7,
    }
}

/// Every conjugacy tag decodes, and distinct tags decode to distinct
/// conjugacies.
pub proof fn lemma_conjugacy_codes(a: rgmin_conjugacy_t, b: rgmin_conjugacy_t)
    ensures
        conjugacy_of_code(conjugacy_tag_code(a)) is Some,
        a != b ==> conjugacy_of_code(conjugacy_tag_code(a)) != conjugacy_of_code(
            conjugacy_tag_code(b),
        ),
{
}

/// What a C method tag selects. L-BFGS memory `0` means 10 pairs.
pub open spec fn method_of(m: rgmin_method_t, memory: usize) -> Method {
    match m {
        rgmin_method_t::RGMIN_POLAK_RIBIERE => Method::Nlcg { conjugacy: Conjugacy::PolakRibiere },
        rgmin_method_t::RGMIN_FLETCHER_REEVES => Method::Nlcg {
            conjugacy: Conjugacy::FletcherReeves,
        },
        rgmin_method_t::RGMIN_BFGS => Method::Bfgs,
        rgmin_method_t::RGMIN_LBFGS => Method::Lbfgs {
            memory: if memory == 0 {
                10
            } else {
                memory
            },
        },
        rgmin_method_t::RGMIN_SR1 => Method::Sr1,
        rgmin_method_t::RGMIN_ADAM => Method::Adam,
        rgmin_method_t::RGMIN_STEEPEST => Method::Steepest,
        rgmin_method_t::RGMIN_SR2 => Method::Sr2,
        rgmin_method_t::RGMIN_PSO => Method::Pso,
        rgmin_method_t::RGMIN_HESTENES_STIEFEL => Method::Nlcg {
            conjugacy: Conjugacy::HestenesStiefel,
        },
        rgmin_method_t::RGMIN_DAI_YUAN => Method::Nlcg { conjugacy: Conjugacy::DaiYuan },
        rgmin_method_t::RGMIN_CONJUGATE_DESCENT => Method::Nlcg {
            conjugacy: Conjugacy::ConjugateDescent,
        },
        rgmin_method_t::RGMIN_HAGER_ZHANG => Method::Nlcg { conjugacy: Conjugacy::HagerZhang },
        rgmin_method_t::RGMIN_LIU_STOREY => Method::Nlcg { conjugacy: Conjugacy::LiuStorey },
        rgmin_method_t::RGMIN_FR_PR => Method::Nlcg { conjugacy: Conjugacy::FrPr },
        rgmin_method_t::RGMIN_NEWTON => Method::Newton { kind: NewtonKind::Shifted },
        rgmin_method_t::RGMIN_RFO => Method::Newton { kind: NewtonKind::Rfo },
        rgmin_method_t::RGMIN_FIRE => Method::Fire { kind: FireKind::V1 },
        rgmin_method_t::RGMIN_BB => Method::Bb,
        rgmin_method_t::RGMIN_DOGLEG => Method::Dogleg,
        rgmin_method_t::RGMIN_FIRE2 => Method::Fire { kind: FireKind::V2 },
    }
}

/// Decode a C method tag. `memory` is used only by L-BFGS (0 means 10).
pub fn method_from_c(m: rgmin_method_t, memory: usize) -> (r: Method)
    ensures
        r == method_of(m, memory),
{
    match m {
        rgmin_method_t::RGMIN_POLAK_RIBIERE => Method::Nlcg { conjugacy: Conjugacy::PolakRibiere },
        rgmin_method_t::RGMIN_FLETCHER_REEVES => Method::Nlcg {
            conjugacy: Conjugacy::FletcherReeves,
        },
        rgmin_method_t::RGMIN_BFGS => Method::Bfgs,
        rgmin_method_t::RGMIN_LBFGS => Method::Lbfgs {
            memory: if memory == 0 {
                10
            } else {
                memory
            },
        },
        rgmin_method_t::RGMIN_SR1 => Method::Sr1,
        rgmin_method_t::RGMIN_ADAM => Method::Adam,
        rgmin_method_t::RGMIN_STEEPEST => Method::Steepest,
        rgmin_method_t::RGMIN_SR2 => Method::Sr2,
        rgmin_method_t::RGMIN_PSO => Method::Pso,
        rgmin_method_t::RGMIN_HESTENES_STIEFEL => Method::Nlcg {
            conjugacy: Conjugacy::HestenesStiefel,
        },
        rgmin_method_t::RGMIN_DAI_YUAN => Method::Nlcg { conjugacy: Conjugacy::DaiYuan },
        rgmin_method_t::RGMIN_CONJUGATE_DESCENT => Method::Nlcg {
            conjugacy: Conjugacy::ConjugateDescent,
        },
        rgmin_method_t::RGMIN_HAGER_ZHANG => Method::Nlcg { conjugacy: Conjugacy::HagerZhang },
        rgmin_method_t::RGMIN_LIU_STOREY => Method::Nlcg { conjugacy: Conjugacy::LiuStorey },
        rgmin_method_t::RGMIN_FR_PR => Method::Nlcg { conjugacy: Conjugacy::FrPr },
        rgmin_method_t::RGMIN_NEWTON => Method::Newton { kind: NewtonKind::Shifted },
        rgmin_method_t::RGMIN_RFO => Method::Newton { kind: NewtonKind::Rfo },
        rgmin_method_t::RGMIN_FIRE => Method::Fire { kind: FireKind::V1 },
        rgmin_method_t::RGMIN_BB => Method::Bb,
        rgmin_method_t::RGMIN_DOGLEG => Method::Dogleg,
        rgmin_method_t::RGMIN_FIRE2 => Method::Fire { kind: FireKind::V2 },
    }
}

/// The one-shot first-order entry refuses these tags: they need a
/// Hessian and go through the Hessian entry.
pub fn method_needs_hessian(m: rgmin_method_t) -> (r: bool)
    ensures
        r <==> (m == rgmin_method_t::RGMIN_NEWTON || m == rgmin_method_t::RGMIN_RFO || m
            == rgmin_method_t::RGMIN_DOGLEG),
{
    match m {
        rgmin_method_t::RGMIN_NEWTON | rgmin_method_t::RGMIN_RFO | rgmin_method_t::RGMIN_DOGLEG => true,
        _ => false,
    }
}

/// Decode the `lbfgs_step` tag.
pub fn qn_step_from_c(step: rgmin_qn_step_t) -> (r: QnStep)
    ensures
        step == rgmin_qn_step_t::RGMIN_QN_NEWTON ==> r == QnStep::Newton,
        step == rgmin_qn_step_t::RGMIN_QN_RFO ==> r == QnStep::Rfo,
        step == rgmin_qn_step_t::RGMIN_QN_LBFGS ==> r == QnStep::TwoLoop,
{
    match step {
        rgmin_qn_step_t::RGMIN_QN_NEWTON => QnStep::Newton,
        rgmin_qn_step_t::RGMIN_QN_RFO => QnStep::Rfo,
        rgmin_qn_step_t::RGMIN_QN_LBFGS => QnStep::TwoLoop,
    }
}

/// Decode the `lbfgs_accept` tag.
pub fn accept_from_c(accept: rgmin_accept_t) -> (r: Accept)
    ensures
        accept == rgmin_accept_t::RGMIN_ACCEPT_ENERGY ==> r == Accept::Energy,
        accept == rgmin_accept_t::RGMIN_ACCEPT_NONMONOTONE ==> r == Accept::Nonmonotone,
        accept == rgmin_accept_t::RGMIN_ACCEPT_NONE ==> r == Accept::Always,
{
    match accept {
        rgmin_accept_t::RGMIN_ACCEPT_ENERGY => Accept::Energy,
        rgmin_accept_t::RGMIN_ACCEPT_NONMONOTONE => Accept::Nonmonotone,
        rgmin_accept_t::RGMIN_ACCEPT_NONE => Accept::Always,
    }
}

/// The geometry a C manifold token selects, with its default size.
pub open spec fn manifold_of(m: rgmin_manifold_t) -> ManifoldKind {
    match m {
        rgmin_manifold_t::RGMIN_MANIFOLD_SPHERE => ManifoldKind::Sphere,
        rgmin_manifold_t::RGMIN_MANIFOLD_SO3 => ManifoldKind::So3,
        rgmin_manifold_t::RGMIN_MANIFOLD_STIEFEL => ManifoldKind::Stiefel,
        rgmin_manifold_t::RGMIN_MANIFOLD_SE3 => ManifoldKind::Se3,
        rgmin_manifold_t::RGMIN_MANIFOLD_RIGID_QUOTIENT => ManifoldKind::RigidQuotient,
        rgmin_manifold_t::RGMIN_MANIFOLD_MW_RIGID => ManifoldKind::MwRigid,
        rgmin_manifold_t::RGMIN_MANIFOLD_OBLIQUE => ManifoldKind::Oblique { n: 0, m: 0 },
        rgmin_manifold_t::RGMIN_MANIFOLD_MULTINOMIAL => ManifoldKind::Multinomial,
        rgmin_manifold_t::RGMIN_MANIFOLD_COMPLEX_CIRCLE => ManifoldKind::ComplexCircle { n: 1 },
        rgmin_manifold_t::RGMIN_MANIFOLD_SYMMETRIC => ManifoldKind::Symmetric,
        rgmin_manifold_t::RGMIN_MANIFOLD_SKEWSYMMETRIC => ManifoldKind::SkewSymmetric,
        rgmin_manifold_t::RGMIN_MANIFOLD_EUCLIDEAN_COMPLEX => ManifoldKind::EuclideanComplex {
            n: 1,
        },
        rgmin_manifold_t::RGMIN_MANIFOLD_CONSTANT => ManifoldKind::Constant { n: 1 },
        rgmin_manifold_t::RGMIN_MANIFOLD_MULTINOMIAL_DS => ManifoldKind::MultinomialDoublyStochastic {
            n: 2,
        },
        rgmin_manifold_t::RGMIN_MANIFOLD_MULTINOMIAL_SYM => ManifoldKind::MultinomialSymmetric {
            n: 2,
        },
        rgmin_manifold_t::RGMIN_MANIFOLD_SPHERE_COMPLEX => ManifoldKind::SphereComplex { n: 1 },
        rgmin_manifold_t::RGMIN_MANIFOLD_EUCLIDEAN => ManifoldKind::Euclidean,
    }
}

/// Decode a C manifold token (`rgmin_solver_set_manifold`).
pub fn manifold_from_c(m: rgmin_manifold_t) -> (r: ManifoldKind)
    ensures
        r == manifold_of(m),
{
    match m {
        rgmin_manifold_t::RGMIN_MANIFOLD_SPHERE => ManifoldKind::Sphere,
        rgmin_manifold_t::RGMIN_MANIFOLD_SO3 => ManifoldKind::So3,
        rgmin_manifold_t::RGMIN_MANIFOLD_STIEFEL => ManifoldKind::Stiefel,
        rgmin_manifold_t::RGMIN_MANIFOLD_SE3 => ManifoldKind::Se3,
        rgmin_manifold_t::RGMIN_MANIFOLD_RIGID_QUOTIENT => ManifoldKind::RigidQuotient,
        rgmin_manifold_t::RGMIN_MANIFOLD_MW_RIGID => ManifoldKind::MwRigid,
        rgmin_manifold_t::RGMIN_MANIFOLD_OBLIQUE => ManifoldKind::Oblique { n: 0, m: 0 },
        rgmin_manifold_t::RGMIN_MANIFOLD_MULTINOMIAL => ManifoldKind::Multinomial,
        rgmin_manifold_t::RGMIN_MANIFOLD_COMPLEX_CIRCLE => ManifoldKind::ComplexCircle { n: 1 },
        rgmin_manifold_t::RGMIN_MANIFOLD_SYMMETRIC => ManifoldKind::Symmetric,
        rgmin_manifold_t::RGMIN_MANIFOLD_SKEWSYMMETRIC => ManifoldKind::SkewSymmetric,
        rgmin_manifold_t::RGMIN_MANIFOLD_EUCLIDEAN_COMPLEX => ManifoldKind::EuclideanComplex {
            n: 1,
        },
        rgmin_manifold_t::RGMIN_MANIFOLD_CONSTANT => ManifoldKind::Constant { n: 1 },
        rgmin_manifold_t::RGMIN_MANIFOLD_MULTINOMIAL_DS => ManifoldKind::MultinomialDoublyStochastic {
            n: 2,
        },
        rgmin_manifold_t::RGMIN_MANIFOLD_MULTINOMIAL_SYM => ManifoldKind::MultinomialSymmetric {
            n: 2,
        },
        rgmin_manifold_t::RGMIN_MANIFOLD_SPHERE_COMPLEX => ManifoldKind::SphereComplex { n: 1 },
        rgmin_manifold_t::RGMIN_MANIFOLD_EUCLIDEAN => ManifoldKind::Euclidean,
    }
}

/// DLPack `kDLCPU`.
pub const DL_DEVICE_CPU: u32 = 1;
/// DLPack `kDLFloat`.
pub const DL_TYPE_FLOAT: u8 = 2;

/// What the waist reads from a borrowed DLPack tensor before it touches
/// the data: every field that decides acceptance, as a plain value.
#[derive(Clone, Copy, Debug, PartialEq, Eq, Structural)]
pub struct TensorHeader {
    /// `DLDeviceType` discriminant.
    pub device_type: u32,
    /// Number of dimensions.
    pub ndim: i32,
    /// `DLDataTypeCode` discriminant.
    pub dtype_code: u8,
    /// Bits per lane.
    pub dtype_bits: u8,
    /// Lanes.
    pub dtype_lanes: u16,
    /// `shape[0]`, `None` when the shape pointer is null.
    pub shape0: Option<i64>,
    /// The data pointer is null.
    pub data_null: bool,
    /// `strides[0]`, `None` when the strides pointer is null (compact).
    pub stride0: Option<i64>,
}

/// The header describes a rank-1 f64 tensor with shape and data.
pub open spec fn header_is_f64_vector(h: TensorHeader) -> bool {
    &&& h.ndim == 1
    &&& h.dtype_code == DL_TYPE_FLOAT
    &&& h.dtype_bits == 64
    &&& h.dtype_lanes == 1
    &&& h.shape0 is Some
    &&& !h.data_null
}

/// Why a borrowed tensor is not a contiguous, non-empty CPU f64 vector.
#[derive(Clone, Copy, Debug, PartialEq, Eq, Structural)]
pub enum TensorRefusal {
    /// The tensor pointer is null.
    Null,
    /// The tensor lives on this device type, which has no backend here.
    Device(u32),
    /// Not rank 1, not f64, or without shape or data.
    Layout,
    /// Zero elements.
    Empty,
    /// A stride other than one.
    Stride,
}

/// The status a tensor refusal is reported with.
pub open spec fn tensor_refusal_status(r: TensorRefusal) -> rgmin_status_t {
    match r {
        TensorRefusal::Device(_) => rgmin_status_t::RGMIN_UNSUPPORTED_DEVICE,
        _ => rgmin_status_t::RGMIN_INVALID_PARAMETER,
    }
}

impl TensorRefusal {
    /// The C status for this refusal.
    pub fn status(&self) -> (r: rgmin_status_t)
        ensures
            r == tensor_refusal_status(*self),
    {
        match self {
            TensorRefusal::Device(_) => rgmin_status_t::RGMIN_UNSUPPORTED_DEVICE,
            _ => rgmin_status_t::RGMIN_INVALID_PARAMETER,
        }
    }
}

/// Checks on a borrowed tensor: null, then device, then layout, then
/// emptiness, then stride. `Ok` carries the element count.
pub open spec fn tensor_check(t: Option<TensorHeader>) -> Result<usize, TensorRefusal> {
    match t {
        None => Err(TensorRefusal::Null),
        Some(h) => if h.device_type != DL_DEVICE_CPU {
            Err(TensorRefusal::Device(h.device_type))
        } else if !header_is_f64_vector(h) {
            Err(TensorRefusal::Layout)
        } else if h.shape0.unwrap() as usize == 0 {
            Err(TensorRefusal::Empty)
        } else if h.stride0 matches Some(s) && s != 1 {
            Err(TensorRefusal::Stride)
        } else {
            Ok(h.shape0.unwrap() as usize)
        },
    }
}

/// The status-level verdict on a borrowed tensor.
pub open spec fn tensor_verdict(t: Option<TensorHeader>) -> Result<usize, rgmin_status_t> {
    match tensor_check(t) {
        Ok(n) => Ok(n),
        Err(r) => Err(tensor_refusal_status(r)),
    }
}

/// Accept a borrowed tensor as a contiguous, non-empty CPU f64 vector,
/// or say why not. `None` is a null tensor.
pub fn check_tensor(t: Option<&TensorHeader>) -> (r: Result<usize, TensorRefusal>)
    ensures
        r == tensor_check(match t {
            Some(h) => Some(*h),
            None => None,
        }),
{
    let h = match t {
        None => return Err(TensorRefusal::Null),
        Some(h) => h,
    };
    if h.device_type != DL_DEVICE_CPU {
        return Err(TensorRefusal::Device(h.device_type));
    }
    let shape0 = match h.shape0 {
        None => return Err(TensorRefusal::Layout),
        Some(s) => s,
    };
    if h.ndim != 1 || h.dtype_code != DL_TYPE_FLOAT || h.dtype_bits != 64 || h.dtype_lanes != 1
        || h.data_null {
        return Err(TensorRefusal::Layout);
    }
    let n = shape0 as usize;
    if n == 0 {
        return Err(TensorRefusal::Empty);
    }
    if let Some(s) = h.stride0 {
        if s != 1 {
            return Err(TensorRefusal::Stride);
        }
    }
    Ok(n)
}

/// Accept a borrowed tensor as a contiguous, non-empty CPU f64 vector,
/// or name the status that refuses it. `None` is a null tensor.
pub fn cpu_f64_len(t: Option<&TensorHeader>) -> (r: Result<usize, rgmin_status_t>)
    ensures
        r == tensor_verdict(match t {
            Some(h) => Some(*h),
            None => None,
        }),
{
    match check_tensor(t) {
        Ok(n) => Ok(n),
        Err(e) => Err(e.status()),
    }
}

} // verus!
