//! Decisions of a persistent solver session: which algorithm state a
//! method carries, which update one outer iteration runs, when the
//! session starts cold, and the dimension check before a step. The
//! updates themselves are floating-point work done by the host.

use vstd::prelude::*;

use crate::error::Error;
use crate::ffi::{method_of, rgmin_method_t};
use crate::manifold::kind::{kind_dim_verdict, kind_token, spec_stiefel, ManifoldKind};
use crate::method::{Accept, FireKind, Method, NewtonKind, QnStep};

verus! {

/// Which algorithm state a session carries between steps.
#[derive(Clone, Copy, Debug, PartialEq, Eq, Structural)]
pub enum MemoryKind {
    /// L-BFGS pair memory.
    Lbfgs,
    /// Previous CG direction and gradient.
    Nlcg,
    /// Dense inverse Hessian.
    Bfgs,
    /// Dense inverse Hessian, SR1 update.
    Sr1,
    /// Dense Hessian, SR2 update.
    Sr2,
    /// First and second moments.
    Adam,
    /// Nothing.
    Steepest,
    /// A particle swarm.
    Pso,
    /// Nothing but the Newton variant.
    Newton(NewtonKind),
    /// FIRE velocity and mixing state.
    Fire(FireKind),
    /// Previous step and gradient change.
    Bb,
    /// Trust radius.
    Dogleg,
}

/// The state a method's session carries.
pub open spec fn memory_kind_of(m: Method) -> MemoryKind {
    match m {
        Method::Lbfgs { .. } => MemoryKind::Lbfgs,
        Method::Nlcg { .. } => MemoryKind::Nlcg,
        Method::Bfgs => MemoryKind::Bfgs,
        Method::Sr1 => MemoryKind::Sr1,
        Method::Sr2 => MemoryKind::Sr2,
        Method::Adam => MemoryKind::Adam,
        Method::Steepest => MemoryKind::Steepest,
        Method::Pso => MemoryKind::Pso,
        Method::Newton { kind } => MemoryKind::Newton(kind),
        Method::Fire { kind } => MemoryKind::Fire(kind),
        Method::Bb => MemoryKind::Bb,
        Method::Dogleg => MemoryKind::Dogleg,
    }
}

/// The state a session for `m` carries.
pub fn memory_kind(m: &Method) -> (r: MemoryKind)
    ensures
        r == memory_kind_of(*m),
{
    match m {
        Method::Lbfgs { .. } => MemoryKind::Lbfgs,
        Method::Nlcg { .. } => MemoryKind::Nlcg,
        Method::Bfgs => MemoryKind::Bfgs,
        Method::Sr1 => MemoryKind::Sr1,
        Method::Sr2 => MemoryKind::Sr2,
        Method::Adam => MemoryKind::Adam,
        Method::Steepest => MemoryKind::Steepest,
        Method::Pso => MemoryKind::Pso,
        Method::Newton { kind } => MemoryKind::Newton(*kind),
        Method::Fire { kind } => MemoryKind::Fire(*kind),
        Method::Bb => MemoryKind::Bb,
        Method::Dogleg => MemoryKind::Dogleg,
    }
}

/// What one first-order `step` runs.
#[derive(Clone, Copy, Debug, PartialEq, Eq, Structural)]
pub enum StepRoute {
    /// Refused: this session needs a Hessian step.
    NeedHessian,
    /// One swarm generation.
    Swarm,
    /// The first-order update of this state.
    Update(MemoryKind),
}

/// The first-order route of a session carrying `k`.
pub open spec fn step_route_of(k: MemoryKind) -> StepRoute {
    match k {
        MemoryKind::Newton(_) => StepRoute::NeedHessian,
        MemoryKind::Dogleg => StepRoute::NeedHessian,
        MemoryKind::Pso => StepRoute::Swarm,
        other => StepRoute::Update(other),
    }
}

/// What one `step_hess` runs.
#[derive(Clone, Copy, Debug, PartialEq, Eq, Structural)]
pub enum HessRoute {
    /// A Newton-type direction on the caller Hessian.
    Newton(NewtonKind),
    /// The L-BFGS two-loop direction with the Hessian as preconditioner.
    Preconditioned,
    /// A dogleg trust-region step.
    Dogleg,
    /// The Hessian is not used: the first-order route runs.
    FirstOrder,
}

/// The Hessian route of a session carrying `k` with L-BFGS step rule `qn`.
pub open spec fn hess_route_of(k: MemoryKind, qn: QnStep) -> HessRoute {
    match k {
        MemoryKind::Newton(kind) => HessRoute::Newton(kind),
        MemoryKind::Lbfgs => match qn {
            QnStep::Newton => HessRoute::Newton(NewtonKind::Shifted),
            QnStep::Rfo => HessRoute::Newton(NewtonKind::Rfo),
            QnStep::TwoLoop => HessRoute::Preconditioned,
        },
        MemoryKind::Dogleg => HessRoute::Dogleg,
        _ => HessRoute::FirstOrder,
    }
}

/// What the decisions of a session depend on.
pub struct SessionModel {
    /// Length of the iterate.
    pub dim: nat,
    /// The algorithm state carried.
    pub memory: MemoryKind,
    /// L-BFGS use of a caller Hessian.
    pub qn_step: QnStep,
    /// Step acceptance rule.
    pub accept: Accept,
    /// Geometry of the iterate.
    pub manifold: ManifoldKind,
    /// Rigid-body modes are projected out of Cartesian clusters.
    pub project_rigid: bool,
    /// The cell is periodic.
    pub periodic: bool,
    /// The session remembers a previous point (a warm start).
    pub warm: bool,
    /// The method state has moved since the session began or last
    /// forgot: the step length, an initialized CG direction, a dense
    /// (inverse) Hessian off the identity, Adam moments, FIRE or
    /// Barzilai-Borwein history, a particle swarm, or a dogleg radius.
    pub started: bool,
    /// L-BFGS correction pairs held.
    pub pairs: nat,
    /// Most L-BFGS correction pairs held (1 for the other methods).
    pub pair_cap: nat,
    /// Accepted objective values held for the acceptance test.
    pub history: nat,
    /// Outer iterations taken.
    pub steps: nat,
}

/// Correction pairs an L-BFGS session for `m` keeps: its memory, at
/// least one.
pub open spec fn pair_cap_of(m: Method) -> nat {
    match m {
        Method::Lbfgs { memory } => if memory >= 1 {
            memory as nat
        } else {
            1
        },
        _ => 1,
    }
}

/// The session with its method memory dropped: no remembered point, the
/// method state as at creation, no correction pairs, no acceptance
/// history. Everything else is kept.
pub open spec fn forgotten(s: SessionModel) -> SessionModel {
    SessionModel { warm: false, started: false, pairs: 0, history: 0, ..s }
}

/// `p` pairs plus one, the oldest leaving at `cap`.
pub open spec fn pair_pushed(p: nat, cap: nat) -> nat {
    if p + 1 <= cap {
        p + 1
    } else {
        cap
    }
}

/// Pairs held after a Hessian step that `moved` the iterate and whose
/// pair the curvature test `admitted`: one more, up to the cap, on an
/// L-BFGS session; unchanged otherwise.
pub open spec fn pairs_after_hessian(s: SessionModel, moved: bool, admitted: bool) -> nat {
    if s.memory == MemoryKind::Lbfgs && moved && admitted {
        pair_pushed(s.pairs, s.pair_cap)
    } else {
        s.pairs
    }
}

/// Pairs held after a first-order step on an L-BFGS session: the update
/// first stores its own pair when `inner_pushed`; then, when the step
/// `moved` the iterate, the newest stored pair is dropped and the
/// Riemannian pair is stored only if the curvature test `admitted` it.
/// Other sessions hold no pairs.
pub open spec fn pairs_after_first_order(
    s: SessionModel,
    inner_pushed: bool,
    moved: bool,
    admitted: bool,
) -> nat {
    if s.memory == MemoryKind::Lbfgs {
        let p1 = if inner_pushed {
            pair_pushed(s.pairs, s.pair_cap)
        } else {
            s.pairs
        };
        if moved {
            let p2: nat = if p1 > 0 {
                (p1 - 1) as nat
            } else {
                0
            };
            if admitted {
                pair_pushed(p2, s.pair_cap)
            } else {
                p2
            }
        } else {
            p1
        }
    } else {
        s.pairs
    }
}

/// The decision state of a long-lived solver session.
pub struct Session {
    dim: usize,
    memory: MemoryKind,
    qn_step: QnStep,
    accept: Accept,
    manifold: ManifoldKind,
    project_rigid: bool,
    periodic: bool,
    warm: bool,
    started: bool,
    pairs: usize,
    pair_cap: usize,
    history: usize,
    steps: usize,
}

/// Invariant of a session: it never holds more pairs than its cap, and
/// the cap is at least one.
pub open spec fn session_wf(s: SessionModel) -> bool {
    1 <= s.pair_cap && s.pairs <= s.pair_cap && s.pair_cap <= usize::MAX
}

/// The session after its geometry is set to `kind`.
pub open spec fn with_manifold(s: SessionModel, kind: ManifoldKind) -> SessionModel {
    if kind == s.manifold {
        s
    } else {
        SessionModel { manifold: kind, ..forgotten(s) }
    }
}

impl View for Session {
    type V = SessionModel;

    closed spec fn view(&self) -> SessionModel {
        SessionModel {
            dim: self.dim as nat,
            memory: self.memory,
            qn_step: self.qn_step,
            accept: self.accept,
            manifold: self.manifold,
            project_rigid: self.project_rigid,
            periodic: self.periodic,
            warm: self.warm,
            started: self.started,
            pairs: self.pairs as nat,
            pair_cap: self.pair_cap as nat,
            history: self.history as nat,
            steps: self.steps as nat,
        }
    }
}

impl Session {
    /// Fresh session for `method` in dimension `dim`: two-loop L-BFGS
    /// steps, every clipped step taken, Euclidean geometry, cold, no
    /// steps taken.
    pub fn new(method: &Method, dim: usize) -> (r: Session)
        ensures
            session_wf(r@),
            r@ == (SessionModel {
                dim: dim as nat,
                memory: memory_kind_of(*method),
                qn_step: QnStep::TwoLoop,
                accept: Accept::Always,
                manifold: ManifoldKind::Euclidean,
                project_rigid: false,
                periodic: false,
                warm: false,
                started: false,
                pairs: 0,
                pair_cap: pair_cap_of(*method),
                history: 0,
                steps: 0,
            }),
    {
        let pair_cap = match method {
            Method::Lbfgs { memory } => if *memory >= 1 {
                *memory
            } else {
                1
            },
            _ => 1,
        };
        Session {
            dim,
            memory: memory_kind(method),
            qn_step: QnStep::TwoLoop,
            accept: Accept::Always,
            manifold: ManifoldKind::Euclidean,
            project_rigid: false,
            periodic: false,
            warm: false,
            started: false,
            pairs: 0,
            pair_cap,
            history: 0,
            steps: 0,
        }
    }

    /// Drop method memory: the next step is a cold start from the
    /// current point with the method state as at creation.
    pub fn forget(&mut self)
        requires
            session_wf(old(self)@),
        ensures
            session_wf(final(self)@),
            final(self)@ == forgotten(old(self)@),
    {
        self.warm = false;
        self.started = false;
        self.pairs = 0;
        self.history = 0;
    }

    /// Change the geometry. A different geometry drops method memory;
    /// the same one keeps it.
    pub fn set_manifold(&mut self, kind: ManifoldKind)
        requires
            session_wf(old(self)@),
        ensures
            session_wf(final(self)@),
            final(self)@ == with_manifold(old(self)@, kind),
    {
        if kind != self.manifold {
            self.forget();
        }
        self.manifold = kind;
    }

    /// Oblique \(\mathrm{OB}(n,m)\): product of `m` unit spheres in `R^n`.
    pub fn set_oblique(&mut self, n: usize, m: usize)
        requires
            session_wf(old(self)@),
        ensures
            session_wf(final(self)@),
            final(self)@ == with_manifold(old(self)@, ManifoldKind::Oblique { n, m }),
    {
        self.set_manifold(ManifoldKind::oblique(n, m));
    }

    /// Stiefel \(\mathrm{St}(n,p)\); `p = 1` is the sphere packing.
    pub fn set_stiefel(&mut self, n: usize, p: usize)
        requires
            session_wf(old(self)@),
        ensures
            session_wf(final(self)@),
            final(self)@ == with_manifold(old(self)@, spec_stiefel(n, p)),
    {
        self.set_manifold(ManifoldKind::stiefel(n, p));
    }

    /// Product of `n` unit-modulus complex numbers.
    pub fn set_complex_circle(&mut self, n: usize)
        requires
            session_wf(old(self)@),
        ensures
            session_wf(final(self)@),
            final(self)@ == with_manifold(old(self)@, ManifoldKind::ComplexCircle { n }),
    {
        self.set_manifold(ManifoldKind::complex_circle(n));
    }

    /// Complex Euclidean \(\mathbb{C}^n\).
    pub fn set_euclidean_complex(&mut self, n: usize)
        requires
            session_wf(old(self)@),
        ensures
            session_wf(final(self)@),
            final(self)@ == with_manifold(old(self)@, ManifoldKind::EuclideanComplex { n }),
    {
        self.set_manifold(ManifoldKind::euclidean_complex(n));
    }

    /// Singleton of packed length `n`.
    pub fn set_constant(&mut self, n: usize)
        requires
            session_wf(old(self)@),
        ensures
            session_wf(final(self)@),
            final(self)@ == with_manifold(old(self)@, ManifoldKind::Constant { n }),
    {
        self.set_manifold(ManifoldKind::constant(n));
    }

    /// Doubly-stochastic `n x n`.
    pub fn set_multinomial_ds(&mut self, n: usize)
        requires
            session_wf(old(self)@),
        ensures
            session_wf(final(self)@),
            final(self)@ == with_manifold(
                old(self)@,
                ManifoldKind::MultinomialDoublyStochastic { n },
            ),
    {
        self.set_manifold(ManifoldKind::multinomial_ds(n));
    }

    /// What one first-order `step` runs.
    pub fn step_route(&self) -> (r: StepRoute)
        ensures
            r == step_route_of(self@.memory),
    {
        match self.memory {
            MemoryKind::Newton(_) => StepRoute::NeedHessian,
            MemoryKind::Dogleg => StepRoute::NeedHessian,
            MemoryKind::Pso => StepRoute::Swarm,
            other => StepRoute::Update(other),
        }
    }

    /// What one `step_hess` runs.
    pub fn hess_route(&self) -> (r: HessRoute)
        ensures
            r == hess_route_of(self@.memory, self@.qn_step),
    {
        match self.memory {
            MemoryKind::Newton(kind) => HessRoute::Newton(kind),
            MemoryKind::Lbfgs => match self.qn_step {
                QnStep::Newton => HessRoute::Newton(NewtonKind::Shifted),
                QnStep::Rfo => HessRoute::Newton(NewtonKind::Rfo),
                QnStep::TwoLoop => HessRoute::Preconditioned,
            },
            MemoryKind::Dogleg => HessRoute::Dogleg,
            _ => HessRoute::FirstOrder,
        }
    }

    /// A step needs an iterate of the session's length from an objective
    /// of the session's dimension; otherwise it fails with the iterate's
    /// length against the session's.
    pub fn check_dim(&self, got: usize, objective_dim: usize) -> (r: Result<(), Error>)
        ensures
            r is Ok <==> (got == self@.dim && objective_dim == self@.dim),
            r is Err ==> r == Err::<(), Error>(Error::Dim { got, dim: self@.dim as usize }),
    {
        if got != self.dim || self.dim != objective_dim {
            return Err(Error::Dim { got, dim: self.dim });
        }
        Ok(())
    }

    /// The geometry's refusal of an iterate of length `n`: `Ok` when the
    /// length is a legal packing of the session's geometry, otherwise an
    /// error naming the geometry's token and the length.
    pub fn check_manifold(&self, n: usize) -> (r: Result<(), Error>)
        ensures
            r is Ok <==> kind_dim_verdict(self@.manifold, n) is Ok,
            r matches Err(e) ==> (e matches Error::ManifoldDim { kind, got } && kind@
                == kind_token(self@.manifold) && got == n),
    {
        if self.manifold.required_dim(n).is_ok() {
            return Ok(());
        }
        Err(Error::ManifoldDim { kind: self.manifold.as_str(), got: n })
    }

    /// Checks before a step: the iterate and objective dimensions, then
    /// the geometry's verdict on the iterate's length.
    pub fn step_preflight(&self, got: usize, objective_dim: usize) -> (r: Result<(), Error>)
        ensures
            r is Ok <==> (got == self@.dim && objective_dim == self@.dim && kind_dim_verdict(
                self@.manifold,
                got,
            ) is Ok),
            !(got == self@.dim && objective_dim == self@.dim) ==> r == Err::<(), Error>(
                Error::Dim { got, dim: self@.dim as usize },
            ),
            (got == self@.dim && objective_dim == self@.dim && kind_dim_verdict(
                self@.manifold,
                got,
            ) is Err) ==> (r matches Err(e) && e matches Error::ManifoldDim { kind, got: g }
                && kind@ == kind_token(self@.manifold) && g == got),
    {
        match self.check_dim(got, objective_dim) {
            Err(e) => Err(e),
            Ok(()) => self.check_manifold(got),
        }
    }

    /// Record a completed first-order outer iteration: the session
    /// remembers the accepted point, its method state has moved, one more
    /// step is counted and the acceptance test now holds `history` values.
    /// On an L-BFGS session the update's own pair is stored when
    /// `inner_pushed`; then, if the step `moved` the iterate, the newest
    /// stored pair is replaced by the Riemannian pair, which is stored only
    /// when the curvature test `admitted` it.
    pub fn record_step(&mut self, inner_pushed: bool, moved: bool, admitted: bool, history: usize)
        requires
            session_wf(old(self)@),
            old(self)@.steps < usize::MAX,
        ensures
            session_wf(final(self)@),
            final(self)@ == (SessionModel {
                warm: true,
                started: true,
                pairs: pairs_after_first_order(old(self)@, inner_pushed, moved, admitted),
                history: history as nat,
                steps: old(self)@.steps + 1,
                ..old(self)@
            }),
    {
        self.warm = true;
        self.started = true;
        if self.memory == MemoryKind::Lbfgs {
            if inner_pushed && self.pairs < self.pair_cap {
                self.pairs = self.pairs + 1;
            }
            if moved {
                if self.pairs > 0 {
                    self.pairs = self.pairs - 1;
                }
                if admitted && self.pairs < self.pair_cap {
                    self.pairs = self.pairs + 1;
                }
            }
        }
        self.history = history;
        self.steps = self.steps + 1;
    }

    /// Record a completed Hessian outer iteration (Newton, RFO or the
    /// preconditioned two-loop route): as [`Session::record_step`], except
    /// that on an L-BFGS session a step that `moved` the iterate adds its
    /// pair when the curvature test `admitted` it, replacing nothing.
    pub fn record_hess_step(&mut self, moved: bool, admitted: bool, history: usize)
        requires
            session_wf(old(self)@),
            old(self)@.steps < usize::MAX,
        ensures
            session_wf(final(self)@),
            final(self)@ == (SessionModel {
                warm: true,
                started: true,
                pairs: pairs_after_hessian(old(self)@, moved, admitted),
                history: history as nat,
                steps: old(self)@.steps + 1,
                ..old(self)@
            }),
    {
        self.warm = true;
        self.started = true;
        if self.memory == MemoryKind::Lbfgs && moved && admitted && self.pairs < self.pair_cap {
            self.pairs = self.pairs + 1;
        }
        self.history = history;
        self.steps = self.steps + 1;
    }

    /// L-BFGS correction pairs held.
    pub fn pairs(&self) -> (r: usize)
        ensures
            r == self@.pairs,
    {
        self.pairs
    }

    /// The method state has moved since the session began or last forgot.
    pub fn is_started(&self) -> (r: bool)
        ensures
            r == self@.started,
    {
        self.started
    }

    /// Accepted values held for the acceptance test.
    pub fn history(&self) -> (r: usize)
        ensures
            r == self@.history,
    {
        self.history
    }

    /// Settings of the L-BFGS state (extra updates, the cautious filter,
    /// the HiGHS step, the gradient tolerance of its own loop) take effect
    /// only on an L-BFGS session.
    pub fn tunes_lbfgs(&self) -> (r: bool)
        ensures
            r <==> self@.memory == MemoryKind::Lbfgs,
    {
        match self.memory {
            MemoryKind::Lbfgs => true,
            _ => false,
        }
    }

    /// The centring constraint of the HiGHS feasible-set step: with rigid
    /// projection on and a Cartesian length, `dim / 3` atoms on 3 axes.
    pub fn highs_center_axes(&self) -> (r: Option<(usize, usize)>)
        ensures
            r == (if self@.project_rigid && self@.dim % 3 == 0 {
                Some(((self@.dim / 3) as usize, 3usize))
            } else {
                None::<(usize, usize)>
            }),
    {
        if self.project_rigid && self.dim % 3 == 0 {
            Some((self.dim / 3, 3))
        } else {
            None
        }
    }

    /// Set the L-BFGS use of a caller Hessian.
    pub fn set_qn_step(&mut self, step: QnStep)
        ensures
            final(self)@ == (SessionModel { qn_step: step, ..old(self)@ }),
    {
        self.qn_step = step;
    }

    /// Set the step acceptance rule.
    pub fn set_accept(&mut self, accept: Accept)
        ensures
            final(self)@ == (SessionModel { accept, ..old(self)@ }),
    {
        self.accept = accept;
    }

    /// Project rigid-body modes out of Cartesian clusters.
    pub fn set_project_rigid(&mut self, enabled: bool)
        ensures
            final(self)@ == (SessionModel { project_rigid: enabled, ..old(self)@ }),
    {
        self.project_rigid = enabled;
    }

    /// Mark the cell periodic.
    pub fn set_periodic(&mut self, periodic: bool)
        ensures
            final(self)@ == (SessionModel { periodic, ..old(self)@ }),
    {
        self.periodic = periodic;
    }

    /// Outer iterations taken.
    pub fn steps(&self) -> (r: usize)
        ensures
            r == self@.steps,
    {
        self.steps
    }

    /// The session remembers a previous point.
    pub fn is_warm(&self) -> (r: bool)
        ensures
            r == self@.warm,
    {
        self.warm
    }

    /// The geometry of the iterate.
    pub fn manifold(&self) -> (r: ManifoldKind)
        ensures
            r == self@.manifold,
    {
        self.manifold
    }
}

/// A first-order step refuses exactly the sessions that need a Hessian
/// (Newton and dogleg); a Hessian step accepts every session, and on the
/// sessions that ignore the Hessian it runs the first-order route.
pub proof fn lemma_routes_cover_every_session(k: MemoryKind, qn: QnStep)
    ensures
        step_route_of(k) == StepRoute::NeedHessian <==> (k is Newton || k is Dogleg),
        hess_route_of(k, qn) == HessRoute::FirstOrder ==> step_route_of(k)
            != StepRoute::NeedHessian,
        !(k is Lbfgs) ==> hess_route_of(k, qn) == hess_route_of(k, QnStep::TwoLoop),
{
}

/// Setting the geometry a session already has changes nothing; setting
/// a different one and then the first again restores the geometry and
/// leaves the session forgotten.
pub proof fn lemma_manifold_round_trip(s: SessionModel, other: ManifoldKind)
    requires
        other != s.manifold,
    ensures
        with_manifold(s, s.manifold) == s,
        with_manifold(with_manifold(s, other), s.manifold) == forgotten(s),
{
}

/// Forgetting twice is forgetting once; it keeps the method, geometry,
/// settings and step count, and a forgotten session is cold with no
/// pairs and no history.
pub proof fn lemma_forget_restarts(s: SessionModel)
    ensures
        forgotten(forgotten(s)) == forgotten(s),
        forgotten(s).memory == s.memory && forgotten(s).manifold == s.manifold
            && forgotten(s).steps == s.steps && forgotten(s).dim == s.dim
            && forgotten(s).pair_cap == s.pair_cap,
        !forgotten(s).warm && !forgotten(s).started && forgotten(s).pairs == 0
            && forgotten(s).history == 0,
        session_wf(s) ==> session_wf(forgotten(s)),
{
}

/// Only an L-BFGS session holds pairs, never more than its cap. A
/// Hessian step adds at most one pair; a first-order step adds at most
/// one and, when it moves but its Riemannian pair is refused, drops the
/// newest one.
pub proof fn lemma_pairs_bounded(
    s: SessionModel,
    inner_pushed: bool,
    moved: bool,
    admitted: bool,
)
    requires
        session_wf(s),
    ensures
        pairs_after_hessian(s, moved, admitted) <= s.pair_cap,
        s.pairs <= pairs_after_hessian(s, moved, admitted) <= s.pairs + 1,
        pairs_after_first_order(s, inner_pushed, moved, admitted) <= s.pair_cap,
        pairs_after_first_order(s, inner_pushed, moved, admitted) + 1 >= s.pairs,
        pairs_after_first_order(s, inner_pushed, moved, admitted) <= s.pairs + 1,
        !(s.memory == MemoryKind::Lbfgs) ==> pairs_after_hessian(s, moved, admitted) == s.pairs
            && pairs_after_first_order(s, inner_pushed, moved, admitted) == s.pairs,
        (s.memory == MemoryKind::Lbfgs && s.pairs > 0 && !inner_pushed && moved && !admitted)
            ==> pairs_after_first_order(s, inner_pushed, moved, admitted) == s.pairs - 1,
{
}

/// The C method tags that the one-shot first-order entry refuses are
/// exactly those whose session refuses a first-order step.
pub proof fn lemma_c_hessian_tags_match_sessions(m: rgmin_method_t, memory: usize)
    ensures
        (m == rgmin_method_t::RGMIN_NEWTON || m == rgmin_method_t::RGMIN_RFO || m
            == rgmin_method_t::RGMIN_DOGLEG) <==> step_route_of(
            memory_kind_of(method_of(m, memory)),
        ) == StepRoute::NeedHessian,
{
}

} // verus!
