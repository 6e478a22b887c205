use rgmin::ffi::{method_from_c, method_needs_hessian, rgmin_method_t};
use rgmin::session::{memory_kind, HessRoute, MemoryKind, Session, StepRoute};
use rgmin::{Accept, Conjugacy, Error, FireKind, ManifoldKind, Method, NewtonKind, QnStep};

#[test]
fn fresh_session_is_cold_euclidean_two_loop() {
    let s = Session::new(&Method::Lbfgs { memory: 5 }, 6);
    assert_eq!(s.steps(), 0);
    assert!(!s.is_warm());
    assert_eq!(s.manifold(), ManifoldKind::Euclidean);
    assert_eq!(s.hess_route(), HessRoute::Preconditioned);
    assert!(s.tunes_lbfgs());
}

#[test]
fn each_method_carries_its_own_state() {
    assert_eq!(
        memory_kind(&Method::Nlcg {
            conjugacy: Conjugacy::DaiYuan
        }),
        MemoryKind::Nlcg
    );
    assert_eq!(memory_kind(&Method::Pso), MemoryKind::Pso);
    assert_eq!(
        memory_kind(&Method::Fire { kind: FireKind::V2 }),
        MemoryKind::Fire(FireKind::V2)
    );
    assert_eq!(
        memory_kind(&Method::Newton {
            kind: NewtonKind::Rfo
        }),
        MemoryKind::Newton(NewtonKind::Rfo)
    );
}

#[test]
fn first_order_step_refuses_newton_and_dogleg_sessions() {
    for m in [
        Method::Newton {
            kind: NewtonKind::Shifted,
        },
        Method::Newton {
            kind: NewtonKind::Rfo,
        },
        Method::Dogleg,
    ] {
        assert_eq!(Session::new(&m, 2).step_route(), StepRoute::NeedHessian);
    }
    assert_eq!(Session::new(&Method::Pso, 2).step_route(), StepRoute::Swarm);
    assert_eq!(
        Session::new(&Method::Bb, 2).step_route(),
        StepRoute::Update(MemoryKind::Bb)
    );
}

#[test]
fn hessian_step_routes() {
    let mut s = Session::new(&Method::Lbfgs { memory: 10 }, 3);
    s.set_qn_step(QnStep::Newton);
    assert_eq!(s.hess_route(), HessRoute::Newton(NewtonKind::Shifted));
    s.set_qn_step(QnStep::Rfo);
    assert_eq!(s.hess_route(), HessRoute::Newton(NewtonKind::Rfo));
    assert_eq!(
        Session::new(&Method::Dogleg, 3).hess_route(),
        HessRoute::Dogleg
    );
    let mut b = Session::new(&Method::Bfgs, 3);
    b.set_qn_step(QnStep::Rfo);
    assert_eq!(b.hess_route(), HessRoute::FirstOrder);
    assert!(!b.tunes_lbfgs());
}

#[test]
fn changing_the_manifold_forgets_and_keeping_it_does_not() {
    let mut s = Session::new(&Method::Lbfgs { memory: 10 }, 4);
    s.record_step(true, true, true, 0);
    assert!(s.is_warm());
    assert_eq!(s.steps(), 1);
    s.set_manifold(ManifoldKind::Euclidean);
    assert!(s.is_warm());
    s.set_manifold(ManifoldKind::Oblique { n: 2, m: 2 });
    assert!(!s.is_warm());
    assert_eq!(s.manifold(), ManifoldKind::Oblique { n: 2, m: 2 });
    s.record_step(true, true, true, 0);
    s.set_manifold(ManifoldKind::Oblique { n: 2, m: 2 });
    assert!(s.is_warm());
    assert_eq!(s.steps(), 2);
}

#[test]
fn forget_makes_the_next_step_cold_and_keeps_the_count() {
    let mut s = Session::new(&Method::Steepest, 2);
    s.record_step(true, true, true, 0);
    s.record_step(true, true, true, 0);
    s.set_accept(Accept::Energy);
    s.forget();
    assert!(!s.is_warm());
    assert_eq!(s.steps(), 2);
}

#[test]
fn dimension_check_names_the_iterate_and_the_session() {
    let s = Session::new(&Method::Sr1, 3);
    assert_eq!(s.check_dim(3, 3), Ok(()));
    assert_eq!(s.check_dim(4, 3), Err(Error::Dim { got: 4, dim: 3 }));
    assert_eq!(s.check_dim(3, 5), Err(Error::Dim { got: 3, dim: 3 }));
}

#[test]
fn c_hessian_tags_are_the_sessions_that_refuse_a_first_order_step() {
    let all = [
        rgmin_method_t::RGMIN_POLAK_RIBIERE,
        rgmin_method_t::RGMIN_LBFGS,
        rgmin_method_t::RGMIN_PSO,
        rgmin_method_t::RGMIN_NEWTON,
        rgmin_method_t::RGMIN_RFO,
        rgmin_method_t::RGMIN_FIRE,
        rgmin_method_t::RGMIN_DOGLEG,
        rgmin_method_t::RGMIN_FIRE2,
    ];
    for m in all {
        let s = Session::new(&method_from_c(m, 0), 2);
        assert_eq!(
            method_needs_hessian(m),
            s.step_route() == StepRoute::NeedHessian
        );
    }
}

#[test]
fn highs_centring_needs_rigid_projection_and_a_cartesian_length() {
    let mut s = Session::new(&Method::Lbfgs { memory: 10 }, 9);
    assert_eq!(s.highs_center_axes(), None);
    s.set_project_rigid(true);
    assert_eq!(s.highs_center_axes(), Some((3, 3)));
    let mut t = Session::new(&Method::Lbfgs { memory: 10 }, 10);
    t.set_project_rigid(true);
    assert_eq!(t.highs_center_axes(), None);
    t.set_periodic(true);
    assert_eq!(t.highs_center_axes(), None);
}

/// A steepest-descent session of dimension `n` on `kind`, asked to step
/// an `n`-vector: the session's own refusal.
fn step_refusal(kind: ManifoldKind, n: usize) -> (String, usize) {
    let mut s = Session::new(&Method::Steepest, n);
    s.set_manifold(kind);
    let before = s.steps();
    let r = s.step_preflight(n, n);
    assert_eq!(s.steps(), before);
    match r {
        Err(Error::ManifoldDim { kind, got }) => (kind.to_string(), got),
        other => panic!("expected ManifoldDim, got {other:?}"),
    }
}

#[test]
fn oblique_rejects_a_3n_cluster() {
    assert_eq!(
        step_refusal(ManifoldKind::oblique(3, 2), 114),
        ("oblique".to_string(), 114)
    );
}

#[test]
fn multinomial_rejects_a_point() {
    assert_eq!(
        step_refusal(ManifoldKind::Multinomial, 1),
        ("multinomial".to_string(), 1)
    );
}

#[test]
fn multinomial_ds_rejects_a_wrong_length() {
    assert_eq!(
        step_refusal(ManifoldKind::multinomial_ds(2), 1),
        ("multinomialdoublystochastic".to_string(), 1)
    );
}

#[test]
fn so3_rejects_a_3n_cluster() {
    assert_eq!(step_refusal(ManifoldKind::So3, 6), ("so3".to_string(), 6));
}

#[test]
fn se3_rejects_a_3n_cluster() {
    assert_eq!(step_refusal(ManifoldKind::Se3, 114), ("se3".to_string(), 114));
}

#[test]
fn complex_circle_rejects_a_3n_cluster() {
    assert_eq!(
        step_refusal(ManifoldKind::complex_circle(2), 114),
        ("complex_circle".to_string(), 114)
    );
}

#[test]
fn symmetric_rejects_a_3n_cluster() {
    assert_eq!(
        step_refusal(ManifoldKind::Symmetric, 114),
        ("symmetric".to_string(), 114)
    );
}

#[test]
fn euclidean_complex_rejects_a_3n_cluster() {
    assert_eq!(
        step_refusal(ManifoldKind::euclidean_complex(2), 114),
        ("euclidean_complex".to_string(), 114)
    );
}

#[test]
fn constant_rejects_a_3n_cluster() {
    assert_eq!(
        step_refusal(ManifoldKind::constant(2), 114),
        ("constant".to_string(), 114)
    );
}

#[test]
fn skewsymmetric_rejects_a_3n_cluster() {
    assert_eq!(
        step_refusal(ManifoldKind::SkewSymmetric, 114),
        ("skewsymmetric".to_string(), 114)
    );
}

#[test]
fn a_fresh_session_steps_on_the_euclidean_default() {
    let s = Session::new(&Method::Lbfgs { memory: 10 }, 2);
    assert_eq!(s.manifold(), ManifoldKind::Euclidean);
    assert_eq!(s.step_preflight(2, 2), Ok(()));
}

#[test]
fn geometries_accept_their_packed_lengths() {
    let ok = |k: ManifoldKind, n: usize| {
        let mut s = Session::new(&Method::Steepest, n);
        s.set_manifold(k);
        s.step_preflight(n, n).is_ok()
    };
    assert!(ok(ManifoldKind::So3, 9));
    assert!(ok(ManifoldKind::Se3, 12));
    assert!(ok(ManifoldKind::multinomial_ds(2), 4));
    assert!(ok(ManifoldKind::Symmetric, 9));
    assert!(ok(ManifoldKind::constant(2), 2));
    assert!(ok(ManifoldKind::oblique(3, 2), 6));
    assert!(ok(ManifoldKind::RigidQuotient, 114));
    assert!(ok(ManifoldKind::Stiefel, 7));
    assert!(ok(ManifoldKind::stiefel(4, 2), 8));
    assert!(!ok(ManifoldKind::stiefel(4, 2), 7));
}

#[test]
fn dimension_refusal_comes_before_the_geometry() {
    let mut s = Session::new(&Method::Steepest, 6);
    s.set_manifold(ManifoldKind::oblique(3, 2));
    assert_eq!(
        s.step_preflight(7, 6),
        Err(Error::Dim { got: 7, dim: 6 })
    );
    assert_eq!(s.step_preflight(6, 6), Ok(()));
    s.set_manifold(ManifoldKind::oblique(2, 2));
    assert!(matches!(
        s.step_preflight(6, 6),
        Err(Error::ManifoldDim { got: 6, .. })
    ));
}

#[test]
fn geometry_setters_pick_their_kind_and_forget_on_change() {
    let mut s = Session::new(&Method::Bb, 6);
    s.record_step(true, true, true, 0);
    s.set_stiefel(6, 1);
    assert_eq!(s.manifold(), ManifoldKind::Stiefel);
    assert!(!s.is_warm());
    s.set_stiefel(3, 2);
    assert_eq!(s.manifold(), ManifoldKind::StiefelP { n: 3, p: 2 });
    s.set_oblique(3, 2);
    assert_eq!(s.manifold(), ManifoldKind::Oblique { n: 3, m: 2 });
    s.set_complex_circle(3);
    assert_eq!(s.manifold(), ManifoldKind::ComplexCircle { n: 3 });
    s.set_euclidean_complex(3);
    assert_eq!(s.manifold(), ManifoldKind::EuclideanComplex { n: 3 });
    s.set_constant(6);
    assert_eq!(s.manifold(), ManifoldKind::Constant { n: 6 });
    s.record_step(true, true, true, 0);
    s.set_constant(6);
    assert!(s.is_warm());
    s.set_multinomial_ds(2);
    assert_eq!(
        s.manifold(),
        ManifoldKind::MultinomialDoublyStochastic { n: 2 }
    );
    assert!(!s.is_warm());
}

#[test]
fn lbfgs_pairs_grow_to_the_memory_and_forget_empties_them() {
    let mut s = Session::new(&Method::Lbfgs { memory: 2 }, 3);
    assert_eq!(s.pairs(), 0);
    // Update pair stored, then replaced by an admitted Riemannian pair.
    s.record_step(true, true, true, 1);
    assert_eq!(s.pairs(), 1);
    // The iterate did not move: only the update's own pair counts.
    s.record_step(true, false, true, 2);
    assert_eq!(s.pairs(), 2);
    s.record_step(true, true, true, 3);
    assert_eq!(s.pairs(), 2);
    assert_eq!(s.history(), 3);
    assert!(s.is_started());
    s.forget();
    assert_eq!(s.pairs(), 0);
    assert_eq!(s.history(), 0);
    assert!(!s.is_started());
    assert!(!s.is_warm());
    assert_eq!(s.steps(), 3);
    assert_eq!(s.manifold(), ManifoldKind::Euclidean);
}

#[test]
fn a_refused_riemannian_pair_drops_the_newest() {
    let mut s = Session::new(&Method::Lbfgs { memory: 5 }, 3);
    s.record_hess_step(true, true, 0);
    s.record_hess_step(true, true, 0);
    assert_eq!(s.pairs(), 2);
    // Both curvature tests refuse: the newest stored pair is lost.
    s.record_step(false, true, false, 0);
    assert_eq!(s.pairs(), 1);
    // The update's pair refused, the Riemannian pair admitted: same count.
    s.record_step(false, true, true, 0);
    assert_eq!(s.pairs(), 1);
    // A Hessian step that did not move stores nothing.
    s.record_hess_step(false, true, 0);
    assert_eq!(s.pairs(), 1);
    assert_eq!(s.steps(), 5);
}

#[test]
fn other_methods_hold_no_pairs_and_restart_on_forget() {
    let mut s = Session::new(&Method::Nlcg { conjugacy: Conjugacy::PolakRibiere }, 3);
    s.record_step(true, true, true, 0);
    assert_eq!(s.pairs(), 0);
    assert!(s.is_started());
    s.set_manifold(ManifoldKind::Sphere);
    assert!(!s.is_started());
    let mut z = Session::new(&Method::Lbfgs { memory: 0 }, 3);
    z.record_step(true, true, true, 0);
    z.record_step(true, true, true, 0);
    assert_eq!(z.pairs(), 1);
}
