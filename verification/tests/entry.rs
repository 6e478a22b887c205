use rgmin::entry::{
    lowest_eigenpair_preflight, minimize_eindir_preflight, minimize_hess_preflight, minimize_preflight,
    minimize_scg_preflight, solver_create_accepts, solver_step_preflight, EntryRefusal,
    StepCallbacks,
};
use rgmin::ffi::{
    eigen_kind_from_c, rgmin_eigen_kind_t, rgmin_method_t, rgmin_status_t, TensorHeader,
    TensorRefusal,
};
use rgmin::Conjugacy;

fn cpu_iterate(len: i64) -> TensorHeader {
    TensorHeader {
        device_type: 1,
        ndim: 1,
        dtype_code: 2,
        dtype_bits: 64,
        dtype_lanes: 1,
        shape0: Some(len),
        data_null: false,
        stride0: None,
    }
}

#[test]
fn minimize_accepts_a_first_order_method_on_a_cpu_iterate() {
    let x = cpu_iterate(2);
    assert_eq!(
        minimize_preflight(true, true, rgmin_method_t::RGMIN_LBFGS, true, true, Some(&x)),
        Ok(2)
    );
}

#[test]
fn minimize_checks_callbacks_before_anything_else() {
    let x = cpu_iterate(2);
    assert_eq!(
        minimize_preflight(false, false, rgmin_method_t::RGMIN_NEWTON, false, false, None),
        Err(EntryRefusal::NullEval)
    );
    assert_eq!(
        minimize_preflight(true, false, rgmin_method_t::RGMIN_LBFGS, true, true, Some(&x)),
        Err(EntryRefusal::NullGrad)
    );
}

#[test]
fn minimize_sends_hessian_methods_to_the_hessian_entry() {
    let x = cpu_iterate(2);
    for m in [
        rgmin_method_t::RGMIN_NEWTON,
        rgmin_method_t::RGMIN_RFO,
        rgmin_method_t::RGMIN_DOGLEG,
    ] {
        let r = minimize_preflight(true, true, m, true, true, Some(&x));
        assert_eq!(r, Err(EntryRefusal::NeedsHessianEntry));
        assert_eq!(
            r.unwrap_err().status(),
            rgmin_status_t::RGMIN_INVALID_PARAMETER
        );
    }
    assert_eq!(
        minimize_preflight(true, true, rgmin_method_t::RGMIN_FIRE2, true, true, Some(&x)),
        Ok(2)
    );
}

#[test]
fn minimize_needs_control_and_report() {
    let x = cpu_iterate(2);
    assert_eq!(
        minimize_preflight(true, true, rgmin_method_t::RGMIN_BFGS, false, true, Some(&x)),
        Err(EntryRefusal::NullCtrlOrOut)
    );
    assert_eq!(
        minimize_preflight(true, true, rgmin_method_t::RGMIN_BFGS, true, false, Some(&x)),
        Err(EntryRefusal::NullCtrlOrOut)
    );
}

#[test]
fn cuda_iterate_is_unsupported_at_every_entry() {
    let mut x = cpu_iterate(2);
    x.device_type = 2;
    let r = minimize_preflight(true, true, rgmin_method_t::RGMIN_LBFGS, true, true, Some(&x));
    assert_eq!(
        r,
        Err(EntryRefusal::Tensor(TensorRefusal::Device(2)))
    );
    assert_eq!(
        r.unwrap_err().status(),
        rgmin_status_t::RGMIN_UNSUPPORTED_DEVICE
    );
    assert_eq!(
        minimize_hess_preflight(true, true, true, true, true, Some(&x))
            .unwrap_err()
            .status(),
        rgmin_status_t::RGMIN_UNSUPPORTED_DEVICE
    );
    assert_eq!(
        solver_step_preflight(
            true,
            StepCallbacks::Fused { evalgrad: true },
            true,
            Some(&x)
        )
        .unwrap_err()
        .status(),
        rgmin_status_t::RGMIN_UNSUPPORTED_DEVICE
    );
}

#[test]
fn null_iterate_is_an_invalid_parameter() {
    assert_eq!(
        minimize_preflight(true, true, rgmin_method_t::RGMIN_LBFGS, true, true, None),
        Err(EntryRefusal::Tensor(TensorRefusal::Null))
    );
}

#[test]
fn scg_null_params_is_polak_ribiere() {
    let x = cpu_iterate(2);
    assert_eq!(
        minimize_scg_preflight(true, true, true, true, Some(&x), None),
        Ok((2, Conjugacy::PolakRibiere))
    );
}

#[test]
fn scg_zero_conjugacy_is_fletcher_reeves() {
    let x = cpu_iterate(2);
    assert_eq!(
        minimize_scg_preflight(true, true, true, true, Some(&x), Some(0)),
        Ok((2, Conjugacy::FletcherReeves))
    );
}

#[test]
fn scg_unknown_conjugacy_is_invalid() {
    let x = cpu_iterate(2);
    let r = minimize_scg_preflight(true, true, true, true, Some(&x), Some(99));
    assert_eq!(r, Err(EntryRefusal::UnknownConjugacy(99)));
    assert_eq!(
        r.unwrap_err().status(),
        rgmin_status_t::RGMIN_INVALID_PARAMETER
    );
}

#[test]
fn scg_method_codes_are_not_conjugacy_codes() {
    let x = cpu_iterate(2);
    // RGMIN_FIRE and RGMIN_LIU_STOREY as C integers.
    for raw in [17, 13] {
        assert_eq!(
            minimize_scg_preflight(true, true, true, true, Some(&x), Some(raw)),
            Err(EntryRefusal::UnknownConjugacy(raw))
        );
    }
}

#[test]
fn scg_checks_the_iterate_before_the_parameter_block() {
    assert_eq!(
        minimize_scg_preflight(true, true, true, true, None, Some(99)),
        Err(EntryRefusal::Tensor(TensorRefusal::Null))
    );
    assert_eq!(
        minimize_scg_preflight(true, true, false, true, None, Some(99)),
        Err(EntryRefusal::NullCtrlOrOut)
    );
}

#[test]
fn hess_entry_needs_all_three_callbacks() {
    let x = cpu_iterate(3);
    assert_eq!(
        minimize_hess_preflight(true, true, false, true, true, Some(&x)),
        Err(EntryRefusal::NullHess)
    );
    assert_eq!(
        minimize_hess_preflight(true, true, true, true, true, Some(&x)),
        Ok(3)
    );
}

#[test]
fn eindir_rejects_incompatible_stamp_before_the_iterate() {
    assert_eq!(
        minimize_eindir_preflight(true, false, true, None, 2),
        Err(EntryRefusal::IncompatibleStamp)
    );
    assert_eq!(
        minimize_eindir_preflight(false, false, false, None, 2),
        Err(EntryRefusal::NullArgument)
    );
    assert_eq!(
        minimize_eindir_preflight(true, true, false, None, 2),
        Err(EntryRefusal::NoGradient)
    );
}

#[test]
fn eindir_iterate_must_match_the_objective_dimension() {
    let x = cpu_iterate(3);
    assert_eq!(
        minimize_eindir_preflight(true, true, true, Some(&x), 2),
        Err(EntryRefusal::DimMismatch { got: 3, dim: 2 })
    );
    assert_eq!(
        minimize_eindir_preflight(true, true, true, Some(&x), 3),
        Ok(3)
    );
}

#[test]
fn step_entries_check_session_callbacks_report_then_iterate() {
    let x = cpu_iterate(4);
    assert_eq!(
        solver_step_preflight(
            false,
            StepCallbacks::Split { eval: false, grad: false },
            false,
            None
        ),
        Err(EntryRefusal::NullSolver)
    );
    assert_eq!(
        solver_step_preflight(
            true,
            StepCallbacks::SplitHess { eval: true, grad: true, hess: false },
            true,
            Some(&x)
        ),
        Err(EntryRefusal::NullHess)
    );
    assert_eq!(
        solver_step_preflight(
            true,
            StepCallbacks::FusedHess { evalgrad: false, hess: false },
            true,
            Some(&x)
        ),
        Err(EntryRefusal::NullEvalGrad)
    );
    assert_eq!(
        solver_step_preflight(
            true,
            StepCallbacks::Split { eval: true, grad: true },
            false,
            Some(&x)
        ),
        Err(EntryRefusal::NullOut)
    );
    assert_eq!(
        solver_step_preflight(
            true,
            StepCallbacks::Split { eval: true, grad: true },
            true,
            Some(&x)
        ),
        Ok(4)
    );
}

#[test]
fn solver_create_needs_control_and_a_positive_dimension() {
    assert!(solver_create_accepts(true, 2));
    assert!(!solver_create_accepts(false, 2));
    assert!(!solver_create_accepts(true, 0));
}

#[test]
fn lowest_eigenpair_null_params_is_lanczos() {
    let x = cpu_iterate(3);
    assert_eq!(
        lowest_eigenpair_preflight(true, true, Some(&x), Some(&x), Some(&x), None),
        Ok((3, rgmin_eigen_kind_t::RGMIN_EIGEN_LANCZOS))
    );
    assert_eq!(
        lowest_eigenpair_preflight(true, true, Some(&x), Some(&x), Some(&x), Some(7)),
        Ok((3, rgmin_eigen_kind_t::RGMIN_EIGEN_ELPA))
    );
}

#[test]
fn lowest_eigenpair_checks_in_order() {
    let x = cpu_iterate(3);
    let y = cpu_iterate(4);
    let mut cuda = cpu_iterate(3);
    cuda.device_type = 2;
    assert_eq!(
        lowest_eigenpair_preflight(false, false, None, None, None, Some(99)),
        Err(EntryRefusal::NullHvp)
    );
    assert_eq!(
        lowest_eigenpair_preflight(true, false, None, None, None, None),
        Err(EntryRefusal::NullOut)
    );
    assert_eq!(
        lowest_eigenpair_preflight(true, true, None, None, None, None),
        Err(EntryRefusal::Tensor(TensorRefusal::Null))
    );
    let r = lowest_eigenpair_preflight(true, true, Some(&x), Some(&cuda), None, None);
    assert_eq!(r, Err(EntryRefusal::SeedTensor(TensorRefusal::Device(2))));
    assert_eq!(
        r.unwrap_err().status(),
        rgmin_status_t::RGMIN_UNSUPPORTED_DEVICE
    );
    assert_eq!(
        lowest_eigenpair_preflight(true, true, Some(&x), Some(&x), None, None),
        Err(EntryRefusal::ModeTensor(TensorRefusal::Null))
    );
    assert_eq!(
        lowest_eigenpair_preflight(true, true, Some(&x), Some(&x), Some(&y), Some(99)),
        Err(EntryRefusal::LengthMismatch)
    );
    let r = lowest_eigenpair_preflight(true, true, Some(&x), Some(&x), Some(&x), Some(14));
    assert_eq!(r, Err(EntryRefusal::UnknownEigenKind(14)));
    assert_eq!(
        r.unwrap_err().status(),
        rgmin_status_t::RGMIN_INVALID_PARAMETER
    );
}

#[test]
fn eigen_kind_ordinals_are_declaration_order() {
    assert_eq!(eigen_kind_from_c(0), Some(rgmin_eigen_kind_t::RGMIN_EIGEN_LANCZOS));
    assert_eq!(eigen_kind_from_c(5), Some(rgmin_eigen_kind_t::RGMIN_EIGEN_SLEPC));
    assert_eq!(
        eigen_kind_from_c(13),
        Some(rgmin_eigen_kind_t::RGMIN_EIGEN_EIGENEXA)
    );
    assert_eq!(eigen_kind_from_c(14), None);
    assert_eq!(eigen_kind_from_c(-1), None);
    // The field is read by its low byte.
    assert_eq!(eigen_kind_from_c(256 + 7), Some(rgmin_eigen_kind_t::RGMIN_EIGEN_ELPA));
}
