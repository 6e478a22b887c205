use rgmin::ffi::{
    accept_from_c, conjugacy_from_c, cpu_f64_len, manifold_from_c, method_from_c,
    method_needs_hessian, qn_step_from_c, rgmin_abi_compatible, rgmin_abi_stamp, rgmin_accept_t,
    rgmin_manifold_t, rgmin_method_t, rgmin_qn_step_t, rgmin_status_t, status_from_error,
    TensorHeader, check_tensor, TensorRefusal,
};
use rgmin::{Accept, Conjugacy, Error, FireKind, ManifoldKind, Method, NewtonKind, QnStep};

#[test]
fn conjugacy_from_c_is_dest_leaf_order() {
    assert_eq!(conjugacy_from_c(0).unwrap(), Conjugacy::FletcherReeves);
    assert_eq!(conjugacy_from_c(1).unwrap(), Conjugacy::PolakRibiere);
    assert_eq!(conjugacy_from_c(2).unwrap(), Conjugacy::HestenesStiefel);
    assert_eq!(conjugacy_from_c(3).unwrap(), Conjugacy::DaiYuan);
    assert_eq!(conjugacy_from_c(4).unwrap(), Conjugacy::ConjugateDescent);
    assert_eq!(conjugacy_from_c(5).unwrap(), Conjugacy::HagerZhang);
    assert_eq!(conjugacy_from_c(6).unwrap(), Conjugacy::LiuStorey);
    assert_eq!(conjugacy_from_c(7).unwrap(), Conjugacy::FrPr);
    assert_ne!(conjugacy_from_c(7).unwrap(), {
        Conjugacy::hybrid(Conjugacy::FletcherReeves, Conjugacy::PolakRibiere, true)
    });
}

#[test]
fn conjugacy_from_c_rejects_unknown_codes() {
    for raw in [-1, 8, 99, 13, i32::MIN, i32::MAX] {
        assert_eq!(
            conjugacy_from_c(raw),
            Err(rgmin_status_t::RGMIN_INVALID_PARAMETER)
        );
    }
}

#[test]
fn abi_stamp_identifies_this_optimizer_layout() {
    let stamp = rgmin_abi_stamp();
    assert_eq!(stamp.abi_major, 1);
    assert_eq!(stamp.abi_minor, 20);
    assert_eq!(stamp.layout_revision, 4);
    assert_eq!(rgmin_abi_compatible(Some(&stamp)), 1);
}

#[test]
fn abi_stamp_rejects_an_incompatible_layout() {
    let mut stamp = rgmin_abi_stamp();
    stamp.layout_revision += 1;
    assert_eq!(rgmin_abi_compatible(Some(&stamp)), 0);
}

#[test]
fn abi_stamp_ignores_minor() {
    let mut stamp = rgmin_abi_stamp();
    stamp.abi_minor = stamp.abi_minor.saturating_add(1);
    assert_eq!(rgmin_abi_compatible(Some(&stamp)), 1);
}

#[test]
fn abi_stamp_null_and_major_mismatch_are_refused() {
    assert_eq!(rgmin_abi_compatible(None), 0);
    let mut stamp = rgmin_abi_stamp();
    stamp.abi_major = 2;
    assert_eq!(rgmin_abi_compatible(Some(&stamp)), 0);
}

fn cpu_vector(len: i64) -> TensorHeader {
    TensorHeader {
        device_type: 1,
        ndim: 1,
        dtype_code: 2,
        dtype_bits: 64,
        dtype_lanes: 1,
        shape0: Some(len),
        data_null: false,
        stride0: Some(1),
    }
}

#[test]
fn cuda_tag_is_unsupported() {
    let mut h = cpu_vector(2);
    h.device_type = 2;
    assert_eq!(cpu_f64_len(Some(&h)), Err(rgmin_status_t::RGMIN_UNSUPPORTED_DEVICE));
}

#[test]
fn tensor_verdicts() {
    assert_eq!(cpu_f64_len(Some(&cpu_vector(2))), Ok(2));
    assert_eq!(cpu_f64_len(None), Err(rgmin_status_t::RGMIN_INVALID_PARAMETER));
    assert_eq!(cpu_f64_len(Some(&cpu_vector(0))), Err(rgmin_status_t::RGMIN_INVALID_PARAMETER));
    let mut h = cpu_vector(3);
    h.stride0 = None;
    assert_eq!(cpu_f64_len(Some(&h)), Ok(3));
    h.stride0 = Some(2);
    assert_eq!(cpu_f64_len(Some(&h)), Err(rgmin_status_t::RGMIN_INVALID_PARAMETER));
    let mut h = cpu_vector(3);
    h.dtype_bits = 32;
    assert_eq!(cpu_f64_len(Some(&h)), Err(rgmin_status_t::RGMIN_INVALID_PARAMETER));
    let mut h = cpu_vector(3);
    h.ndim = 2;
    assert_eq!(cpu_f64_len(Some(&h)), Err(rgmin_status_t::RGMIN_INVALID_PARAMETER));
    let mut h = cpu_vector(3);
    h.shape0 = None;
    assert_eq!(cpu_f64_len(Some(&h)), Err(rgmin_status_t::RGMIN_INVALID_PARAMETER));
    let mut h = cpu_vector(3);
    h.data_null = true;
    assert_eq!(cpu_f64_len(Some(&h)), Err(rgmin_status_t::RGMIN_INVALID_PARAMETER));
    let mut h = cpu_vector(3);
    h.dtype_code = 0;
    h.device_type = 2;
    assert_eq!(cpu_f64_len(Some(&h)), Err(rgmin_status_t::RGMIN_UNSUPPORTED_DEVICE));
}

#[test]
fn status_of_each_error() {
    assert_eq!(
        status_from_error(&Error::Oracle { what: "nan" }),
        rgmin_status_t::RGMIN_INTERNAL_ERROR
    );
    assert_eq!(
        status_from_error(&Error::EigenUnavailable { kind: "elpa" }),
        rgmin_status_t::RGMIN_UNAVAILABLE
    );
    assert_eq!(
        status_from_error(&Error::Dim { got: 1, dim: 2 }),
        rgmin_status_t::RGMIN_INVALID_PARAMETER
    );
    assert_eq!(
        status_from_error(&Error::ManifoldDim { kind: "so3", got: 6 }),
        rgmin_status_t::RGMIN_INVALID_PARAMETER
    );
    assert_eq!(
        status_from_error(&Error::Highs("x".to_string())),
        rgmin_status_t::RGMIN_INVALID_PARAMETER
    );
    assert_eq!(status_from_error(&Error::NeedHessian), rgmin_status_t::RGMIN_INVALID_PARAMETER);
}

#[test]
fn method_tags_decode() {
    assert_eq!(method_from_c(rgmin_method_t::RGMIN_LBFGS, 0), Method::Lbfgs { memory: 10 });
    assert_eq!(method_from_c(rgmin_method_t::RGMIN_LBFGS, 5), Method::Lbfgs { memory: 5 });
    assert_eq!(
        method_from_c(rgmin_method_t::RGMIN_POLAK_RIBIERE, 3),
        Method::Nlcg { conjugacy: Conjugacy::PolakRibiere }
    );
    assert_eq!(
        method_from_c(rgmin_method_t::RGMIN_FR_PR, 3),
        Method::Nlcg { conjugacy: Conjugacy::FrPr }
    );
    assert_eq!(
        method_from_c(rgmin_method_t::RGMIN_RFO, 0),
        Method::Newton { kind: NewtonKind::Rfo }
    );
    assert_eq!(
        method_from_c(rgmin_method_t::RGMIN_FIRE2, 0),
        Method::Fire { kind: FireKind::V2 }
    );
    assert_eq!(method_from_c(rgmin_method_t::RGMIN_DOGLEG, 0), Method::Dogleg);
    assert!(method_needs_hessian(rgmin_method_t::RGMIN_NEWTON));
    assert!(method_needs_hessian(rgmin_method_t::RGMIN_DOGLEG));
    assert!(!method_needs_hessian(rgmin_method_t::RGMIN_LBFGS));
}

#[test]
fn session_tags_decode() {
    assert_eq!(qn_step_from_c(rgmin_qn_step_t::RGMIN_QN_LBFGS), QnStep::TwoLoop);
    assert_eq!(qn_step_from_c(rgmin_qn_step_t::RGMIN_QN_RFO), QnStep::Rfo);
    assert_eq!(accept_from_c(rgmin_accept_t::RGMIN_ACCEPT_NONE), Accept::Always);
    assert_eq!(accept_from_c(rgmin_accept_t::RGMIN_ACCEPT_ENERGY), Accept::Energy);
    assert_eq!(
        manifold_from_c(rgmin_manifold_t::RGMIN_MANIFOLD_OBLIQUE),
        ManifoldKind::Oblique { n: 0, m: 0 }
    );
    assert_eq!(
        manifold_from_c(rgmin_manifold_t::RGMIN_MANIFOLD_MULTINOMIAL_DS),
        ManifoldKind::MultinomialDoublyStochastic { n: 2 }
    );
    assert_eq!(
        manifold_from_c(rgmin_manifold_t::RGMIN_MANIFOLD_EUCLIDEAN),
        ManifoldKind::Euclidean
    );
}

#[test]
fn tensor_refusals_name_the_failed_check() {
    assert_eq!(check_tensor(None), Err(TensorRefusal::Null));
    let mut h = cpu_vector(3);
    h.device_type = 10;
    h.ndim = 2;
    assert_eq!(check_tensor(Some(&h)), Err(TensorRefusal::Device(10)));
    assert_eq!(
        TensorRefusal::Device(10).status(),
        rgmin_status_t::RGMIN_UNSUPPORTED_DEVICE
    );
    let mut h = cpu_vector(3);
    h.dtype_lanes = 2;
    assert_eq!(check_tensor(Some(&h)), Err(TensorRefusal::Layout));
    assert_eq!(check_tensor(Some(&cpu_vector(0))), Err(TensorRefusal::Empty));
    let mut h = cpu_vector(3);
    h.stride0 = Some(-1);
    assert_eq!(check_tensor(Some(&h)), Err(TensorRefusal::Stride));
    assert_eq!(
        TensorRefusal::Stride.status(),
        rgmin_status_t::RGMIN_INVALID_PARAMETER
    );
    assert_eq!(check_tensor(Some(&cpu_vector(5))), Ok(5));
}
