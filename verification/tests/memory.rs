use rgmin::vecops::{cpu, Device, UnsupportedDevice};
use rgmin::{GradNorm, PairMemory, SlepcStKind, Vector};

#[test]
fn memory_keeps_the_newest_pairs_in_order() {
    let mut m = PairMemory::with_capacity(3);
    assert!(m.is_empty());
    for k in 0..5 {
        m.push(k);
    }
    assert_eq!(m.len(), 3);
    assert_eq!(m.pairs(), &vec![2, 3, 4]);
    m.set_max_pairs(1);
    m.trim();
    assert_eq!(m.pairs(), &vec![4]);
    m.set_max_pairs(0);
    m.trim();
    assert_eq!(m.max_pairs(), 1);
    assert_eq!(m.len(), 1);
    assert_eq!(m.pop_newest(), Some(4));
    assert_eq!(m.pop_newest(), None);
    m.push(7);
    m.forget();
    assert!(m.is_empty());
    assert_eq!(PairMemory::<u8>::with_capacity(0).max_pairs(), 1);
    assert_eq!(PairMemory::<u8>::with_capacity(8).max_pairs(), 8);
}

#[test]
fn a_device_without_a_backend_is_refused_not_staged() {
    let cuda = Device { device_type: 2, device_id: 0 };
    let err = Vector::try_on(cuda, vec![0.0; 4]).unwrap_err();
    assert_eq!(err.device_type, 2);
    assert_eq!(err, UnsupportedDevice { device_type: 2 });
}

#[test]
fn a_cpu_vector_keeps_its_entries() {
    let v = Vector::try_on(cpu(), vec![1.0, 2.0]).unwrap();
    assert_eq!(v.device(), Device { device_type: 1, device_id: 0 });
    assert_eq!(v.host_view(), &vec![1.0, 2.0]);
    let w = Vector::from_host(vec![3.0]);
    assert_eq!(w.device(), cpu());
    assert_eq!(w.into_host(), vec![3.0]);
}

#[test]
fn slepc_tokens() {
    for raw in 0u8..=4 {
        let k = SlepcStKind::from_ordinal(raw).unwrap();
        assert_eq!(SlepcStKind::from_ordinal(raw), Some(k));
    }
    assert_eq!(SlepcStKind::from_ordinal(5), None);
    assert_eq!(SlepcStKind::from_ordinal(2), Some(SlepcStKind::Sinvert));
    assert_eq!(SlepcStKind::Cayley.name(), "cayley");
    assert_eq!(SlepcStKind::Default.name(), "default");
    assert!(SlepcStKind::Sinvert.needs_pmat());
    assert!(SlepcStKind::Cayley.needs_pmat());
    assert!(!SlepcStKind::Precond.needs_pmat());
    assert_ne!(GradNorm::Euclidean, GradNorm::Infinity);
}

#[test]
fn replace_newest_swaps_the_last_pair() {
    let mut m = PairMemory::with_capacity(3);
    m.replace_newest(1, true);
    assert_eq!(m.pairs(), &vec![1]);
    m.push(2);
    m.push(3);
    m.replace_newest(9, true);
    assert_eq!(m.pairs(), &vec![1, 2, 9]);
    m.push(4);
    assert_eq!(m.pairs(), &vec![2, 9, 4]);
    m.replace_newest(5, false);
    assert_eq!(m.pairs(), &vec![2, 9]);
}

#[test]
fn replay_visits_every_pair_then_the_newest_again() {
    let mut m = PairMemory::with_capacity(4);
    assert_eq!(m.replay_order(3), Vec::<usize>::new());
    m.push('a');
    m.push('b');
    m.push('c');
    assert_eq!(m.replay_order(0), vec![0, 1, 2]);
    assert_eq!(m.replay_order(2), vec![0, 1, 2, 2, 2]);
}

#[test]
fn zeros_cpu_is_a_host_vector_of_zeros() {
    let v = Vector::zeros_cpu(3, 0.0f64);
    assert_eq!(v.host_view(), &vec![0.0f64, 0.0, 0.0]);
    assert_eq!(v.device(), cpu());
    assert_eq!(v.device().device_type, 1);
}
