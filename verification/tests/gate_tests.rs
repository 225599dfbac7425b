use grpc_vision_svc::gate::AdmissionGate;

#[test]
fn gate_grants_up_to_capacity() {
    // With capacity 16, sixteen concurrent requests hold permits and the
    // seventeenth is refused until one of them releases.
    let mut gate = AdmissionGate::new(16);
    for _ in 0..16 {
        assert!(gate.try_acquire());
    }
    assert_eq!(gate.in_use(), 16);
    assert!(!gate.try_acquire());
    assert_eq!(gate.in_use(), 16);

    gate.release();
    assert!(gate.try_acquire());
    assert_eq!(gate.in_use(), 16);
}

#[test]
fn gate_release_frees_one_permit() {
    let mut gate = AdmissionGate::new(2);
    assert!(gate.try_acquire());
    assert!(gate.try_acquire());
    assert!(!gate.try_acquire());
    gate.release();
    assert_eq!(gate.in_use(), 1);
    assert!(gate.try_acquire());
    assert!(!gate.try_acquire());
}

#[test]
fn zero_capacity_gate_grants_nothing() {
    let mut gate = AdmissionGate::new(0);
    assert!(!gate.try_acquire());
    assert_eq!(gate.in_use(), 0);
    assert_eq!(gate.capacity(), 0);
}

#[test]
fn gate_reports_its_capacity() {
    let gate = AdmissionGate::new(16);
    assert_eq!(gate.capacity(), 16);
    assert_eq!(gate.in_use(), 0);
}
