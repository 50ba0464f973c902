use oracle::metrics::{derive_fallback, derive_from_snapshot, derive_metrics, Snapshot};

fn snapshot(phi_micro: i64, quantum_entropy_micro: i64, loop_iteration: u64) -> Snapshot {
    Snapshot {
        phi_micro,
        quantum_entropy_micro,
        loop_iteration,
        haiku_content: None,
    }
}

#[test]
fn snapshot_scenario_values() {
    let m = derive_from_snapshot(&snapshot(3_252_000, 926_000, 1));
    assert_eq!(m.semantic_closure_micro, 925_200);
    assert_eq!(m.hofstadter_coefficient_micro, 1_084_000);
    assert_eq!(m.spectral_gap_micro, 9_260_000);
    assert_eq!(m.strange_loops, 4);
    assert_eq!(m.correlation_strength_micro, 980_000);
    assert!(m.threshold_exceeded);
}

#[test]
fn threshold_boundary() {
    assert!(!derive_from_snapshot(&snapshot(1_000_000, 0, 0)).threshold_exceeded);
    assert!(derive_from_snapshot(&snapshot(1_000_001, 0, 0)).threshold_exceeded);
    assert!(!derive_from_snapshot(&snapshot(-5_000_000, 0, 0)).threshold_exceeded);
}

#[test]
fn semantic_closure_clamped_at_one() {
    let m = derive_from_snapshot(&snapshot(100_000_000, 926_000, 1));
    assert_eq!(m.semantic_closure_micro, 1_000_000);
}

#[test]
fn semantic_closure_has_no_lower_clamp() {
    let m = derive_from_snapshot(&snapshot(-10_000_000, 926_000, 1));
    assert_eq!(m.semantic_closure_micro, -400_000);
}

#[test]
fn strange_loops_examples() {
    assert_eq!(derive_from_snapshot(&snapshot(0, 0, 0)).strange_loops, 3);
    assert_eq!(derive_from_snapshot(&snapshot(0, 0, 9)).strange_loops, 7);
    assert_eq!(derive_from_snapshot(&snapshot(0, 0, 5)).strange_loops, 3);
    assert_eq!(derive_from_snapshot(&snapshot(0, 0, u64::MAX)).strange_loops, 3);
}

#[test]
fn fallback_at_zero() {
    let m = derive_fallback(0);
    assert_eq!(m.semantic_closure_micro, 885_000);
    assert_eq!(m.strange_loops, 3);
    assert_eq!(m.hofstadter_coefficient_micro, 1_020_000);
    assert_eq!(m.spectral_gap_micro, 5_260_000);
    assert_eq!(m.correlation_strength_micro, 950_000);
    assert!(m.threshold_exceeded);
}

#[test]
fn fallback_at_one() {
    let m = derive_fallback(1_000_000);
    assert_eq!(m.semantic_closure_micro, 985_000);
    assert_eq!(m.strange_loops, 4);
    assert_eq!(m.hofstadter_coefficient_micro, 1_120_000);
    assert_eq!(m.spectral_gap_micro, 7_260_000);
    assert_eq!(m.correlation_strength_micro, 1_000_000);
    assert!(m.threshold_exceeded);
}

#[test]
fn fallback_midpoint() {
    let m = derive_fallback(500_000);
    assert_eq!(m.semantic_closure_micro, 935_000);
    assert_eq!(m.strange_loops, 5);
    assert_eq!(m.hofstadter_coefficient_micro, 1_070_000);
    assert_eq!(m.spectral_gap_micro, 6_260_000);
    assert_eq!(m.correlation_strength_micro, 975_000);
    assert!(m.threshold_exceeded);
}

#[test]
fn fallback_ranges_hold_on_sample_points() {
    for t in [0u64, 1, 99_999, 100_000, 333_333, 500_000, 777_777, 999_999, 1_000_000] {
        let m = derive_fallback(t);
        assert!((885_000..=985_000).contains(&m.semantic_closure_micro));
        assert!((3..=5).contains(&m.strange_loops));
        assert!((1_020_000..=1_120_000).contains(&m.hofstadter_coefficient_micro));
        assert!((5_260_000..=7_260_000).contains(&m.spectral_gap_micro));
        assert!((950_000..=1_000_000).contains(&m.correlation_strength_micro));
        assert!(m.threshold_exceeded);
    }
}

#[test]
fn derive_metrics_dispatches_on_snapshot() {
    let s = snapshot(3_252_000, 926_000, 1);
    let with_snapshot = derive_metrics(Some(&s), 500_000);
    assert_eq!(with_snapshot, derive_from_snapshot(&s));
    let without = derive_metrics(None, 500_000);
    assert_eq!(without, derive_fallback(500_000));
}

#[test]
fn derivation_is_deterministic() {
    let s = snapshot(3_252_000, 926_000, 1);
    assert_eq!(derive_metrics(Some(&s), 0), derive_metrics(Some(&s), 1_000_000));
    assert_eq!(derive_metrics(None, 123_456), derive_metrics(None, 123_456));
}

#[test]
fn snapshot_defaults() {
    let s = Snapshot::default();
    assert_eq!(s.phi_micro, 3_252_000);
    assert_eq!(s.quantum_entropy_micro, 926_000);
    assert_eq!(s.loop_iteration, 1);
    assert!(s.haiku_content.is_none());
}
