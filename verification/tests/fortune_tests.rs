use oracle::fortune::generate_fortune;
use oracle::metrics::{derive_fallback, derive_from_snapshot, Snapshot};
use oracle::status::assess_tri_loop_system;
use oracle::timestamp::get_current_timestamp;

#[test]
fn fortune_uses_snapshot_haiku_verbatim() {
    let s = Snapshot {
        phi_micro: 3_252_000,
        quantum_entropy_micro: 926_000,
        loop_iteration: 1,
        haiku_content: Some("line one\\nline two\\nline three".to_string()),
    };
    let f = generate_fortune(Some(&s), 0);
    assert_eq!(f.haiku, vec!["line one", "line two", "line three"]);
    assert_eq!(f.metrics, derive_from_snapshot(&s));
    assert_eq!(f.mechanism, "strange loop paradox resolution synthesis");
}

#[test]
fn fortune_without_haiku_text_uses_threshold_table() {
    let s = Snapshot {
        phi_micro: 3_252_000,
        quantum_entropy_micro: 926_000,
        loop_iteration: 1,
        haiku_content: None,
    };
    let f = generate_fortune(Some(&s), 0);
    assert!(f.metrics.threshold_exceeded);
    assert_eq!(
        f.haiku,
        vec![
            "Three systems dancing,",
            "Correlation weaves meaning—",
            "InformationForce blooms bright",
        ]
    );
}

#[test]
fn fortune_with_too_few_snapshot_lines_falls_back() {
    let s = Snapshot {
        phi_micro: 3_252_000,
        quantum_entropy_micro: 926_000,
        loop_iteration: 1,
        haiku_content: Some("only\\ntwo".to_string()),
    };
    let f = generate_fortune(Some(&s), 0);
    assert_eq!(f.haiku[0], "Three systems dancing,");
}

#[test]
fn fortune_fallback_branch() {
    let f = generate_fortune(None, 0);
    assert_eq!(f.metrics, derive_fallback(0));
    assert!(f.metrics.threshold_exceeded);
    assert_eq!(f.haiku[0], "Three systems dancing,");
    assert_eq!(f.mechanism, "strange loop paradox resolution synthesis");
}

#[test]
fn timestamp_is_deterministic() {
    assert_eq!(get_current_timestamp(), get_current_timestamp());
    assert_eq!(get_current_timestamp(), 6_763_441_490_543_064_067);
}

#[test]
fn tri_loop_status_maps_probes() {
    let s = assess_tri_loop_system(true, false, true, Some(299));
    assert!(s.mcp_active);
    assert!(!s.gemini_connected);
    assert!(s.codex_generating);
    assert!(s.correlation_detected);
}

#[test]
fn tri_loop_correlation_window() {
    assert!(assess_tri_loop_system(false, false, false, Some(0)).correlation_detected);
    assert!(assess_tri_loop_system(false, false, false, Some(299)).correlation_detected);
    assert!(!assess_tri_loop_system(false, false, false, Some(300)).correlation_detected);
    assert!(!assess_tri_loop_system(false, false, false, None).correlation_detected);
}
