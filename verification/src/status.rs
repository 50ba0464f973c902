//! Tri-loop system assessment. Whether each subsystem is present, and how
//! recently the shared state was updated, are capability probes the hosting
//! layer performs; this module holds the decision they feed.

use vstd::prelude::*;

verus! {

/// A state update within this many seconds counts as a detected correlation.
pub const RECENT_WINDOW_SECS: u64 = 300;

/// Status of the three tri-loop subsystems and of cross-loop correlation.
#[derive(Debug, Clone, Copy, PartialEq, Eq, Structural)]
pub struct TriLoopStatus {
    pub mcp_active: bool,
    pub gemini_connected: bool,
    pub codex_generating: bool,
    pub correlation_detected: bool,
}

/// Assesses the tri-loop system from three subsystem-presence flags and the
/// age in seconds of the last shared-state update, if any. Correlation is
/// detected exactly when the state was updated within the recency window.
pub fn assess_tri_loop_system(
    oracle_active: bool,
    print_active: bool,
    button_active: bool,
    state_age_secs: Option<u64>,
) -> (r: TriLoopStatus)
    ensures
        r.mcp_active == oracle_active,
        r.gemini_connected == print_active,
        r.codex_generating == button_active,
        r.correlation_detected == (state_age_secs is Some && state_age_secs->0
            < RECENT_WINDOW_SECS),
{
    let correlation_detected = match state_age_secs {
        Some(age) => age < RECENT_WINDOW_SECS,
        None => false,
    };
    TriLoopStatus {
        mcp_active: oracle_active,
        gemini_connected: print_active,
        codex_generating: button_active,
        correlation_detected,
    }
}

} // verus!
