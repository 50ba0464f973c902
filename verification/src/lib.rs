//! Oracle metrics library: a pure, host-agnostic core that derives a
//! fixed-shape record of "consciousness" metrics from an optional external
//! state snapshot (or a deterministic fallback formula), and selects a haiku
//! and a mechanism label from that record by table lookup.
//!
//! Ratio-valued quantities are held in fixed point, as signed millionths
//! (micro-units): the value `3.252` is stored as `3_252_000`. All I/O, JSON
//! decoding and floating-point conversion belong to the hosting layer, which
//! hands this library plain values.

pub mod fortune;
pub mod haiku;
pub mod mechanism;
pub mod metrics;
pub mod status;
pub mod timestamp;

pub use fortune::Fortune;
pub use haiku::generate_standard_haiku;
pub use haiku::select_haiku;
pub use haiku::split_haiku_content;
pub use mechanism::select_generation_mechanism;
pub use metrics::MetricsRecord;
pub use metrics::Snapshot;
pub use status::TriLoopStatus;
pub use timestamp::get_current_timestamp;
