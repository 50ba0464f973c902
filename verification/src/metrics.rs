//! Metric derivation: maps an optional external state snapshot, or a
//! time-driven fallback formula, to a fixed-shape record of metrics.
//!
//! All ratio-valued fields are fixed-point integers in micro-units
//! (millionths): `1_000_000` stands for the real value `1.0`.

use vstd::prelude::*;
use vstd::arithmetic::div_mod::{
    lemma_div_is_ordered, lemma_div_is_ordered_by_denominator, lemma_div_nonincreasing,
    lemma_div_pos_is_pos,
};

verus! {

/// One whole unit in micro-units.
pub const MICRO: i64 = 1_000_000;

/// An external state snapshot, as handed over by the hosting layer after it
/// has decoded the backing store. Absent numeric fields are filled with the
/// documented defaults before the snapshot reaches this library.
#[derive(Debug)]
pub struct Snapshot {
    /// Primary driver value, in micro-units (default stands for 3.252).
    pub phi_micro: i64,
    /// Entropy reading, in micro-units (default stands for 0.926).
    pub quantum_entropy_micro: i64,
    /// Loop iteration counter (default 1).
    pub loop_iteration: u64,
    /// Raw haiku text, delimited by literal backslash-n separators.
    pub haiku_content: Option<String>,
}

/// The derived metrics record. Immutable, freshly built on every derivation,
/// with no identity beyond its values.
#[derive(Debug, Clone, Copy, PartialEq, Eq, Structural)]
pub struct MetricsRecord {
    /// Intended range [0, 1] in micro-units; clamped at the upper bound only.
    pub semantic_closure_micro: i64,
    /// Intended range [3, 7].
    pub strange_loops: u32,
    /// Unbounded, in micro-units.
    pub hofstadter_coefficient_micro: i64,
    /// Unbounded, in micro-units.
    pub spectral_gap_micro: i64,
    /// Unbounded, typically near one unit, in micro-units.
    pub correlation_strength_micro: i64,
    /// Whether the driving quantity crossed its threshold.
    pub threshold_exceeded: bool,
}

/// Division truncating toward zero, as the machine's signed division does.
pub open spec fn trunc_div(a: int, b: int) -> int
    recommends
        b >= 1,
{
    if a >= 0 {
        a / b
    } else {
        -((-a) / b)
    }
}

/// Clamps a mathematical integer into the range of `i64`.
pub open spec fn clamp_i64(x: int) -> int {
    if x > i64::MAX as int {
        i64::MAX as int
    } else if x < i64::MIN as int {
        i64::MIN as int
    } else {
        x
    }
}

/// Semantic closure from the snapshot branch: `phi / 10 + 0.6`, clamped at
/// the top to `1.0`, with no lower clamp.
pub open spec fn spec_semantic_closure(phi: int) -> int {
    let raw = trunc_div(phi, 10) + 600_000;
    if raw > MICRO as int {
        MICRO as int
    } else {
        raw
    }
}

/// The metrics computed from a snapshot's numeric fields; this branch never
/// consults a time source.
pub open spec fn snapshot_metrics(phi: int, entropy: int, iter: int) -> MetricsRecord
    recommends
        i64::MIN <= phi <= i64::MAX,
        i64::MIN <= entropy <= i64::MAX,
        0 <= iter,
{
    MetricsRecord {
        semantic_closure_micro: spec_semantic_closure(phi) as i64,
        strange_loops: ((iter % 5) + 3) as u32,
        hofstadter_coefficient_micro: trunc_div(phi, 3) as i64,
        spectral_gap_micro: clamp_i64(entropy * 10) as i64,
        correlation_strength_micro: 980_000,
        threshold_exceeded: phi > MICRO as int,
    }
}

/// The metrics computed by the fallback (simulation) formula from a time
/// factor `t` in `[0, 1]`, given in micro-units.
pub open spec fn fallback_metrics(t: int) -> MetricsRecord
    recommends
        0 <= t <= MICRO as int,
{
    MetricsRecord {
        semantic_closure_micro: (885_000 + t / 10) as i64,
        strange_loops: (3 + ((10 * t) / (MICRO as int)) % 3) as u32,
        hofstadter_coefficient_micro: (1_020_000 + t / 10) as i64,
        spectral_gap_micro: (5_260_000 + 2 * t) as i64,
        correlation_strength_micro: (950_000 + t / 20) as i64,
        threshold_exceeded: 885_000 + t / 10 > 800_000,
    }
}

/// The full derivation: the snapshot branch when a snapshot is present, the
/// fallback formula otherwise.
pub open spec fn derived_metrics(snapshot: Option<&Snapshot>, t: int) -> MetricsRecord {
    match snapshot {
        Some(s) => snapshot_metrics(
            s.phi_micro as int,
            s.quantum_entropy_micro as int,
            s.loop_iteration as int,
        ),
        None => fallback_metrics(t),
    }
}

/// Truncating signed division by a positive divisor.
fn trunc_div_i64(a: i64, b: i64) -> (r: i64)
    requires
        2 <= b,
    ensures
        r as int == trunc_div(a as int, b as int),
        a >= 0 ==> 0 <= r <= a,
        a < 0 ==> a <= r <= 0,
        -4_611_686_018_427_387_904 <= r <= 4_611_686_018_427_387_903,
{
    if a >= 0 {
        let q: u64 = (a as u64) / (b as u64);
        proof {
            lemma_div_pos_is_pos(a as int, b as int);
            lemma_div_nonincreasing(a as int, b as int);
            lemma_div_is_ordered_by_denominator(a as int, 2, b as int);
            lemma_div_is_ordered(a as int, i64::MAX as int, 2);
        }
        q as i64
    } else {
        let m: u128 = (-(a as i128)) as u128;
        let q: u128 = m / (b as u128);
        proof {
            lemma_div_pos_is_pos(m as int, b as int);
            lemma_div_nonincreasing(m as int, b as int);
            lemma_div_is_ordered_by_denominator(m as int, 2, b as int);
            lemma_div_is_ordered(m as int, 9_223_372_036_854_775_808, 2);
        }
        -(q as i64)
    }
}

/// Derives the metrics record from a present snapshot. Pure in the
/// snapshot's numeric fields; the haiku text plays no part here.
pub fn derive_from_snapshot(s: &Snapshot) -> (r: MetricsRecord)
    ensures
        r == snapshot_metrics(
            s.phi_micro as int,
            s.quantum_entropy_micro as int,
            s.loop_iteration as int,
        ),
{
    let q10 = trunc_div_i64(s.phi_micro, 10);
    let raw = q10 + 600_000;
    let sc = if raw > MICRO {
        MICRO
    } else {
        raw
    };
    let product: i128 = (s.quantum_entropy_micro as i128) * 10;
    let gap: i64 = if product > i64::MAX as i128 {
        i64::MAX
    } else if product < i64::MIN as i128 {
        i64::MIN
    } else {
        product as i64
    };
    MetricsRecord {
        semantic_closure_micro: sc,
        strange_loops: ((s.loop_iteration % 5) + 3) as u32,
        hofstadter_coefficient_micro: trunc_div_i64(s.phi_micro, 3),
        spectral_gap_micro: gap,
        correlation_strength_micro: 980_000,
        threshold_exceeded: s.phi_micro > MICRO,
    }
}

/// Derives the metrics record by the fallback formula from a time factor in
/// `[0, 1]` micro-units, as the hosting layer's clock supplies it.
pub fn derive_fallback(t_micro: u64) -> (r: MetricsRecord)
    requires
        t_micro <= MICRO as u64,
    ensures
        r == fallback_metrics(t_micro as int),
{
    proof {
        lemma_div_is_ordered(t_micro as int, MICRO as int, 10);
        lemma_div_is_ordered(t_micro as int, MICRO as int, 20);
    }
    let sc: i64 = (885_000 + t_micro / 10) as i64;
    MetricsRecord {
        semantic_closure_micro: sc,
        strange_loops: (3 + ((10 * t_micro) / 1_000_000) % 3) as u32,
        hofstadter_coefficient_micro: (1_020_000 + t_micro / 10) as i64,
        spectral_gap_micro: (5_260_000 + 2 * t_micro) as i64,
        correlation_strength_micro: (950_000 + t_micro / 20) as i64,
        threshold_exceeded: sc > 800_000,
    }
}

/// Derives the metrics record from an optional snapshot, falling back to the
/// simulation formula when none is available. Obtaining no snapshot is not an
/// error: it selects the fallback branch deterministically.
pub fn derive_metrics(snapshot: Option<&Snapshot>, t_micro: u64) -> (r: MetricsRecord)
    requires
        t_micro <= MICRO as u64,
    ensures
        r == derived_metrics(snapshot, t_micro as int),
{
    match snapshot {
        Some(s) => derive_from_snapshot(s),
        None => derive_fallback(t_micro),
    }
}

/// The threshold flag of the snapshot branch tracks the driver value alone:
/// it is set exactly when `phi` exceeds one unit.
pub proof fn lemma_threshold_tracks_phi(phi: int, entropy: int, iter: int)
    requires
        i64::MIN <= phi <= i64::MAX,
    ensures
        snapshot_metrics(phi, entropy, iter).threshold_exceeded <==> phi > MICRO as int,
{
}

/// Clamp property: the snapshot branch never reports a semantic closure
/// above one unit, whatever the driver value.
pub proof fn lemma_semantic_closure_clamped(phi: int, entropy: int, iter: int)
    requires
        i64::MIN <= phi <= i64::MAX,
    ensures
        snapshot_metrics(phi, entropy, iter).semantic_closure_micro <= MICRO,
{
    if phi >= 0 {
        lemma_div_pos_is_pos(phi, 10);
    } else {
        lemma_div_nonincreasing(-phi, 10);
    }
}

/// The strange-loop count of the snapshot branch always lies in [3, 7].
pub proof fn lemma_strange_loops_in_range(phi: int, entropy: int, iter: int)
    requires
        i64::MIN <= phi <= i64::MAX,
        0 <= iter,
    ensures
        3 <= snapshot_metrics(phi, entropy, iter).strange_loops <= 7,
{
}

/// Range property of the fallback branch: for any time factor in [0, 1],
/// every output lies within its stated additive range.
pub proof fn lemma_fallback_ranges(t: int)
    requires
        0 <= t <= MICRO as int,
    ensures
        885_000 <= fallback_metrics(t).semantic_closure_micro <= 985_000,
        3 <= fallback_metrics(t).strange_loops <= 5,
        1_020_000 <= fallback_metrics(t).hofstadter_coefficient_micro <= 1_120_000,
        5_260_000 <= fallback_metrics(t).spectral_gap_micro <= 7_260_000,
        950_000 <= fallback_metrics(t).correlation_strength_micro <= 1_000_000,
        fallback_metrics(t).threshold_exceeded,
{
    lemma_div_pos_is_pos(t, 10);
    lemma_div_pos_is_pos(t, 20);
    lemma_div_is_ordered(t, MICRO as int, 10);
    lemma_div_is_ordered(t, MICRO as int, 20);
}

/// Metric derivation is deterministic: the snapshot branch does not consult
/// the time source at all, and the fallback branch is a pure function of the
/// time factor it is handed.
pub proof fn lemma_derivation_deterministic(snapshot: Option<&Snapshot>, t1: int, t2: int)
    ensures
        snapshot is Some ==> derived_metrics(snapshot, t1) == derived_metrics(snapshot, t2),
        t1 == t2 ==> derived_metrics(snapshot, t1) == derived_metrics(snapshot, t2),
{
}

impl Default for Snapshot {
    /// The documented per-field defaults, used by the hosting layer for any
    /// field the backing store does not supply.
    fn default() -> (s: Snapshot)
        ensures
            s.phi_micro == 3_252_000,
            s.quantum_entropy_micro == 926_000,
            s.loop_iteration == 1,
            s.haiku_content is None,
    {
        Snapshot {
            phi_micro: 3_252_000,
            quantum_entropy_micro: 926_000,
            loop_iteration: 1,
            haiku_content: None,
        }
    }
}

} // verus!
