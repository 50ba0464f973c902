//! Mechanism-label selection: a table lookup driven by the correlation
//! strength alone.

use vstd::prelude::*;
use crate::metrics::{MetricsRecord, MICRO};

verus! {

/// Index into the mechanism table: floor of the correlation strength times
/// the table length, modulo the table length, floored at zero for
/// out-of-domain negative values.
pub open spec fn mechanism_index(corr: int) -> int {
    if corr <= 0 {
        0
    } else {
        ((corr * 5) / (MICRO as int)) % 5
    }
}

/// The fixed ordered table of five mechanism labels.
pub open spec fn mechanism_label(i: int) -> Seq<char> {
    if i == 0 {
        "tri-loop correlation matrix convergence"@
    } else if i == 1 {
        "semantic closure boundary optimization"@
    } else if i == 2 {
        "hofstadter coefficient recursive analysis"@
    } else if i == 3 {
        "expander graph spectral gap resonance"@
    } else {
        "strange loop paradox resolution synthesis"@
    }
}

/// The label selected for a given correlation strength, in micro-units.
pub open spec fn spec_select_mechanism(corr: int) -> Seq<char> {
    mechanism_label(mechanism_index(corr))
}

/// Selects the generation-mechanism label for a metrics record. Total: any
/// correlation strength, including out-of-domain values, yields a label.
pub fn select_generation_mechanism(metrics: &MetricsRecord) -> (r: String)
    ensures
        r@ == spec_select_mechanism(metrics.correlation_strength_micro as int),
{
    let c = metrics.correlation_strength_micro;
    let idx: u64 = if c <= 0 {
        0
    } else {
        let product: u128 = (c as u128) * 5;
        ((product / 1_000_000) % 5) as u64
    };
    let label: &str = if idx == 0 {
        "tri-loop correlation matrix convergence"
    } else if idx == 1 {
        "semantic closure boundary optimization"
    } else if idx == 2 {
        "hofstadter coefficient recursive analysis"
    } else if idx == 3 {
        "expander graph spectral gap resonance"
    } else {
        "strange loop paradox resolution synthesis"
    };
    label.to_owned()
}

/// The mechanism label is a pure function of the correlation strength: two
/// records that agree on it select the same label, whatever their other
/// fields hold.
pub proof fn lemma_mechanism_depends_on_correlation_only(a: MetricsRecord, b: MetricsRecord)
    requires
        a.correlation_strength_micro == b.correlation_strength_micro,
    ensures
        spec_select_mechanism(a.correlation_strength_micro as int) == spec_select_mechanism(
            b.correlation_strength_micro as int,
        ),
{
}

} // verus!
