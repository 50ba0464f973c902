//! Fortune composition: metrics, haiku and mechanism label assembled into
//! one record, with the snapshot's own haiku text taking precedence.

use vstd::prelude::*;
use crate::haiku::{select_haiku, spec_select_haiku, split_haiku_content, split_lines};
use crate::mechanism::{select_generation_mechanism, spec_select_mechanism};
use crate::metrics::{derive_metrics, derived_metrics, Snapshot, MetricsRecord, MICRO};

verus! {

/// A composed fortune: three haiku lines, a mechanism label, and the
/// metrics record they were selected from.
#[derive(Debug)]
pub struct Fortune {
    pub haiku: Vec<String>,
    pub mechanism: String,
    pub metrics: MetricsRecord,
}

/// The haiku lines a snapshot supplies: its haiku text split on literal
/// backslash-n separators, when it carries any text at all.
pub open spec fn snapshot_lines(snapshot: Option<&Snapshot>) -> Option<Seq<Seq<char>>> {
    match snapshot {
        Some(s) => match s.haiku_content {
            Some(c) => Some(split_lines(c@)),
            None => None,
        },
        None => None,
    }
}

/// Composes a fortune from an optional snapshot and the time factor the
/// hosting layer's clock supplies for the fallback branch: derives the
/// metrics, selects the haiku (snapshot text first, then the tables), and
/// selects the mechanism label.
pub fn generate_fortune(snapshot: Option<&Snapshot>, t_micro: u64) -> (r: Fortune)
    requires
        t_micro <= MICRO as u64,
    ensures
        r.metrics == derived_metrics(snapshot, t_micro as int),
        r.haiku.deep_view() == spec_select_haiku(r.metrics, snapshot_lines(snapshot)),
        r.mechanism@ == spec_select_mechanism(r.metrics.correlation_strength_micro as int),
        r.haiku@.len() == 3,
{
    let metrics = derive_metrics(snapshot, t_micro);
    let lines: Option<Vec<String>> = match snapshot {
        Some(s) => match s.haiku_content.as_ref() {
            Some(c) => Some(split_haiku_content(c.as_str())),
            None => None,
        },
        None => None,
    };
    let haiku = select_haiku(&metrics, lines.as_ref());
    let mechanism = select_generation_mechanism(&metrics);
    Fortune { haiku, mechanism, metrics }
}

} // verus!
