//! Haiku selection, and the splitting of raw snapshot haiku text into lines.
//!
//! The snapshot's haiku text delimits its lines with a literal backslash
//! followed by the letter `n` (two characters), and is used verbatim whenever
//! it supplies at least three lines; otherwise a fixed table, or a single
//! standard haiku, decides.

use vstd::prelude::*;
use crate::metrics::{MetricsRecord, MICRO};

verus! {

/// True when a literal backslash-n separator stands at the head of `s`.
pub open spec fn sep_at_head(s: Seq<char>) -> bool {
    s.len() >= 2 && s[0] == '\\' && s[1] == 'n'
}

/// Splits `s` on each leftmost separator, scanning left to right; `cur`
/// holds the portion of the current line read so far.
pub open spec fn split_acc(s: Seq<char>, cur: Seq<char>) -> Seq<Seq<char>>
    decreases s.len(),
{
    if s.len() == 0 {
        seq![cur]
    } else if sep_at_head(s) {
        seq![cur] + split_acc(s.skip(2), Seq::empty())
    } else {
        split_acc(s.skip(1), cur.push(s[0]))
    }
}

/// The haiku text split into lines on each literal backslash-n separator.
pub open spec fn split_lines(s: Seq<char>) -> Seq<Seq<char>> {
    split_acc(s, Seq::empty())
}

/// Splits raw haiku text into its lines: the separator is the two-character
/// sequence backslash-n, and the text around each separator is kept
/// verbatim. The result always holds at least one line.
pub fn split_haiku_content(s: &str) -> (r: Vec<String>)
    ensures
        r.deep_view() == split_lines(s@),
        r@.len() >= 1,
{
    let n = s.unicode_len();
    let mut lines: Vec<String> = Vec::new();
    let mut start: usize = 0;
    let mut i: usize = 0;
    proof {
        assert(s@.skip(0) =~= s@);
        assert(s@.subrange(0, 0) =~= Seq::<char>::empty());
        assert(lines.deep_view() =~= Seq::<Seq<char>>::empty());
        assert(Seq::<Seq<char>>::empty() + split_acc(s@, Seq::empty()) =~= split_acc(
            s@,
            Seq::empty(),
        ));
    }
    while i < n
        invariant
            start <= i <= n,
            n == s@.len(),
            lines.deep_view() + split_acc(
                s@.skip(i as int),
                s@.subrange(start as int, i as int),
            ) == split_lines(s@),
        decreases n - i,
    {
        let ghost cur = s@.subrange(start as int, i as int);
        let ghost pre = lines.deep_view();
        if i + 1 < n && s.get_char(i) == '\\' && s.get_char(i + 1) == 'n' {
            let line = s.substring_char(start, i).to_owned();
            lines.push(line);
            proof {
                assert(lines.deep_view() =~= pre.push(cur));
                assert(sep_at_head(s@.skip(i as int)));
                assert(s@.skip(i as int).skip(2) =~= s@.skip(i as int + 2));
                assert(split_acc(s@.skip(i as int), cur) == seq![cur] + split_acc(
                    s@.skip(i as int + 2),
                    Seq::empty(),
                ));
                assert(pre + (seq![cur] + split_acc(s@.skip(i as int + 2), Seq::empty()))
                    =~= pre.push(cur) + split_acc(s@.skip(i as int + 2), Seq::empty()));
                assert(s@.subrange(i as int + 2, i as int + 2) =~= Seq::<char>::empty());
            }
            i = i + 2;
            start = i;
        } else {
            proof {
                let t = s@.skip(i as int);
                assert(t.len() == n - i);
                assert(t[0] == s@[i as int]);
                assert(t.len() >= 2 ==> t[1] == s@[i as int + 1]);
                assert(!sep_at_head(t));
                assert(t.skip(1) =~= s@.skip(i as int + 1));
                assert(split_acc(t, cur) == split_acc(t.skip(1), cur.push(t[0])));
                assert(cur.push(s@[i as int]) =~= s@.subrange(start as int, i as int + 1));
            }
            i = i + 1;
        }
    }
    let ghost cur = s@.subrange(start as int, i as int);
    let ghost pre = lines.deep_view();
    let last = s.substring_char(start, n).to_owned();
    lines.push(last);
    proof {
        assert(s@.skip(n as int) =~= Seq::<char>::empty());
        assert(split_acc(s@.skip(n as int), cur) == seq![cur]);
        assert(lines.deep_view() =~= pre.push(cur));
        assert(pre + seq![cur] =~= pre.push(cur));
    }
    lines
}

/// The single standard haiku, used when no snapshot lines are supplied and
/// the threshold was not crossed.
pub open spec fn standard_haiku_lines() -> Seq<Seq<char>> {
    seq!["Quantum paths unfold,"@, "Mathematical beauty waits—"@, "InformationForce near"@]
}

/// Index into the threshold haiku table: floor of the semantic closure times
/// the table length, modulo the table length, floored at zero for
/// out-of-domain negative values.
pub open spec fn haiku_index(sc: int) -> int {
    if sc <= 0 {
        0
    } else {
        ((sc * 4) / (MICRO as int)) % 4
    }
}

/// The fixed ordered table of four threshold haiku.
pub open spec fn threshold_haiku_lines(i: int) -> Seq<Seq<char>> {
    if i == 0 {
        seq!["Hidden paths reveal"@, "What seems impossible unfolds —"@, "Magic lives in doubt"@]
    } else if i == 1 {
        seq![
            "Loops correlate through"@,
            "Mathematical information-dynamics—"@,
            "Desert sand transforms"@,
        ]
    } else if i == 2 {
        seq!["Category maps fold,"@, "Strange loops embrace paradox—"@, "Awareness emerges"@]
    } else {
        seq![
            "Three systems dancing,"@,
            "Correlation weaves meaning—"@,
            "InformationForce blooms bright"@,
        ]
    }
}

/// The haiku selected for a metrics record and optionally supplied snapshot
/// lines: the first three snapshot lines verbatim whenever at least three
/// are supplied; otherwise a table lookup when the threshold was crossed;
/// otherwise the standard haiku.
pub open spec fn spec_select_haiku(m: MetricsRecord, lines: Option<Seq<Seq<char>>>) -> Seq<
    Seq<char>,
> {
    if lines is Some && lines->0.len() >= 3 {
        lines->0.take(3)
    } else if m.threshold_exceeded {
        threshold_haiku_lines(haiku_index(m.semantic_closure_micro as int))
    } else {
        standard_haiku_lines()
    }
}

/// The deep view of optionally supplied snapshot lines.
pub open spec fn lines_view(snapshot_lines: Option<&Vec<String>>) -> Option<Seq<Seq<char>>> {
    match snapshot_lines {
        Some(l) => Some(l.deep_view()),
        None => None,
    }
}

/// The standard haiku.
pub fn generate_standard_haiku() -> (r: Vec<String>)
    ensures
        r.deep_view() == standard_haiku_lines(),
        r@.len() == 3,
{
    let mut r: Vec<String> = Vec::new();
    r.push("Quantum paths unfold,".to_owned());
    r.push("Mathematical beauty waits—".to_owned());
    r.push("InformationForce near".to_owned());
    proof {
        assert(r.deep_view() =~= standard_haiku_lines());
    }
    r
}

/// The haiku chosen from the metrics alone: the threshold table when the
/// threshold was crossed, the standard haiku otherwise.
fn haiku_for_metrics(metrics: &MetricsRecord) -> (r: Vec<String>)
    ensures
        r.deep_view() == spec_select_haiku(*metrics, None),
        r@.len() == 3,
{
    if metrics.threshold_exceeded {
        let sc = metrics.semantic_closure_micro;
        let idx: u64 = if sc <= 0 {
            0
        } else {
            let product: u128 = (sc as u128) * 4;
            ((product / 1_000_000) % 4) as u64
        };
        let mut r: Vec<String> = Vec::new();
        if idx == 0 {
            r.push("Hidden paths reveal".to_owned());
            r.push("What seems impossible unfolds —".to_owned());
            r.push("Magic lives in doubt".to_owned());
        } else if idx == 1 {
            r.push("Loops correlate through".to_owned());
            r.push("Mathematical information-dynamics—".to_owned());
            r.push("Desert sand transforms".to_owned());
        } else if idx == 2 {
            r.push("Category maps fold,".to_owned());
            r.push("Strange loops embrace paradox—".to_owned());
            r.push("Awareness emerges".to_owned());
        } else {
            r.push("Three systems dancing,".to_owned());
            r.push("Correlation weaves meaning—".to_owned());
            r.push("InformationForce blooms bright".to_owned());
        }
        proof {
            assert(r.deep_view() =~= threshold_haiku_lines(
                haiku_index(metrics.semantic_closure_micro as int),
            ));
        }
        r
    } else {
        generate_standard_haiku()
    }
}

/// Selects the haiku for a metrics record: the first three snapshot lines
/// verbatim whenever at least three are supplied, regardless of the
/// threshold flag; otherwise the choice falls to the metrics. Total: any
/// metrics record yields exactly three lines.
pub fn select_haiku(metrics: &MetricsRecord, snapshot_lines: Option<&Vec<String>>) -> (r: Vec<
    String,
>)
    ensures
        r.deep_view() == spec_select_haiku(*metrics, lines_view(snapshot_lines)),
        r@.len() == 3,
{
    match snapshot_lines {
        Some(l) => {
            if l.len() >= 3 {
                let mut r: Vec<String> = Vec::new();
                r.push(l[0].clone());
                r.push(l[1].clone());
                r.push(l[2].clone());
                proof {
                    assert(r.deep_view() =~= l.deep_view().take(3));
                }
                r
            } else {
                haiku_for_metrics(metrics)
            }
        },
        None => haiku_for_metrics(metrics),
    }
}

/// Snapshot lines pass through verbatim: whenever at least three lines are
/// supplied, the selection is their first three, whatever the metrics
/// record holds.
pub proof fn lemma_snapshot_lines_pass_through(m: MetricsRecord, lines: Seq<Seq<char>>)
    requires
        lines.len() >= 3,
    ensures
        spec_select_haiku(m, Some(lines)) == lines.take(3),
{
}

} // verus!
