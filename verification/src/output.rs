//! Rendering match records into output lines.
//!
//! One record becomes one line: the text before the match, a ` (in <file>): `
//! marker, the matched text set apart by a highlight, and the text after the
//! match. The highlight comes from the `colored` crate, whose rendering
//! depends on the environment (whether colouring is enabled); its wrapper
//! states only what holds of every outcome, and the formatter around it is
//! verified exactly. An empty set of records becomes the fixed "no matches"
//! notice.

use vstd::prelude::*;
use vstd::string::StringExecFns;

use crate::matching::{record_views, MatchRecord, RecordView};

verus! {

/// The ANSI reset sequence. Where the highlighted text itself holds one, the
/// highlighter re-opens its style after it, so the text is no longer one
/// contiguous piece of the result.
pub open spec fn reset_marker() -> Seq<char> {
    seq!['\u{1b}', '[', '0', 'm']
}

/// Whether `needle` occurs contiguously inside `hay`.
pub open spec fn contains_seq(hay: Seq<char>, needle: Seq<char>) -> bool {
    exists|i: int|
        0 <= i && i + needle.len() <= hay.len() && #[trigger] hay.subrange(i, i + needle.len())
            == needle
}

/// What every possible highlighting of `text` satisfies: it is at least as
/// long as the text, and — unless the text itself holds an ANSI reset
/// sequence — the text appears contiguously inside it.
pub open spec fn is_highlighted(h: Seq<char>, text: Seq<char>) -> bool {
    &&& h.len() >= text.len()
    &&& !contains_seq(text, reset_marker()) ==> contains_seq(h, text)
}

/// Relies on `colored::Colorize::green` and the `Display` impl of
/// `colored::ColoredString`: depending on whether colouring is enabled in
/// the environment, the result is either the text itself, or the text —
/// with a style sequence re-inserted after any reset sequence it holds —
/// wrapped in a style prefix and a reset suffix. Either way the result is at
/// least as long as the text, and where the text holds no reset sequence it
/// appears contiguously in the result.
#[verifier::external_body]
fn highlight(text: &str) -> (r: String)
    ensures
        is_highlighted(r@, text@),
{
    colored::Colorize::green(text).to_string()
}

/// The line rendered for a record: the text before the match, the source
/// file marker, the highlighted matched text, and the text after the match.
pub open spec fn spec_rendered(r: RecordView, h: Seq<char>) -> Seq<char> {
    r.before + " (in "@ + r.file + "): "@ + h + r.after
}

/// Whether `out` is a rendering of the record `r`: the record's pieces in
/// order around some highlighting of its matched text.
pub open spec fn line_rendered(out: Seq<char>, r: RecordView) -> bool {
    exists|h: Seq<char>| is_highlighted(h, r.matched) && out == spec_rendered(r, h)
}

/// Render one match record as one output line, highlighting the matched
/// text.
pub fn render_record(rec: &MatchRecord) -> (out: String)
    ensures
        line_rendered(out@, rec@),
{
    let h = highlight(rec.matched.as_str());
    let mut out = String::new();
    out.append(rec.before.as_str());
    out.append(" (in ");
    out.append(rec.file.as_str());
    out.append("): ");
    out.append(h.as_str());
    out.append(rec.after.as_str());
    proof {
        assert(out@ =~= spec_rendered(rec@, h@));
    }
    out
}

/// The values of a sequence of output lines.
pub open spec fn out_views(lines: Seq<String>) -> Seq<Seq<char>> {
    lines.map_values(|s: String| s@)
}

/// Whether the lines `out` render the records `records`, one line per record
/// and in the records' order.
pub open spec fn lines_rendered(out: Seq<Seq<char>>, records: Seq<RecordView>) -> bool {
    &&& out.len() == records.len()
    &&& forall|i: int| 0 <= i < records.len() ==> line_rendered(#[trigger] out[i], records[i])
}

/// Render every record as one output line, in order.
pub fn render_records(records: &Vec<MatchRecord>) -> (out: Vec<String>)
    ensures
        lines_rendered(out_views(out@), record_views(records@)),
{
    let mut out: Vec<String> = Vec::new();
    let n = records.len();
    let mut i: usize = 0;
    while i < n
        invariant
            n == records@.len(),
            i <= n,
            out@.len() == i,
            forall|j: int|
                0 <= j < i ==> line_rendered(#[trigger] out_views(out@)[j], record_views(records@)[j]),
        decreases n - i,
    {
        let line = render_record(&records[i]);
        let ghost prev = out@;
        out.push(line);
        proof {
            assert forall|j: int| 0 <= j < i + 1 implies line_rendered(
                #[trigger] out_views(out@)[j],
                record_views(records@)[j],
            ) by {
                if j < i {
                    assert(out_views(out@)[j] == out_views(prev)[j]);
                } else {
                    assert(out_views(out@)[j] == line@);
                }
            }
        }
        i = i + 1;
    }
    out
}

/// The notice written when no line of any file matched.
pub open spec fn no_match_notice() -> Seq<char> {
    "No matches found. Try other words, files, or select case sensitive."@
}

/// The final output for a set of collected result lines: the lines
/// themselves, or — where nothing was collected — the fixed "no matches"
/// notice alone.
pub open spec fn spec_output(results: Seq<Seq<char>>) -> Seq<Seq<char>> {
    if results.len() == 0 {
        seq![no_match_notice()]
    } else {
        results
    }
}

/// Turn the collected result lines into the final output: pass them through,
/// or replace an empty collection by the "no matches" notice.
pub fn finalize_output(results: Vec<String>) -> (out: Vec<String>)
    ensures
        out_views(out@) == spec_output(out_views(results@)),
{
    if results.len() == 0 {
        let mut out: Vec<String> = Vec::new();
        out.push("No matches found. Try other words, files, or select case sensitive.".to_owned());
        proof {
            assert(out_views(out@) =~= seq![no_match_notice()]);
        }
        out
    } else {
        results
    }
}

} // verus!
