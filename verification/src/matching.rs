//! Applying a compiled matcher to lines of text.
//!
//! A scanner walks one file's lines in order, batching them into bounded
//! chunks; the chunk matcher turns every matching line of a chunk into a
//! [`MatchRecord`]: the line split around its first match, together with the
//! owning file's name. The records of a file are exactly its matching lines,
//! in the file's original line order.

use vstd::prelude::*;

use crate::pattern::{found_split, Matcher};

verus! {

/// How many lines a scanner batches into one chunk before it submits the
/// chunk for matching.
pub const CHUNK_CAPACITY: usize = 1000;

/// What one matching line contributes to the output: the line's text before
/// its first match, the matched text, the text after it, and the name of the
/// file the line came from.
pub struct MatchRecord {
    pub before: String,
    pub matched: String,
    pub after: String,
    pub file: String,
}

/// The mathematical value of a [`MatchRecord`].
#[verifier::ext_equal]
pub struct RecordView {
    pub before: Seq<char>,
    pub matched: Seq<char>,
    pub after: Seq<char>,
    pub file: Seq<char>,
}

impl View for MatchRecord {
    type V = RecordView;

    open spec fn view(&self) -> RecordView {
        RecordView {
            before: self.before@,
            matched: self.matched@,
            after: self.after@,
            file: self.file@,
        }
    }
}

/// The values of a sequence of strings.
pub open spec fn str_views(lines: Seq<String>) -> Seq<Seq<char>> {
    lines.map_values(|s: String| s@)
}

/// The values of a sequence of match records.
pub open spec fn record_views(records: Seq<MatchRecord>) -> Seq<RecordView> {
    records.map_values(|r: MatchRecord| r@)
}

/// Whether the pattern matches somewhere in `line`.
pub open spec fn line_matches(p: Seq<char>, ic: bool, line: Seq<char>) -> bool {
    found_split(p, ic, line) is Some
}

/// The record a single line contributes: its pieces around the first match,
/// or `None` when the pattern does not match the line.
pub open spec fn spec_line_record(
    p: Seq<char>,
    ic: bool,
    file: Seq<char>,
    line: Seq<char>,
) -> Option<RecordView> {
    match found_split(p, ic, line) {
        Some((b, m, a)) => Some(RecordView { before: b, matched: m, after: a, file }),
        None => None,
    }
}

/// A single line's contribution as a sequence: one record for a matching
/// line, nothing for a line the pattern misses.
pub open spec fn record_seq(p: Seq<char>, ic: bool, file: Seq<char>, line: Seq<char>) -> Seq<
    RecordView,
> {
    match spec_line_record(p, ic, file, line) {
        Some(r) => seq![r],
        None => Seq::empty(),
    }
}

/// All records of a sequence of lines, in line order.
pub open spec fn spec_line_records(
    p: Seq<char>,
    ic: bool,
    file: Seq<char>,
    lines: Seq<Seq<char>>,
) -> Seq<RecordView>
    decreases lines.len(),
{
    if lines.len() == 0 {
        Seq::empty()
    } else {
        spec_line_records(p, ic, file, lines.drop_last()) + record_seq(
            p,
            ic,
            file,
            lines.last(),
        )
    }
}

/// Appending one line to a sequence of lines appends that line's
/// contribution to the records.
pub proof fn lemma_line_records_push(
    p: Seq<char>,
    ic: bool,
    file: Seq<char>,
    lines: Seq<Seq<char>>,
    line: Seq<char>,
)
    ensures
        spec_line_records(p, ic, file, lines.push(line)) == spec_line_records(p, ic, file, lines)
            + record_seq(p, ic, file, line),
{
    assert(lines.push(line).drop_last() =~= lines);
    assert(lines.push(line).last() == line);
}

/// One record per matching line, in the file's original line order: the
/// records of a sequence of lines are exactly its matching lines, in order,
/// each split into the pieces around its first match.
pub proof fn lemma_records_are_ordered_matches(
    p: Seq<char>,
    ic: bool,
    file: Seq<char>,
    lines: Seq<Seq<char>>,
)
    ensures
        spec_line_records(p, ic, file, lines) == lines.filter(
            |line: Seq<char>| line_matches(p, ic, line),
        ).map_values(|line: Seq<char>| spec_line_record(p, ic, file, line)->Some_0),
    decreases lines.len(),
{
    let pred = |line: Seq<char>| line_matches(p, ic, line);
    let to_record = |line: Seq<char>| spec_line_record(p, ic, file, line)->Some_0;
    reveal(Seq::filter);
    if lines.len() == 0 {
        assert(spec_line_records(p, ic, file, lines) =~= lines.filter(pred).map_values(to_record));
    } else {
        lemma_records_are_ordered_matches(p, ic, file, lines.drop_last());
        if pred(lines.last()) {
            assert(lines.filter(pred) == lines.drop_last().filter(pred).push(lines.last()));
            assert(lines.filter(pred).map_values(to_record) =~= lines.drop_last().filter(
                pred,
            ).map_values(to_record).push(to_record(lines.last())));
            assert(spec_line_records(p, ic, file, lines) =~= lines.filter(pred).map_values(
                to_record,
            ));
        } else {
            assert(spec_line_records(p, ic, file, lines) =~= lines.filter(pred).map_values(
                to_record,
            ));
        }
    }
}

/// Exactly one record per matching line: a line the pattern matches yields
/// one record — however many times the pattern occurs in it — and a line
/// the pattern misses yields none, so the records are as many as the
/// matching lines.
pub proof fn lemma_one_record_per_matching_line(
    p: Seq<char>,
    ic: bool,
    file: Seq<char>,
    lines: Seq<Seq<char>>,
)
    ensures
        spec_line_records(p, ic, file, lines).len() == lines.filter(
            |line: Seq<char>| line_matches(p, ic, line),
        ).len(),
{
    lemma_records_are_ordered_matches(p, ic, file, lines);
}

/// A bounded batch of consecutive lines from one file, matched as a unit.
pub struct LineChunk {
    /// The batched lines, in the file's order.
    pub lines: Vec<String>,
    /// The name of the file the lines came from.
    pub file: String,
}

impl LineChunk {
    /// A chunk never holds more lines than its fixed capacity.
    pub open spec fn wf(self) -> bool {
        self.lines@.len() <= CHUNK_CAPACITY
    }
}

/// Apply the matcher to every line of the chunk, in order, and return one
/// record for every line the pattern matches: the line split around its
/// first match, tagged with the chunk's file name.
pub fn match_chunk(m: &Matcher, chunk: &LineChunk) -> (records: Vec<MatchRecord>)
    requires
        chunk.wf(),
    ensures
        record_views(records@) == spec_line_records(
            m.spec_pattern(),
            m.case_insensitive(),
            chunk.file@,
            str_views(chunk.lines@),
        ),
{
    let ghost p = m.spec_pattern();
    let ghost ic = m.case_insensitive();
    let mut records: Vec<MatchRecord> = Vec::new();
    let n = chunk.lines.len();
    let mut j: usize = 0;
    while j < n
        invariant
            n == chunk.lines@.len(),
            j <= n,
            p == m.spec_pattern(),
            ic == m.case_insensitive(),
            record_views(records@) == spec_line_records(
                p,
                ic,
                chunk.file@,
                str_views(chunk.lines@.take(j as int)),
            ),
        decreases n - j,
    {
        let ghost done = str_views(chunk.lines@.take(j as int));
        let line = &chunk.lines[j];
        proof {
            assert(chunk.lines@.take(j + 1).drop_last() =~= chunk.lines@.take(j as int));
            assert(str_views(chunk.lines@.take(j + 1)).drop_last() =~= done);
            assert(str_views(chunk.lines@.take(j + 1)) =~= done.push(line@));
            lemma_line_records_push(p, ic, chunk.file@, done, line@);
        }
        match m.find_first_match(line.as_str()) {
            Some((before, matched, after)) => {
                let rec = MatchRecord { before, matched, after, file: chunk.file.clone() };
                proof {
                    assert(spec_line_record(p, ic, chunk.file@, line@) == Some(rec@));
                    assert(record_views(records@.push(rec)) =~= record_views(records@).push(
                        rec@,
                    ));
                    assert(record_views(records@).push(rec@) =~= record_views(records@)
                        + record_seq(p, ic, chunk.file@, line@));
                }
                records.push(rec);
            },
            None => {
                proof {
                    assert(record_views(records@) + record_seq(p, ic, chunk.file@, line@)
                        =~= record_views(records@));
                }
            },
        }
        j = j + 1;
    }
    proof {
        assert(chunk.lines@.take(n as int) =~= chunk.lines@);
    }
    records
}

/// Scan one file's lines in order: batch them into chunks of at most
/// [`CHUNK_CAPACITY`] lines, submit every full chunk — and, at the end, a
/// non-empty remainder — to the chunk matcher, and collect the records of
/// all chunks in order. The result is exactly one record per matching line,
/// in the file's original line order.
pub fn scan_lines(m: &Matcher, file: &str, lines: &Vec<String>) -> (records: Vec<MatchRecord>)
    ensures
        record_views(records@) == spec_line_records(
            m.spec_pattern(),
            m.case_insensitive(),
            file@,
            str_views(lines@),
        ),
{
    let ghost p = m.spec_pattern();
    let ghost ic = m.case_insensitive();
    let mut records: Vec<MatchRecord> = Vec::new();
    let mut chunk = LineChunk { lines: Vec::new(), file: file.to_owned() };
    let n = lines.len();
    let mut i: usize = 0;
    while i < n
        invariant
            n == lines@.len(),
            i <= n,
            p == m.spec_pattern(),
            ic == m.case_insensitive(),
            chunk.file@ == file@,
            chunk.lines@.len() < CHUNK_CAPACITY,
            record_views(records@) + spec_line_records(p, ic, file@, str_views(chunk.lines@))
                == spec_line_records(p, ic, file@, str_views(lines@.take(i as int))),
        decreases n - i,
    {
        let ghost done = str_views(lines@.take(i as int));
        let ghost pending = str_views(chunk.lines@);
        let line = &lines[i];
        chunk.lines.push(line.clone());
        proof {
            assert(lines@.take(i + 1).drop_last() =~= lines@.take(i as int));
            assert(str_views(lines@.take(i + 1)).drop_last() =~= done);
            assert(str_views(lines@.take(i + 1)) =~= done.push(line@));
            assert(str_views(chunk.lines@) =~= pending.push(line@));
            lemma_line_records_push(p, ic, file@, done, line@);
            lemma_line_records_push(p, ic, file@, pending, line@);
            assert(record_views(records@) + (spec_line_records(p, ic, file@, pending)
                + record_seq(p, ic, file@, line@)) =~= (record_views(records@)
                + spec_line_records(p, ic, file@, pending)) + record_seq(p, ic, file@, line@));
        }
        if chunk.lines.len() >= CHUNK_CAPACITY {
            let mut fresh = match_chunk(m, &chunk);
            proof {
                assert(record_views(records@ + fresh@) =~= record_views(records@) + record_views(
                    fresh@,
                ));
            }
            records.append(&mut fresh);
            chunk.lines.clear();
            proof {
                assert(str_views(chunk.lines@) =~= Seq::<Seq<char>>::empty());
                assert(spec_line_records(p, ic, file@, str_views(chunk.lines@))
                    =~= Seq::<RecordView>::empty());
                assert(record_views(records@) + Seq::<RecordView>::empty()
                    =~= record_views(records@));
            }
        }
        i = i + 1;
    }
    if chunk.lines.len() > 0 {
        let mut fresh = match_chunk(m, &chunk);
        proof {
            assert(record_views(records@ + fresh@) =~= record_views(records@) + record_views(
                fresh@,
            ));
        }
        records.append(&mut fresh);
    } else {
        proof {
            assert(str_views(chunk.lines@) =~= Seq::<Seq<char>>::empty());
            assert(record_views(records@) + spec_line_records(p, ic, file@, str_views(chunk.lines@))
                =~= record_views(records@));
        }
    }
    proof {
        assert(lines@.take(n as int) =~= lines@);
    }
    records
}

} // verus!
