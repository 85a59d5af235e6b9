//! Running a whole search: compile the pattern, scan every readable file,
//! and render the collected records — or the "no matches" notice — as the
//! final output lines.

use vstd::prelude::*;

use crate::matching::{record_views, scan_lines, spec_line_records, str_views, MatchRecord,
    RecordView};
use crate::output::{finalize_output, lines_rendered, out_views, render_records, spec_output};
use crate::pattern::{pattern_accepted, Matcher, SearchError};

verus! {

/// One input file as handed to the search: its name, and its lines or `None`
/// where the file could not be read.
pub struct FileInput {
    /// The file's name, as it is to appear in the output.
    pub name: String,
    /// The file's lines in order, or `None` where the file could not be
    /// opened or decoded; such a file contributes no results and does not
    /// fail the search.
    pub lines: Option<Vec<String>>,
}

/// The mathematical value of a [`FileInput`].
#[verifier::ext_equal]
pub struct FileInputView {
    pub name: Seq<char>,
    pub lines: Option<Seq<Seq<char>>>,
}

impl View for FileInput {
    type V = FileInputView;

    open spec fn view(&self) -> FileInputView {
        FileInputView {
            name: self.name@,
            lines: match self.lines {
                Some(ls) => Some(str_views(ls@)),
                None => None,
            },
        }
    }
}

/// The values of a sequence of file inputs.
pub open spec fn file_views(files: Seq<FileInput>) -> Seq<FileInputView> {
    files.map_values(|f: FileInput| f@)
}

/// The records one input file contributes: those of its lines where it could
/// be read, nothing where it could not.
pub open spec fn spec_file_records(p: Seq<char>, ic: bool, f: FileInputView) -> Seq<RecordView> {
    match f.lines {
        Some(lines) => spec_line_records(p, ic, f.name, lines),
        None => Seq::empty(),
    }
}

/// All records of a search, file by file in the order the files were given,
/// and within each file in the file's line order.
pub open spec fn spec_search_records(p: Seq<char>, ic: bool, files: Seq<FileInputView>) -> Seq<
    RecordView,
>
    decreases files.len(),
{
    if files.len() == 0 {
        Seq::empty()
    } else {
        spec_search_records(p, ic, files.drop_last()) + spec_file_records(p, ic, files.last())
    }
}

/// Appending one file to the input list appends that file's records.
pub proof fn lemma_search_records_push(
    p: Seq<char>,
    ic: bool,
    files: Seq<FileInputView>,
    f: FileInputView,
)
    ensures
        spec_search_records(p, ic, files.push(f)) == spec_search_records(p, ic, files)
            + spec_file_records(p, ic, f),
{
    assert(files.push(f).drop_last() =~= files);
    assert(files.push(f).last() == f);
}

/// Idempotence: the records of a search are a function of the pattern, the
/// case flag and the files' names and lines alone, so two runs of the same
/// search against unchanged files yield the same records, in the same
/// per-file line order. `search_records` pins its result to exactly this
/// value.
pub proof fn lemma_search_idempotent(
    p: Seq<char>,
    ic: bool,
    files: Seq<FileInputView>,
    r1: Seq<RecordView>,
    r2: Seq<RecordView>,
)
    requires
        r1 == spec_search_records(p, ic, files),
        r2 == spec_search_records(p, ic, files),
    ensures
        r1 == r2,
{
}

/// A file that could not be read contributes nothing: removing it from the
/// input list leaves the records of the search unchanged, so the other
/// files' matches appear as if the unreadable file had not been named.
pub proof fn lemma_unreadable_file_skipped(
    p: Seq<char>,
    ic: bool,
    files: Seq<FileInputView>,
    i: int,
)
    requires
        0 <= i < files.len(),
        files[i].lines is None,
    ensures
        spec_search_records(p, ic, files.remove(i)) == spec_search_records(p, ic, files),
    decreases files.len(),
{
    if i == files.len() - 1 {
        assert(files.remove(i) =~= files.drop_last());
        assert(spec_file_records(p, ic, files.last()) =~= Seq::<RecordView>::empty());
        assert(spec_search_records(p, ic, files) =~= spec_search_records(
            p,
            ic,
            files.drop_last(),
        ));
    } else {
        lemma_unreadable_file_skipped(p, ic, files.drop_last(), i);
        assert(files.remove(i).drop_last() =~= files.drop_last().remove(i));
        assert(files.remove(i).last() == files.last());
        assert(spec_search_records(p, ic, files.remove(i)) == spec_search_records(
            p,
            ic,
            files.drop_last().remove(i),
        ) + spec_file_records(p, ic, files.last()));
    }
}

/// Scan every readable file with the matcher and collect the records of all
/// files, in the order the files were given.
pub fn search_records(m: &Matcher, files: &Vec<FileInput>) -> (records: Vec<MatchRecord>)
    ensures
        record_views(records@) == spec_search_records(
            m.spec_pattern(),
            m.case_insensitive(),
            file_views(files@),
        ),
{
    let ghost p = m.spec_pattern();
    let ghost ic = m.case_insensitive();
    let mut records: Vec<MatchRecord> = Vec::new();
    let n = files.len();
    let mut i: usize = 0;
    while i < n
        invariant
            n == files@.len(),
            i <= n,
            p == m.spec_pattern(),
            ic == m.case_insensitive(),
            record_views(records@) == spec_search_records(
                p,
                ic,
                file_views(files@.take(i as int)),
            ),
        decreases n - i,
    {
        let ghost done = file_views(files@.take(i as int));
        let f = &files[i];
        proof {
            assert(files@.take(i + 1).drop_last() =~= files@.take(i as int));
            assert(file_views(files@.take(i + 1)).drop_last() =~= done);
            assert(file_views(files@.take(i + 1)) =~= done.push(f@));
            lemma_search_records_push(p, ic, done, f@);
        }
        match &f.lines {
            Some(lines) => {
                let mut fresh = scan_lines(m, f.name.as_str(), lines);
                proof {
                    assert(record_views(fresh@) == spec_file_records(p, ic, f@));
                    assert(record_views(records@ + fresh@) =~= record_views(records@)
                        + record_views(fresh@));
                }
                records.append(&mut fresh);
            },
            None => {
                proof {
                    assert(spec_file_records(p, ic, f@) =~= Seq::<RecordView>::empty());
                    assert(record_views(records@) + spec_file_records(p, ic, f@)
                        =~= record_views(records@));
                }
            },
        }
        i = i + 1;
    }
    proof {
        assert(files@.take(n as int) =~= files@);
    }
    records
}

/// Run a whole search: compile the pattern — failing, before any file's
/// lines are looked at, exactly on patterns the engine rejects — then scan
/// every readable file and render one output line per matching line; where
/// nothing matched, the output is the single "no matches" notice.
pub fn run_search(pattern: &str, ignore_case: bool, files: &Vec<FileInput>) -> (r: Result<
    Vec<String>,
    SearchError,
>)
    ensures
        r is Ok <==> pattern_accepted(pattern@, ignore_case),
        r is Err ==> r->Err_0 == SearchError::InvalidPattern,
        r is Ok ==> exists|rendered: Seq<Seq<char>>|
            #[trigger] lines_rendered(
                rendered,
                spec_search_records(pattern@, ignore_case, file_views(files@)),
            ) && out_views(r->Ok_0@) == spec_output(rendered),
{
    let m = match Matcher::compile(pattern, ignore_case) {
        Ok(m) => m,
        Err(e) => {
            return Err(e);
        },
    };
    let records = search_records(&m, files);
    let rendered = render_records(&records);
    proof {
        assert(lines_rendered(
            out_views(rendered@),
            spec_search_records(pattern@, ignore_case, file_views(files@)),
        ));
    }
    Ok(finalize_output(rendered))
}

} // verus!
