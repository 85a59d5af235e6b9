//! Compiling a search pattern and finding its first match in a line.
//!
//! The regular-expression engine is the `regex` crate, treated as a black
//! box: what a compiled pattern matches is named by uninterpreted spec
//! functions, and the few calls into the crate stand behind trusted wrappers
//! whose contracts speak over those names.

use vstd::prelude::*;

verus! {

/// Errors a search can fail with.
#[derive(Clone, Copy, Debug, PartialEq, Eq, Structural)]
pub enum SearchError {
    /// The pattern string is not a well-formed regular expression.
    InvalidPattern,
}

#[verifier::external_type_specification]
#[verifier::external_body]
pub struct ExRegex(regex::Regex);

#[verifier::external_type_specification]
#[verifier::external_body]
pub struct ExRegexError(regex::Error);

/// Whether the regular-expression engine accepts `pattern` as well-formed,
/// compiled case-insensitively when `ignore_case` is set.
pub uninterp spec fn pattern_accepted(pattern: Seq<char>, ignore_case: bool) -> bool;

/// The first (leftmost) match of `pattern` in `line`, as the three pieces of
/// the line: the text before the match, the matched text, and the text after
/// it; `None` when the pattern matches nowhere in the line. Matching is
/// case-insensitive when `ignore_case` is set.
pub uninterp spec fn found_split(
    pattern: Seq<char>,
    ignore_case: bool,
    line: Seq<char>,
) -> Option<(Seq<char>, Seq<char>, Seq<char>)>;

/// Relies on `regex::Regex::new`: whether a pattern string compiles is a
/// function of the pattern alone, and the `(?i)` marker prepended to an
/// otherwise well-formed pattern makes the whole pattern case-insensitive
/// without affecting well-formedness of the remainder.
#[verifier::external_body]
fn regex_new(pattern: &str, ignore_case: bool) -> (r: Result<regex::Regex, regex::Error>)
    ensures
        r is Ok <==> pattern_accepted(pattern@, ignore_case),
{
    if ignore_case {
        regex::Regex::new(&format!("(?i){}", pattern))
    } else {
        regex::Regex::new(pattern)
    }
}

/// A compiled matcher: a pattern string together with the engine's compiled
/// form of it. Built only by [`Matcher::compile`], which keeps the compiled
/// form paired with the pattern and the case flag.
pub struct Matcher {
    re: regex::Regex,
    pattern: String,
    ignore_case: bool,
}

impl Matcher {
    /// The pattern this matcher was compiled from.
    pub closed spec fn spec_pattern(self) -> Seq<char> {
        self.pattern@
    }

    /// Whether this matcher matches case-insensitively.
    pub closed spec fn case_insensitive(self) -> bool {
        self.ignore_case
    }

    /// Compile `pattern` into a matcher, case-insensitive when `ignore_case`
    /// is set. Fails exactly on patterns the engine rejects, before any file
    /// is looked at.
    pub fn compile(pattern: &str, ignore_case: bool) -> (r: Result<Matcher, SearchError>)
        ensures
            r is Ok <==> pattern_accepted(pattern@, ignore_case),
            r is Ok ==> r->Ok_0.spec_pattern() == pattern@
                && r->Ok_0.case_insensitive() == ignore_case,
            r is Err ==> r->Err_0 == SearchError::InvalidPattern,
    {
        match regex_new(pattern, ignore_case) {
            Ok(re) => Ok(Matcher { re, pattern: pattern.to_owned(), ignore_case }),
            Err(_) => Err(SearchError::InvalidPattern),
        }
    }

    /// Relies on `regex::Regex::find`: the first (leftmost) match is a
    /// function of the pattern, the case flag and the line alone; its
    /// offsets lie on character boundaries inside the line, so the three
    /// returned pieces concatenate back to the line. `compile` is the only
    /// constructor of `Matcher` and pairs `re` with `pattern` and
    /// `ignore_case`.
    #[verifier::external_body]
    pub fn find_first_match(&self, line: &str) -> (r: Option<(String, String, String)>)
        ensures
            r is Some <==> found_split(self.spec_pattern(), self.case_insensitive(), line@)
                is Some,
            r is Some ==> ({
                let (b, m, a) = found_split(
                    self.spec_pattern(),
                    self.case_insensitive(),
                    line@,
                )->Some_0;
                r->Some_0.0@ == b && r->Some_0.1@ == m && r->Some_0.2@ == a && b + m + a
                    == line@
            }),
    {
        match self.re.find(line) {
            Some(m) => Some((
                line[..m.start()].to_string(),
                m.as_str().to_string(),
                line[m.end()..].to_string(),
            )),
            None => None,
        }
    }

    /// Relies on `regex::Regex::clone`: a clone of a compiled pattern
    /// matches exactly as the original does.
    #[verifier::external_body]
    pub fn duplicate(&self) -> (r: Matcher)
        ensures
            r.spec_pattern() == self.spec_pattern(),
            r.case_insensitive() == self.case_insensitive(),
    {
        Matcher {
            re: self.re.clone(),
            pattern: self.pattern.clone(),
            ignore_case: self.ignore_case,
        }
    }
}

} // verus!
