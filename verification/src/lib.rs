//! A multi-file pattern-search library.
//!
//! Given a pattern string and a set of files, the search finds the lines that
//! the pattern matches (optionally case-insensitively) and reports, for each
//! matching line, one formatted result that names the source file and sets the
//! matched text apart from its context. A compiled matcher can be duplicated,
//! so the files can as well be scanned by one concurrent worker each, all
//! feeding one collection of results. Pattern matching itself is delegated to
//! the `regex` crate behind trusted declarations; everything around it —
//! splitting a matched line, batching lines into chunks, collecting the
//! per-file results, and rendering the final output — is verified.

pub mod fib;
pub mod matching;
pub mod output;
pub mod pattern;
pub mod search;
