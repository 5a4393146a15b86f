use vstd::prelude::*;

use crate::specifier::{module_specifier, relative_path_of, specifier_of};
use crate::text::texts_of;

verus! {

#[verifier::external_type_specification]
#[verifier::external_body]
pub struct ExGlobMatcher(globset::GlobMatcher);

#[verifier::external_type_specification]
#[verifier::external_body]
pub struct ExGlobError(globset::Error);

/// Whether globset accepts `pattern` as a glob.
pub uninterp spec fn glob_compiles(pattern: Seq<char>) -> bool;

/// Whether the glob `pattern`, with globset's default options, matches the
/// path `path`.
pub uninterp spec fn glob_finds(pattern: Seq<char>, path: Seq<char>) -> bool;

/// The glob that admits the tracked source files, by their extension.
pub const SOURCE_GLOB: &'static str = "*.{ts,tsx}";

/// The compiled source glob.
#[derive(Debug)]
pub struct SourceFilter {
    matcher: globset::GlobMatcher,
}

/// A glob that does not compile.
#[derive(Debug)]
pub struct GlobError {
    pub pattern: String,
}

/// One path that a walk of the project yielded, and whether it is a file.
#[derive(Debug)]
pub struct WalkEntry {
    pub path: String,
    pub is_file: bool,
}

/// Relies on globset's Glob::new and Glob::compile_matcher: compiles the
/// source glob, failing exactly where the crate rejects it. Only the source
/// glob is admitted: `compile_matcher` panics where the regex built from a
/// glob exceeds the regex crate's limits, which this short glob does not.
#[verifier::external_body]
fn compile_glob(pattern: &str) -> (r: Result<globset::GlobMatcher, globset::Error>)
    requires
        pattern@ == SOURCE_GLOB@,
    ensures
        r is Ok <==> glob_compiles(pattern@),
{
    globset::Glob::new(pattern).map(|g| g.compile_matcher())
}

/// Relies on globset::GlobMatcher::is_match: whether the glob matches `path`.
/// A `SourceFilter` is only ever built by `SourceFilter::for_sources`, so its
/// matcher is that of the source glob.
#[verifier::external_body]
fn glob_is_match(f: &SourceFilter, path: &str) -> (r: bool)
    ensures
        r == glob_finds(SOURCE_GLOB@, path@),
{
    f.matcher.is_match(std::path::Path::new(path))
}

impl SourceFilter {
    /// Compiles the source glob.
    pub fn for_sources() -> (r: Result<SourceFilter, GlobError>)
        ensures
            r is Ok <==> glob_compiles(SOURCE_GLOB@),
            r matches Err(e) ==> e.pattern@ == SOURCE_GLOB@,
    {
        match compile_glob(SOURCE_GLOB) {
            Ok(matcher) => Ok(SourceFilter { matcher }),
            Err(_) => Err(GlobError { pattern: String::from_str(SOURCE_GLOB) }),
        }
    }

    /// Whether the source glob matches `path`.
    pub fn is_match(&self, path: &str) -> (r: bool)
        ensures
            r == glob_finds(SOURCE_GLOB@, path@),
    {
        glob_is_match(self, path)
    }
}

/// Each entry as its path and whether it is a file.
pub open spec fn entries_of(v: Seq<WalkEntry>) -> Seq<(Seq<char>, bool)> {
    v.map_values(|e: WalkEntry| (e.path@, e.is_file))
}

/// The module specifiers, relative to `base`, of the files among `entries`
/// whose path the source glob admits, in their order; directories, and files
/// with no path relative to `base`, are left out.
pub open spec fn modules_of(entries: Seq<(Seq<char>, bool)>, base: Seq<char>) -> Seq<Seq<char>>
    decreases entries.len(),
{
    if entries.len() == 0 {
        seq![]
    } else {
        let rest = modules_of(entries.drop_last(), base);
        let (p, is_file) = entries.last();
        if is_file && glob_finds(SOURCE_GLOB@, p) && relative_path_of(p, base) is Some {
            rest.push(specifier_of(relative_path_of(p, base)->0))
        } else {
            rest
        }
    }
}

/// The module specifiers of the source files among `entries` (what a walk of
/// the project yielded), relative to `current_dir`.
pub fn filter_modules(entries: &Vec<WalkEntry>, current_dir: &str, filter: &SourceFilter) -> (r:
    Vec<String>)
    ensures
        texts_of(r@) == modules_of(entries_of(entries@), current_dir@),
{
    let ghost walked = entries_of(entries@);
    let mut r: Vec<String> = Vec::new();
    let mut i: usize = 0;
    while i < entries.len()
        invariant
            i <= entries@.len(),
            walked == entries_of(entries@),
            texts_of(r@) == modules_of(walked.subrange(0, i as int), current_dir@),
        decreases entries@.len() - i,
    {
        let entry = &entries[i];
        let path = entry.path.as_str();
        assert(walked.subrange(0, i + 1).drop_last() == walked.subrange(0, i as int));
        if entry.is_file && filter.is_match(path) {
            match module_specifier(path, current_dir) {
                Some(m) => {
                    r.push(m);
                    assert(texts_of(r@) == texts_of(r@.drop_last()).push(m@));
                },
                None => {},
            }
        }
        i = i + 1;
    }
    assert(walked.subrange(0, entries@.len() as int) == walked);
    r
}

/// The module specifiers of the source files among `entries`, relative to
/// `current_dir`. Fails only where the source glob does not compile.
pub fn get_project_files(entries: &Vec<WalkEntry>, current_dir: &str) -> (r: Result<
    Vec<String>,
    GlobError,
>)
    ensures
        r is Ok <==> glob_compiles(SOURCE_GLOB@),
        r matches Ok(v) ==> texts_of(v@) == modules_of(entries_of(entries@), current_dir@),
{
    let filter = SourceFilter::for_sources()?;
    Ok(filter_modules(entries, current_dir, &filter))
}

} // verus!
