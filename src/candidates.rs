use vstd::prelude::*;

use crate::exclude::{regex_compiles, PatternError};
use crate::manifest::{get_project_dependencies, project_dependency_names, Manifest};
use crate::sources::{
    entries_of, get_project_files, glob_compiles, modules_of, GlobError, WalkEntry, SOURCE_GLOB,
};
use crate::text::texts_of;

verus! {

/// Why no candidate list could be built.
#[derive(Debug)]
pub enum CandidateError {
    Glob(GlobError),
    Pattern(PatternError),
}

/// The candidates for the manifest text `text`, the walked entries `entries`
/// and the working directory `base`: the dependency names, then the module
/// specifiers of the source files.
pub open spec fn candidate_names(text: Seq<char>, entries: Seq<(Seq<char>, bool)>, base: Seq<char>) -> Seq<
    Seq<char>,
> {
    project_dependency_names(text) + modules_of(entries, base)
}

/// `s` between double quotes.
pub open spec fn quote(s: Seq<char>) -> Seq<char> {
    seq!['"'] + s + seq!['"']
}

/// Each of `names` quoted, separated by single spaces.
pub open spec fn quoted_list(names: Seq<Seq<char>>) -> Seq<char>
    decreases names.len(),
{
    if names.len() == 0 {
        seq![]
    } else if names.len() == 1 {
        quote(names[0])
    } else {
        quoted_list(names.drop_last()) + seq![' '] + quote(names.last())
    }
}

/// The dependency names followed by the module specifiers, both in their order.
pub fn aggregate(dependencies: Vec<String>, modules: Vec<String>) -> (r: Vec<String>)
    ensures
        r@ == dependencies@ + modules@,
{
    let mut r = dependencies;
    let mut rest = modules;
    r.append(&mut rest);
    r
}

/// The candidate list of a project: the manifest's dependency names, then the
/// module specifiers, relative to `current_dir`, of the source files among
/// `entries` (what a walk of the project yielded).
pub fn collect_candidates(package_json: &Manifest, entries: &Vec<WalkEntry>, current_dir: &str) -> (r:
    Result<Vec<String>, CandidateError>)
    ensures
        r is Ok <==> glob_compiles(SOURCE_GLOB@) && regex_compiles("eslint"@) && regex_compiles(
            "^@types/"@,
        ),
        r matches Err(CandidateError::Glob(_)) <==> !glob_compiles(SOURCE_GLOB@),
        r matches Ok(v) ==> texts_of(v@) == candidate_names(
            package_json.source(),
            entries_of(entries@),
            current_dir@,
        ),
{
    let files = match get_project_files(entries, current_dir) {
        Ok(files) => files,
        Err(e) => return Err(CandidateError::Glob(e)),
    };
    let deps = match get_project_dependencies(package_json) {
        Ok(deps) => deps,
        Err(e) => return Err(CandidateError::Pattern(e)),
    };
    let ghost (d, f) = (deps@, files@);
    let r = aggregate(deps, files);
    assert(texts_of(r@) == texts_of(d) + texts_of(f));
    Ok(r)
}

/// Each candidate between double quotes, separated by single spaces.
pub fn quote_candidates(candidates: &Vec<String>) -> (r: String)
    ensures
        r@ == quoted_list(texts_of(candidates@)),
{
    let ghost names = texts_of(candidates@);
    let mut r = String::new();
    let mut i: usize = 0;
    while i < candidates.len()
        invariant
            i <= candidates@.len(),
            names == texts_of(candidates@),
            r@ == quoted_list(names.subrange(0, i as int)),
        decreases candidates@.len() - i,
    {
        proof {
            reveal_strlit(" ");
            reveal_strlit("\"");
        }
        assert(names.subrange(0, i + 1).drop_last() == names.subrange(0, i as int));
        if i > 0 {
            r.append(" ");
        }
        r.append("\"");
        r.append(candidates[i].as_str());
        r.append("\"");
        assert(" "@ == seq![' ']);
        assert("\""@ == seq!['"']);
        assert(r@ == quoted_list(names.subrange(0, i + 1)));
        i = i + 1;
    }
    assert(names.subrange(0, candidates@.len() as int) == names);
    r
}

/// Building the candidate list is reproducible: the same manifest text, the
/// same walked entries and the same working directory give the same list, and
/// so the same rendered text.
pub proof fn lemma_candidates_reproducible(
    text1: Seq<char>,
    text2: Seq<char>,
    entries1: Seq<(Seq<char>, bool)>,
    entries2: Seq<(Seq<char>, bool)>,
    base1: Seq<char>,
    base2: Seq<char>,
)
    requires
        text1 == text2,
        entries1 == entries2,
        base1 == base2,
    ensures
        candidate_names(text1, entries1, base1) == candidate_names(text2, entries2, base2),
        quoted_list(candidate_names(text1, entries1, base1)) == quoted_list(
            candidate_names(text2, entries2, base2),
        ),
{
}

} // verus!
