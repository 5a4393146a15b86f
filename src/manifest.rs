use vstd::prelude::*;

use crate::exclude::{
    dev_dependency_excludes, dev_excluded, excluded, regex_compiles, should_exclude,
    ExcludePattern, PatternError,
};
use crate::text::texts_of;

verus! {

#[verifier::external_type_specification]
#[verifier::external_body]
pub struct ExValue(serde_json::Value);

/// Whether `text` is one well-formed JSON document.
pub uninterp spec fn json_parses(text: Seq<char>) -> bool;

/// The keys, in document order, of the object that the JSON document `text`
/// holds under the top-level key `key`; `None` where there is no such entry or
/// its value is not an object.
pub uninterp spec fn json_object_keys(text: Seq<char>, key: Seq<char>) -> Option<Seq<Seq<char>>>;

/// A parsed manifest, kept with the text it was parsed from.
pub struct Manifest {
    value: serde_json::Value,
    text: Ghost<Seq<char>>,
}

impl Manifest {
    /// The text that the manifest was parsed from.
    pub closed spec fn source(&self) -> Seq<char> {
        self.text@
    }
}

/// A manifest text that is not well-formed JSON.
#[derive(Debug)]
pub struct MalformedManifest {
    pub message: String,
}

/// Relies on serde_json::from_str (into a `serde_json::Value`): parses `text`,
/// failing exactly on text that is not one JSON document; the error becomes its
/// message.
#[verifier::external_body]
fn parse_json(text: &str) -> (r: Result<serde_json::Value, String>)
    ensures
        r is Ok <==> json_parses(text@),
{
    serde_json::from_str::<serde_json::Value>(text).map_err(|e| e.to_string())
}

/// Relies on serde_json's Value::get, Value::as_object and Map::keys (with
/// the order of the document kept): the keys of the object under `key`. A
/// `Manifest` is only ever built by `Manifest::parse`, so its value is that of
/// its source text.
#[verifier::external_body]
fn object_keys(m: &Manifest, key: &str) -> (r: Option<Vec<String>>)
    ensures
        r matches Some(v) ==> json_object_keys(m.source(), key@) == Some(texts_of(v@)),
        r is None <==> json_object_keys(m.source(), key@) is None,
{
    m.value.get(key).and_then(serde_json::Value::as_object).map(|o| o.keys().cloned().collect())
}

/// The names listed in the section `key` of the manifest text `text`; empty
/// where the section is absent or not an object.
pub open spec fn section_names(text: Seq<char>, key: Seq<char>) -> Seq<Seq<char>> {
    match json_object_keys(text, key) {
        Some(names) => names,
        None => seq![],
    }
}

/// The names of `names` that no rule of `rules` excludes, in their order.
pub open spec fn kept(names: Seq<Seq<char>>, rules: Seq<ExcludePattern>) -> Seq<Seq<char>>
    decreases names.len(),
{
    if names.len() == 0 {
        seq![]
    } else {
        let rest = kept(names.drop_last(), rules);
        if excluded(rules, names.last()) {
            rest
        } else {
            rest.push(names.last())
        }
    }
}

/// The names of `names` that the fixed development rules keep, in their order.
pub open spec fn dev_kept(names: Seq<Seq<char>>) -> Seq<Seq<char>>
    decreases names.len(),
{
    if names.len() == 0 {
        seq![]
    } else {
        let rest = dev_kept(names.drop_last());
        if dev_excluded(names.last()) {
            rest
        } else {
            rest.push(names.last())
        }
    }
}

/// The dependency names of the manifest text `text`: every primary dependency,
/// then the development dependencies that the fixed rules keep.
pub open spec fn project_dependency_names(text: Seq<char>) -> Seq<Seq<char>> {
    section_names(text, "dependencies"@) + dev_kept(section_names(text, "devDependencies"@))
}

impl Manifest {
    /// Parses a manifest from its text.
    pub fn parse(text: &str) -> (r: Result<Manifest, MalformedManifest>)
        ensures
            r is Ok <==> json_parses(text@),
            r matches Ok(m) ==> m.source() == text@,
    {
        match parse_json(text) {
            Ok(value) => Ok(Manifest { value, text: Ghost(text@) }),
            Err(message) => Err(MalformedManifest { message }),
        }
    }
}

/// The names of section `key` of the manifest that none of `excludes`
/// excludes, in the manifest's order; empty where the section is absent or
/// not an object.
pub fn get_dependencies(key: &str, package_json: &Manifest, excludes: &[ExcludePattern]) -> (r:
    Vec<String>)
    ensures
        texts_of(r@) == kept(section_names(package_json.source(), key@), excludes@),
{
    let keys = match object_keys(package_json, key) {
        Some(keys) => keys,
        None => Vec::new(),
    };
    let ghost names = texts_of(keys@);
    assert(names == section_names(package_json.source(), key@));
    let mut r: Vec<String> = Vec::new();
    let mut i: usize = 0;
    while i < keys.len()
        invariant
            i <= keys@.len(),
            names == texts_of(keys@),
            texts_of(r@) == kept(names.subrange(0, i as int), excludes@),
        decreases keys@.len() - i,
    {
        let name = &keys[i];
        assert(names.subrange(0, i + 1).drop_last() == names.subrange(0, i as int));
        if !should_exclude(name.as_str(), excludes) {
            r.push(name.clone());
            assert(texts_of(r@) == texts_of(r@.drop_last()).push(name@));
        }
        i = i + 1;
    }
    assert(names.subrange(0, keys@.len() as int) == names);
    r
}

/// Keeping with no rules keeps every name.
proof fn lemma_kept_none(names: Seq<Seq<char>>, rules: Seq<ExcludePattern>)
    requires
        rules.len() == 0,
    ensures
        kept(names, rules) == names,
    decreases names.len(),
{
    if names.len() > 0 {
        lemma_kept_none(names.drop_last(), rules);
    }
}

/// Rules that exclude what the fixed development rules exclude keep what they keep.
proof fn lemma_kept_dev(names: Seq<Seq<char>>, rules: Seq<ExcludePattern>)
    requires
        forall|name: Seq<char>| excluded(rules, name) <==> dev_excluded(name),
    ensures
        kept(names, rules) == dev_kept(names),
    decreases names.len(),
{
    if names.len() > 0 {
        lemma_kept_dev(names.drop_last(), rules);
    }
}

/// The primary dependencies of the manifest, then its development dependencies
/// without those that the fixed rules exclude. Fails only where one of the
/// fixed patterns does not compile.
pub fn get_project_dependencies(package_json: &Manifest) -> (r: Result<Vec<String>, PatternError>)
    ensures
        r is Ok <==> regex_compiles("eslint"@) && regex_compiles("^@types/"@),
        r matches Ok(v) ==> texts_of(v@) == project_dependency_names(package_json.source()),
{
    let excludes = dev_dependency_excludes()?;
    let none: Vec<ExcludePattern> = Vec::new();
    let mut all = get_dependencies("dependencies", package_json, none.as_slice());
    let mut dev = get_dependencies("devDependencies", package_json, excludes.as_slice());
    proof {
        lemma_kept_none(section_names(package_json.source(), "dependencies"@), none@);
        lemma_kept_dev(section_names(package_json.source(), "devDependencies"@), excludes@);
    }
    let ghost first = all@;
    let ghost second = dev@;
    all.append(&mut dev);
    assert(texts_of(all@) == texts_of(first) + texts_of(second));
    Ok(all)
}

} // verus!
