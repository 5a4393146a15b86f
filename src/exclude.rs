use vstd::prelude::*;

use crate::text::same_text;

verus! {

#[verifier::external_type_specification]
#[verifier::external_body]
pub struct ExRegex(regex::Regex);

#[verifier::external_type_specification]
#[verifier::external_body]
pub struct ExRegexError(regex::Error);

/// Whether the regex crate accepts `pattern` as a regular expression.
pub uninterp spec fn regex_compiles(pattern: Seq<char>) -> bool;

/// Whether the regular expression `pattern` matches somewhere in `text`.
pub uninterp spec fn regex_finds(pattern: Seq<char>, text: Seq<char>) -> bool;

/// A compiled regular expression together with the text it was compiled from.
#[derive(Debug)]
pub struct Pattern {
    source: String,
    compiled: regex::Regex,
}

impl View for Pattern {
    type V = Seq<char>;

    closed spec fn view(&self) -> Seq<char> {
        self.source@
    }
}

/// A regular expression that does not compile.
#[derive(Debug)]
pub struct PatternError {
    pub pattern: String,
}

/// Relies on regex::Regex::new: compiles `source`, failing exactly on the
/// patterns that the crate rejects.
#[verifier::external_body]
fn compile_regex(source: &str) -> (r: Result<regex::Regex, regex::Error>)
    ensures
        r is Ok <==> regex_compiles(source@),
{
    regex::Regex::new(source)
}

/// Relies on regex::Regex::is_match: whether the compiled pattern matches
/// anywhere in `text`. A `Pattern` is only ever built by `Pattern::new`, so its
/// compiled form is that of its source.
#[verifier::external_body]
fn regex_is_match(p: &Pattern, text: &str) -> (r: bool)
    ensures
        r == regex_finds(p@, text@),
{
    p.compiled.is_match(text)
}

impl Pattern {
    /// Compiles `source` as a regular expression.
    pub fn new(source: &str) -> (r: Result<Pattern, PatternError>)
        ensures
            r is Ok <==> regex_compiles(source@),
            r matches Ok(p) ==> p@ == source@,
            r matches Err(e) ==> e.pattern@ == source@,
    {
        match compile_regex(source) {
            Ok(compiled) => Ok(Pattern { source: String::from_str(source), compiled }),
            Err(_) => Err(PatternError { pattern: String::from_str(source) }),
        }
    }

    /// Whether the pattern matches somewhere in `text`.
    pub fn is_match(&self, text: &str) -> (r: bool)
        ensures
            r == regex_finds(self@, text@),
    {
        regex_is_match(self, text)
    }
}

/// A rule that excludes a dependency name: an exact name, or a pattern that
/// matches somewhere in the name.
pub enum ExcludePattern<'a> {
    Plain(&'a str),
    Regex(Pattern),
}

/// Whether `rule` excludes `name`.
pub open spec fn rule_matches(rule: ExcludePattern, name: Seq<char>) -> bool {
    match rule {
        ExcludePattern::Plain(s) => s@ == name,
        ExcludePattern::Regex(p) => regex_finds(p@, name),
    }
}

/// Whether some rule of `rules` excludes `name`.
pub open spec fn excluded(rules: Seq<ExcludePattern>, name: Seq<char>) -> bool {
    exists|i: int| 0 <= i < rules.len() && rule_matches(#[trigger] rules[i], name)
}

/// Whether any of `excludes` excludes `key`.
pub fn should_exclude(key: &str, excludes: &[ExcludePattern]) -> (r: bool)
    ensures
        r == excluded(excludes@, key@),
{
    let mut i: usize = 0;
    while i < excludes.len()
        invariant
            i <= excludes@.len(),
            forall|j: int| 0 <= j < i ==> !rule_matches(#[trigger] excludes@[j], key@),
        decreases excludes@.len() - i,
    {
        let hit = match &excludes[i] {
            ExcludePattern::Plain(s) => same_text(s, key),
            ExcludePattern::Regex(p) => p.is_match(key),
        };
        if hit {
            assert(rule_matches(excludes@[i as int], key@));
            return true;
        }
        i = i + 1;
    }
    false
}

/// The names that the fixed development-dependency rules exclude: test
/// runners and tooling by exact name, linters by the substring `eslint`, and
/// type-declaration packages by the `@types/` scope.
pub open spec fn dev_excluded(name: Seq<char>) -> bool {
    name == "jest"@ || name == "ts-jest"@ || name == "ts-node"@ || regex_finds("eslint"@, name)
        || regex_finds("^@types/"@, name)
}

/// The fixed exclusion rules for development dependencies.
pub fn dev_dependency_excludes() -> (r: Result<Vec<ExcludePattern<'static>>, PatternError>)
    ensures
        r is Ok <==> regex_compiles("eslint"@) && regex_compiles("^@types/"@),
        r matches Ok(v) ==> forall|name: Seq<char>| excluded(v@, name) <==> dev_excluded(name),
{
    let lint = Pattern::new("eslint")?;
    let types = Pattern::new("^@types/")?;
    let v = vec![
        ExcludePattern::Plain("jest"),
        ExcludePattern::Plain("ts-jest"),
        ExcludePattern::Plain("ts-node"),
        ExcludePattern::Regex(lint),
        ExcludePattern::Regex(types),
    ];
    assert forall|name: Seq<char>| excluded(v@, name) <==> dev_excluded(name) by {
        if dev_excluded(name) {
            if name == "jest"@ {
                assert(rule_matches(v@[0], name));
            } else if name == "ts-jest"@ {
                assert(rule_matches(v@[1], name));
            } else if name == "ts-node"@ {
                assert(rule_matches(v@[2], name));
            } else if regex_finds("eslint"@, name) {
                assert(rule_matches(v@[3], name));
            } else {
                assert(rule_matches(v@[4], name));
            }
        }
    }
    Ok(v)
}

} // verus!
