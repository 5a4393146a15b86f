use vstd::prelude::*;

use crate::text::ends_with;

verus! {

/// The path of `path` relative to `base`, as pathdiff computes it (`None` where
/// no such path exists, as for a relative `path` against an absolute `base`).
pub uninterp spec fn relative_path_of(path: Seq<char>, base: Seq<char>) -> Option<Seq<char>>;

/// Every backslash turned into a forward slash.
pub open spec fn forward_slashes(s: Seq<char>) -> Seq<char> {
    s.map_values(|c: char| if c == '\\' { '/' } else { c })
}

/// `s` ends with `suffix`.
pub open spec fn has_suffix(s: Seq<char>, suffix: Seq<char>) -> bool {
    suffix.len() <= s.len() && s.subrange(s.len() - suffix.len(), s.len() as int) == suffix
}

/// `s` with its last `n` characters removed.
pub open spec fn drop_end(s: Seq<char>, n: int) -> Seq<char> {
    s.subrange(0, s.len() - n)
}

/// A path with a trailing index file replaced by its directory (`.` for an
/// index file that stands alone).
pub open spec fn drop_index(s: Seq<char>) -> Seq<char> {
    if has_suffix(s, "/index.ts"@) {
        drop_end(s, 9)
    } else if has_suffix(s, "/index.tsx"@) {
        drop_end(s, 10)
    } else if s == "index.ts"@ || s == "index.tsx"@ {
        "."@
    } else {
        s
    }
}

/// A path without its tracked source extension, if it has one.
pub open spec fn drop_extension(s: Seq<char>) -> Seq<char> {
    if has_suffix(s, ".ts"@) {
        drop_end(s, 3)
    } else if has_suffix(s, ".tsx"@) {
        drop_end(s, 4)
    } else {
        s
    }
}

/// A source path with a trailing index file replaced by its directory, then
/// with the tracked extension removed.
pub open spec fn strip_source(s: Seq<char>) -> Seq<char> {
    drop_extension(drop_index(s))
}

/// `s` itself when it starts with a dot, else `s` behind `./`.
pub open spec fn dotted(s: Seq<char>) -> Seq<char> {
    if s.len() > 0 && s[0] == '.' {
        s
    } else {
        "./"@ + s
    }
}

/// The module specifier that imports the file at the relative path `rel`.
pub open spec fn specifier_of(rel: Seq<char>) -> Seq<char> {
    dotted(strip_source(forward_slashes(rel)))
}

/// Relies on pathdiff::diff_paths: the path of `path` relative to `base`.
#[verifier::external_body]
fn diff_paths(path: &str, base: &str) -> (r: Option<String>)
    ensures
        r matches Some(p) ==> relative_path_of(path@, base@) == Some(p@),
        r is None ==> relative_path_of(path@, base@) is None,
{
    pathdiff::diff_paths(std::path::Path::new(path), std::path::Path::new(base)).map(
        |p| p.display().to_string(),
    )
}

/// Turns a path relative to the working directory into a module specifier.
pub fn normalize_module_path(rel: &str) -> (r: String)
    ensures
        r@ == specifier_of(rel@),
        r@.len() > 0 && r@[0] == '.',
{
    let n = rel.unicode_len();
    let mut s = String::new();
    let mut i: usize = 0;
    while i < n
        invariant
            i <= n,
            n == rel@.len(),
            s@ == forward_slashes(rel@.subrange(0, i as int)),
        decreases n - i,
    {
        let c = rel.get_char(i);
        if c == '\\' {
            s.append("/");
            proof {
                reveal_strlit("/");
            }
            assert("/"@ =~= seq!['/']);
        } else {
            s.append(rel.substring_char(i, i + 1));
            assert(rel@.subrange(i as int, i + 1) =~= seq![c]);
        }
        proof {
            assert(rel@.subrange(0, i + 1) == rel@.subrange(0, i as int).push(c));
            assert(forward_slashes(rel@.subrange(0, i + 1)) =~= forward_slashes(
                rel@.subrange(0, i as int),
            ).push(if c == '\\' { '/' } else { c }));
        }
        i = i + 1;
    }
    assert(rel@.subrange(0, n as int) == rel@);
    let dir = drop_index_text(s.as_str());
    let stripped = drop_extension_text(dir.as_str());
    if stripped.unicode_len() > 0 && stripped.as_str().get_char(0) == '.' {
        stripped
    } else {
        proof {
            reveal_strlit("./");
        }
        String::from_str("./").concat(stripped.as_str())
    }
}

/// `s` without its last `n` characters.
fn without_last(s: &str, n: usize) -> (r: String)
    requires
        n <= s@.len(),
    ensures
        r@ == drop_end(s@, n as int),
{
    let len = s.unicode_len();
    String::from_str(s.substring_char(0, len - n))
}

fn drop_index_text(s: &str) -> (r: String)
    ensures
        r@ == drop_index(s@),
{
    proof {
        reveal_strlit("index.ts");
        reveal_strlit("index.tsx");
        reveal_strlit(".");
        reveal_strlit("/index.ts");
        reveal_strlit("/index.tsx");
    }
    let len = s.unicode_len();
    assert(s@.subrange(0, s@.len() as int) == s@);
    if ends_with(s, "/index.ts") {
        without_last(s, 9)
    } else if ends_with(s, "/index.tsx") {
        without_last(s, 10)
    } else if (len == 8 && ends_with(s, "index.ts")) || (len == 9 && ends_with(s, "index.tsx")) {
        String::from_str(".")
    } else {
        String::from_str(s)
    }
}

fn drop_extension_text(s: &str) -> (r: String)
    ensures
        r@ == drop_extension(s@),
{
    proof {
        reveal_strlit(".ts");
        reveal_strlit(".tsx");
    }
    if ends_with(s, ".ts") {
        without_last(s, 3)
    } else if ends_with(s, ".tsx") {
        without_last(s, 4)
    } else {
        String::from_str(s)
    }
}

/// The module specifier of the file at `path`, taken relative to `base`, or
/// `None` where the file has no path relative to `base`.
pub fn module_specifier(path: &str, base: &str) -> (r: Option<String>)
    ensures
        r matches Some(m) ==> m@ == specifier_of(relative_path_of(path@, base@)->0),
        r is None <==> relative_path_of(path@, base@) is None,
{
    match diff_paths(path, base) {
        Some(rel) => Some(normalize_module_path(rel.as_str())),
        None => None,
    }
}

} // verus!
