use import_candidates::candidates::{aggregate, collect_candidates, quote_candidates};
use import_candidates::locate::nearest_ancestor;
use import_candidates::manifest::Manifest;
use import_candidates::sources::{filter_modules, get_project_files, SourceFilter, WalkEntry};
use import_candidates::specifier::{module_specifier, normalize_module_path};

fn strings(v: &[&str]) -> Vec<String> {
    v.iter().map(|s| s.to_string()).collect()
}

fn files(v: &[&str]) -> Vec<WalkEntry> {
    v.iter().map(|s| WalkEntry { path: s.to_string(), is_file: true }).collect()
}

#[test]
fn index_file_becomes_its_directory() {
    assert_eq!(module_specifier("project/src/utils/index.ts", "project"), Some("./src/utils".to_string()));
    assert_eq!(normalize_module_path("src/utils/index.ts"), "./src/utils");
    assert_eq!(normalize_module_path("src/comp/index.tsx"), "./src/comp");
}

#[test]
fn extension_is_stripped() {
    assert_eq!(module_specifier("project/src/App.tsx", "project"), Some("./src/App".to_string()));
    assert_eq!(normalize_module_path("lib/util.ts"), "./lib/util");
    assert_eq!(normalize_module_path("lib/types.d.ts"), "./lib/types.d");
    assert_eq!(normalize_module_path("myindex.ts"), "./myindex");
    assert_eq!(normalize_module_path("lib.ts/index.ts"), "./lib");
}

#[test]
fn root_index_and_parent_paths() {
    assert_eq!(normalize_module_path("index.ts"), ".");
    assert_eq!(normalize_module_path("index.tsx"), ".");
    assert_eq!(normalize_module_path("../index.ts"), "..");
    assert_eq!(normalize_module_path("../lib/a.ts"), "../lib/a");
    assert_eq!(normalize_module_path(".hidden/a.ts"), ".hidden/a");
}

#[test]
fn backslashes_become_slashes() {
    assert_eq!(normalize_module_path("src\\lib\\a.ts"), "./src/lib/a");
    assert_eq!(normalize_module_path("src\\lib\\index.ts"), "./src/lib");
}

#[test]
fn specifier_above_the_working_directory() {
    assert_eq!(module_specifier("/a/b/c.ts", "/a/d"), Some("../b/c".to_string()));
    assert_eq!(module_specifier("rel/c.ts", "/abs"), None);
}

#[test]
fn source_glob_admits_tracked_extensions() {
    let f = SourceFilter::for_sources().unwrap();
    assert!(f.is_match("/p/src/a.ts"));
    assert!(f.is_match("/p/src/b.tsx"));
    assert!(!f.is_match("/p/src/c.js"));
    assert!(!f.is_match("/p/src/d.tsx.map"));
}

#[test]
fn project_files_are_filtered_and_normalized() {
    let entries = files(&["/p/src/a.ts", "/p/README.md", "/p/src/lib/index.tsx", "/p/b.js"]);
    let found = get_project_files(&entries, "/p").unwrap();
    assert_eq!(found, vec!["./src/a", "./src/lib"]);
    let f = SourceFilter::for_sources().unwrap();
    assert_eq!(filter_modules(&entries, "/p", &f), found);
}

#[test]
fn directories_named_like_sources_are_skipped() {
    let entries = vec![
        WalkEntry { path: "/p".to_string(), is_file: false },
        WalkEntry { path: "/p/types.ts".to_string(), is_file: false },
        WalkEntry { path: "/p/types.ts/a.ts".to_string(), is_file: true },
        WalkEntry { path: "/p/view.tsx".to_string(), is_file: false },
    ];
    assert_eq!(get_project_files(&entries, "/p").unwrap(), vec!["./types.ts/a"]);
}

#[test]
fn nearest_ancestor_is_first_hit() {
    assert_eq!(nearest_ancestor(&vec![false, true, true]), Some(1));
    assert_eq!(nearest_ancestor(&vec![true, false]), Some(0));
    assert_eq!(nearest_ancestor(&vec![false, false, false]), None);
    assert_eq!(nearest_ancestor(&vec![]), None);
}

#[test]
fn candidates_list_dependencies_then_modules() {
    let m = Manifest::parse(r#"{"dependencies": {"a": "1"}}"#).unwrap();
    let entries = files(&["/p/x.ts", "/p/y.ts"]);
    let first = collect_candidates(&m, &entries, "/p").unwrap();
    assert_eq!(first, vec!["a", "./x", "./y"]);
    let second = collect_candidates(&m, &entries, "/p").unwrap();
    assert_eq!(first, second);
}

#[test]
fn aggregate_keeps_order_and_duplicates() {
    let r = aggregate(strings(&["a", "b"]), strings(&["./x", "a"]));
    assert_eq!(r, vec!["a", "b", "./x", "a"]);
}

#[test]
fn rendering_is_quoted_and_reproducible() {
    let c = strings(&["a", "./x", "./y"]);
    assert_eq!(quote_candidates(&c), "\"a\" \"./x\" \"./y\"");
    assert_eq!(quote_candidates(&c), quote_candidates(&c));
    assert_eq!(quote_candidates(&vec![]), "");
}
