use import_candidates::exclude::{dev_dependency_excludes, should_exclude, ExcludePattern, Pattern};
use import_candidates::manifest::{get_dependencies, get_project_dependencies, Manifest};

fn manifest(text: &str) -> Manifest {
    Manifest::parse(text).unwrap()
}

#[test]
fn test_with_excludes_and_regex() {
    let data = manifest(
        r#"{
            "dependencies": {
                "serde": "1.0",
                "serde_json": "1.0",
                "typescript": "4.0",
                "jest": "27.0",
                "@types/jest": "27.0",
                "@types/react": "17.0",
                "rocket": "0.5"
            }
        }"#,
    );

    let excludes = [
        ExcludePattern::Plain("typescript"),
        ExcludePattern::Regex(Pattern::new(r"^@types/").unwrap()),
    ];
    let mut deps = get_dependencies("dependencies", &data, &excludes);
    let mut expected = vec!["serde", "serde_json", "jest", "rocket"];

    deps.sort();
    expected.sort();

    assert_eq!(deps, expected);
}

#[test]
fn fixed_dev_rules_keep_only_plain_packages() {
    let data = manifest(
        r#"{"dependencies": {"a":"1"}, "devDependencies": {"jest":"1","@types/x":"1","eslint-foo":"1","b":"1"}}"#,
    );
    let primary = get_dependencies("dependencies", &data, &[]);
    assert_eq!(primary, vec!["a"]);
    let rules = dev_dependency_excludes().unwrap();
    let dev = get_dependencies("devDependencies", &data, &rules);
    assert_eq!(dev, vec!["b"]);
    assert_eq!(get_project_dependencies(&data).unwrap(), vec!["a", "b"]);
}

#[test]
fn fixed_dev_rules_exclude_tooling_names() {
    let rules = dev_dependency_excludes().unwrap();
    for name in ["jest", "ts-jest", "ts-node", "eslint", "my-eslint-plugin", "@types/node"] {
        assert!(should_exclude(name, &rules), "{}", name);
    }
    for name in ["react", "jest-dom", "@typesx/a", "x@types/", "ts-nodes"] {
        assert!(!should_exclude(name, &rules), "{}", name);
    }
}

#[test]
fn sections_keep_document_order() {
    let data = manifest(r#"{"dependencies": {"zeta":"1","alpha":"1","mid":"1"}}"#);
    assert_eq!(get_dependencies("dependencies", &data, &[]), vec!["zeta", "alpha", "mid"]);
}

#[test]
fn missing_or_non_object_section_is_empty() {
    let data = manifest(r#"{"dependencies": ["a", "b"], "name": "x"}"#);
    assert!(get_dependencies("dependencies", &data, &[]).is_empty());
    assert!(get_dependencies("devDependencies", &data, &[]).is_empty());
    assert!(get_project_dependencies(&data).unwrap().is_empty());
    let not_object = manifest("[1, 2]");
    assert!(get_dependencies("dependencies", &not_object, &[]).is_empty());
}

#[test]
fn malformed_manifest_is_rejected() {
    assert!(Manifest::parse("{\"dependencies\": {").is_err());
    assert!(Manifest::parse("").is_err());
    assert!(Manifest::parse("{}").is_ok());
}

#[test]
fn plain_rule_matches_whole_name_only() {
    let rules = [ExcludePattern::Plain("jest")];
    assert!(should_exclude("jest", &rules));
    assert!(!should_exclude("jest-dom", &rules));
    assert!(!should_exclude("jes", &rules));
    assert!(!should_exclude("jest", &[]));
}

#[test]
fn regex_rule_matches_anywhere() {
    let p = Pattern::new("lint").unwrap();
    assert!(p.is_match("eslint-config"));
    assert!(!p.is_match("prettier"));
    let anchored = Pattern::new("^a").unwrap();
    assert!(anchored.is_match("abc"));
    assert!(!anchored.is_match("bac"));
}

#[test]
fn invalid_regex_is_an_error() {
    let e = Pattern::new("foo(bar").unwrap_err();
    assert_eq!(e.pattern, "foo(bar");
}
