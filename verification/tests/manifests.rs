use pax::manifest::{BrowserSubstitution, BrowserSubstitutionMap, ManifestFault, PackageInfo};

fn map(entries: Vec<(&str, BrowserSubstitution<String>)>) -> BrowserSubstitutionMap {
    let mut entries: Vec<(String, BrowserSubstitution<String>)> =
        entries.into_iter().map(|(key, value)| (key.to_owned(), value)).collect();
    entries.sort_by(|a, b| a.0.cmp(&b.0));
    BrowserSubstitutionMap(entries)
}

#[test]
fn test_deserialize_browser_subst() {
    let parse = BrowserSubstitution::parse;
    assert!(matches!(parse("null"), Err(_)));
    assert!(matches!(parse("100"), Err(_)));
    assert!(matches!(parse("[1, 2, 3]"), Err(_)));
    assert!(matches!(parse("false"), Ok(BrowserSubstitution::Ignore)));
    assert!(matches!(parse("true"), Err(_)));
    assert_eq!(parse(r#""asdf""#).unwrap(), BrowserSubstitution::Replace("asdf".to_owned()));
    assert_eq!(parse(r#""""#).unwrap(), BrowserSubstitution::Replace("".to_owned()));
}

#[test]
fn test_deserialize_browser() {
    let parse = BrowserSubstitutionMap::parse;
    assert!(matches!(parse(r#"null"#), Err(_)));
    assert!(matches!(parse(r#""simple.browser.js""#), Err(_)));
    assert_eq!(parse(r#"{}"#).unwrap(), map(vec![]));
    assert_eq!(parse(r#"{"mod": "dom"}"#).unwrap(), map(vec![
        ("mod", BrowserSubstitution::Replace("dom".to_owned())),
    ]));
    assert_eq!(parse(r#"{"./file.js": "./file.browser.js"}"#).unwrap(), map(vec![
        ("./file.js", BrowserSubstitution::Replace("./file.browser.js".to_owned())),
    ]));
    assert_eq!(parse(r#"{"ignore": false}"#).unwrap(), map(vec![
        ("ignore", BrowserSubstitution::Ignore),
    ]));
    assert_eq!(parse(r#"{
        "ignore": false,
        "mod": "dom",
        "mod2file": "./modfile.js",
        "mod2up": "../up.js",
        "mod2dir": "./moddir",
        "mod2abs": "/z/y/x",
        "./fileignore.js": false,
        "./file2mod.js": "mod",
        "./file2file.js": "./file.js",
        "./file2dir.js": "./dir",
        "./file2up.js": "../up.js",
        "./file2abs.js": "/x/y/z"
    }"#).unwrap(), map(vec![
        ("ignore", BrowserSubstitution::Ignore),
        ("mod", BrowserSubstitution::Replace("dom".to_owned())),
        ("mod2file", BrowserSubstitution::Replace("./modfile.js".to_owned())),
        ("mod2up", BrowserSubstitution::Replace("../up.js".to_owned())),
        ("mod2dir", BrowserSubstitution::Replace("./moddir".to_owned())),
        ("mod2abs", BrowserSubstitution::Replace("/z/y/x".to_owned())),
        ("./fileignore.js", BrowserSubstitution::Ignore),
        ("./file2mod.js", BrowserSubstitution::Replace("mod".to_owned())),
        ("./file2file.js", BrowserSubstitution::Replace("./file.js".to_owned())),
        ("./file2dir.js", BrowserSubstitution::Replace("./dir".to_owned())),
        ("./file2up.js", BrowserSubstitution::Replace("../up.js".to_owned())),
        ("./file2abs.js", BrowserSubstitution::Replace("/x/y/z".to_owned())),
    ]));
}

#[test]
fn test_deserialize_package_info() {
    let parse = PackageInfo::parse;
    assert!(matches!(parse("null"), Err(_)));
    assert!(matches!(parse("100"), Err(_)));
    assert!(matches!(parse("[1, 2, 3]"), Err(_)));
    assert_eq!(parse(r#"{}"#).unwrap(), PackageInfo {
        main: "./index".to_owned(),
        browser_substitutions: map(vec![]),
    });
    assert_eq!(parse(r#"{"browser": null}"#).unwrap(), PackageInfo {
        main: "./index".to_owned(),
        browser_substitutions: map(vec![]),
    });
    assert_eq!(parse(r#"{"browser": "simple"}"#).unwrap(), PackageInfo {
        main: "./index".to_owned(),
        browser_substitutions: map(vec![
            ("./index", BrowserSubstitution::Replace("./simple".to_owned())),
        ]),
    });
    assert_eq!(parse(r#"{"browser": {}}"#).unwrap(), PackageInfo {
        main: "./index".to_owned(),
        browser_substitutions: map(vec![]),
    });
    assert_eq!(parse(r#"{"browser": {"mod": false}}"#).unwrap(), PackageInfo {
        main: "./index".to_owned(),
        browser_substitutions: map(vec![
            ("mod", BrowserSubstitution::Ignore),
        ]),
    });
}

#[test]
fn each_reason_to_refuse_a_manifest() {
    let parse = PackageInfo::parse;
    assert_eq!(parse("{"), Err(ManifestFault::Syntax));
    assert_eq!(parse(""), Err(ManifestFault::Syntax));
    assert_eq!(parse("null"), Err(ManifestFault::NotAnObject));
    assert_eq!(parse(r#""text""#), Err(ManifestFault::NotAnObject));
    assert_eq!(parse(r#"{"main": 5}"#), Err(ManifestFault::Main));
    assert_eq!(parse(r#"{"main": ["a"]}"#), Err(ManifestFault::Main));
    assert_eq!(parse(r#"{"browser": 5}"#), Err(ManifestFault::Browser));
    assert_eq!(parse(r#"{"browser": true}"#), Err(ManifestFault::Browser));
    assert_eq!(parse(r#"{"browser": [1]}"#), Err(ManifestFault::Browser));
    assert_eq!(parse(r#"{"browser": {"a": true}}"#), Err(ManifestFault::Substitution));
    assert_eq!(parse(r#"{"browser": {"a": "b", "c": null}}"#), Err(ManifestFault::Substitution));
    assert_eq!(parse(r#"{"main": 5, "browser": 5}"#), Err(ManifestFault::Main));
    assert_eq!(BrowserSubstitutionMap::parse("null"), Err(ManifestFault::Browser));
    assert_eq!(BrowserSubstitutionMap::parse("nul"), Err(ManifestFault::Syntax));
    assert_eq!(BrowserSubstitution::parse("true"), Err(ManifestFault::Substitution));
    assert_eq!(BrowserSubstitution::parse("fals"), Err(ManifestFault::Syntax));
}

#[test]
fn a_manifest_names_its_main() {
    let parse = PackageInfo::parse;
    assert_eq!(parse(r#"{"main": "lib/main.js"}"#).unwrap().main, "lib/main.js");
    assert_eq!(parse(r#"{"main": "./lib/"}"#).unwrap().main, "./lib/");
    assert_eq!(parse(r#"{"main": null}"#).unwrap().main, "./index");
    assert_eq!(parse(r#"{"name": "x", "version": "1.0.0"}"#).unwrap().main, "./index");
}

#[test]
fn a_string_under_browser_replaces_the_main() {
    let parse = PackageInfo::parse;
    assert_eq!(parse(r#"{"main": "lib/main.js", "browser": "dist/web.js"}"#).unwrap(), PackageInfo {
        main: "lib/main.js".to_owned(),
        browser_substitutions: map(vec![
            ("lib/main.js", BrowserSubstitution::Replace("./dist/web.js".to_owned())),
        ]),
    });
    assert_eq!(parse(r#"{"browser": "./a/../b.js"}"#).unwrap().browser_substitutions, map(vec![
        ("./index", BrowserSubstitution::Replace("./b.js".to_owned())),
    ]));
    assert_eq!(parse(r#"{"browser": "/abs/web.js"}"#).unwrap().browser_substitutions, map(vec![
        ("./index", BrowserSubstitution::Replace("/abs/web.js".to_owned())),
    ]));
}

#[test]
fn the_members_of_browser_come_in_the_order_of_their_keys() {
    let found = BrowserSubstitutionMap::parse(r#"{"b": "x", "a": false, "./c": "y"}"#).unwrap();
    assert_eq!(found.0, vec![
        ("./c".to_owned(), BrowserSubstitution::Replace("y".to_owned())),
        ("a".to_owned(), BrowserSubstitution::Ignore),
        ("b".to_owned(), BrowserSubstitution::Replace("x".to_owned())),
    ]);
}

#[test]
fn a_manifest_from_a_value() {
    let value: serde_json::Value = serde_json::from_str(r#"{"main": "m", "browser": {"k": "v"}}"#).unwrap();
    assert_eq!(PackageInfo::from_value(&value).unwrap(), PackageInfo {
        main: "m".to_owned(),
        browser_substitutions: map(vec![("k", BrowserSubstitution::Replace("v".to_owned()))]),
    });
    let value: serde_json::Value = serde_json::from_str("[]").unwrap();
    assert_eq!(PackageInfo::from_value(&value), Err(ManifestFault::NotAnObject));
    assert_eq!(BrowserSubstitutionMap::from_value(&value), Err(ManifestFault::Browser));
    assert_eq!(BrowserSubstitution::from_value(&value), Err(ManifestFault::Substitution));
}
