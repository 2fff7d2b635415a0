use bystep_launcher::rules::{should_use_library, TARGET_OS};
use bystep_launcher::types::{Library, OsRule, Rule};

fn lib(rules: Option<Vec<Rule>>) -> Library {
    Library { downloads: None, name: "g:a:1".to_string(), rules }
}

fn rule(action: &str, os: Option<&str>) -> Rule {
    Rule { action: action.to_string(), os: os.map(|n| OsRule { name: n.to_string() }) }
}

#[test]
fn library_without_rules_is_used() {
    assert!(should_use_library(&lib(None), "windows"));
    assert!(should_use_library(&lib(None), "linux"));
    assert!(should_use_library(&lib(Some(vec![])), "osx"));
}

#[test]
fn allow_windows_only_excludes_other_systems() {
    let l = lib(Some(vec![rule("allow", Some("windows"))]));
    assert!(!should_use_library(&l, "linux"));
    assert!(!should_use_library(&l, "osx"));
    assert!(should_use_library(&l, TARGET_OS));
}

#[test]
fn disallow_and_unnamed_rules() {
    let l = lib(Some(vec![rule("allow", None), rule("disallow", Some("osx"))]));
    assert!(should_use_library(&l, "windows"));
    assert!(!should_use_library(&l, "osx"));
}

#[test]
fn last_deciding_rule_wins() {
    let l = lib(Some(vec![rule("disallow", Some("windows")), rule("allow", Some("windows"))]));
    assert!(should_use_library(&l, "windows"));
    let l = lib(Some(vec![rule("allow", Some("windows")), rule("disallow", Some("windows"))]));
    assert!(!should_use_library(&l, "windows"));
    let l = lib(Some(vec![rule("allow", Some("osx")), rule("allow", Some("linux"))]));
    assert!(should_use_library(&l, "linux"));
    assert!(!should_use_library(&l, "windows"));
    let l = lib(Some(vec![rule("disallow", Some("osx"))]));
    assert!(should_use_library(&l, "windows"));
}
