use juge_launcher::game::{GameManager, Library};
use juge_launcher::platform::{HostArch, HostOs, HostPlatform};
use juge_launcher::rules::{OsRule, Rule};

fn host(os: HostOs) -> HostPlatform {
    HostPlatform { os, arch: HostArch::X64 }
}

fn lib_with_rules(rules: Option<Vec<Rule>>) -> Library {
    Library {
        name: "org.example:thing:1.0".to_string(),
        url: None,
        downloads: None,
        natives: Vec::new(),
        rules,
    }
}

fn disallow_windows() -> Vec<Rule> {
    vec![Rule {
        action: "disallow".to_string(),
        os: Some(OsRule { name: Some("windows".to_string()) }),
    }]
}

#[test]
fn disallow_windows_excludes_on_windows() {
    let mgr = GameManager::new(String::from("/game"));
    let lib = lib_with_rules(Some(disallow_windows()));
    assert!(!mgr.should_include_library(&lib, &host(HostOs::Windows)));
}

#[test]
fn disallow_windows_permits_on_linux() {
    let mgr = GameManager::new(String::from("/game"));
    let lib = lib_with_rules(Some(disallow_windows()));
    assert!(mgr.should_include_library(&lib, &host(HostOs::Linux)));
}

#[test]
fn absent_rules_permit() {
    let mgr = GameManager::new(String::from("/game"));
    let lib = lib_with_rules(None);
    assert!(mgr.should_include_library(&lib, &host(HostOs::Windows)));
}

#[test]
fn empty_rule_list_permits() {
    let mgr = GameManager::new(String::from("/game"));
    let lib = lib_with_rules(Some(Vec::new()));
    assert!(mgr.should_include_library(&lib, &host(HostOs::Osx)));
}

#[test]
fn allow_with_unmatched_os_excludes() {
    let mgr = GameManager::new(String::from("/game"));
    let rules = vec![Rule {
        action: "allow".to_string(),
        os: Some(OsRule { name: Some("osx".to_string()) }),
    }];
    let lib = lib_with_rules(Some(rules));
    assert!(!mgr.should_include_library(&lib, &host(HostOs::Linux)));
    assert!(mgr.should_include_library(&lib, &host(HostOs::Osx)));
}

#[test]
fn unconditional_allow_permits_everywhere() {
    let mgr = GameManager::new(String::from("/game"));
    let rules = vec![Rule { action: "allow".to_string(), os: None }];
    let lib = lib_with_rules(Some(rules));
    assert!(mgr.should_include_library(&lib, &host(HostOs::Windows)));
    assert!(mgr.should_include_library(&lib, &host(HostOs::Linux)));
}

#[test]
fn unconditional_disallow_excludes_everywhere() {
    let mgr = GameManager::new(String::from("/game"));
    let rules = vec![Rule { action: "disallow".to_string(), os: None }];
    let lib = lib_with_rules(Some(rules));
    assert!(!mgr.should_include_library(&lib, &host(HostOs::Windows)));
    assert!(!mgr.should_include_library(&lib, &host(HostOs::Linux)));
}

#[test]
fn rule_with_empty_os_condition_matches_all_hosts() {
    let mgr = GameManager::new(String::from("/game"));
    let rules = vec![Rule { action: "disallow".to_string(), os: Some(OsRule { name: None }) }];
    let lib = lib_with_rules(Some(rules));
    assert!(!mgr.should_include_library(&lib, &host(HostOs::Linux)));
}
