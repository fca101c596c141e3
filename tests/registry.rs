use treetest::availability::{command_exists, filter_available_frameworks, filter_for_host, first_token, usable_on};
use treetest::codec::{decode_registry, encode_registry, registry_from_entries, Field, RegistryError};
use treetest::config::{config_path_parts, ConfigError};
use treetest::framework::Framework;
use treetest::merge::{contains_name, merge_frameworks, update_frameworks};
use treetest::plan::{action_or_default, plan_invocations, Action, Invocation};

fn fw(name: &str, list_cmd: &str, run_cmd: &str) -> Framework {
    Framework::new(name.to_string(), list_cmd.to_string(), run_cmd.to_string())
}

fn host(names: &[&str]) -> Vec<String> {
    names.iter().map(|s| s.to_string()).collect()
}

#[test]
fn merge_adds_only_unknown_names() {
    let local = vec![fw("A", "a --list", "a")];
    let remote = vec![fw("A", "other --list", "other"), fw("B", "b --list", "b")];
    let (merged, added) = merge_frameworks(local, remote);
    assert_eq!(merged, vec![fw("A", "a --list", "a"), fw("B", "b --list", "b")]);
    assert_eq!(added, 1);
}

#[test]
fn merge_twice_adds_nothing() {
    let local = vec![fw("A", "a", "a")];
    let remote = vec![fw("B", "b", "b"), fw("C", "c", "c")];
    let (once, added_once) = merge_frameworks(local, remote.clone());
    assert_eq!(added_once, 2);
    let (twice, added_twice) = merge_frameworks(once.clone(), remote);
    assert_eq!(added_twice, 0);
    assert_eq!(twice, once);
}

#[test]
fn merge_keeps_local_entries_in_front() {
    let local = vec![fw("B", "mine", "mine"), fw("A", "x", "y")];
    let remote = vec![fw("C", "c", "c"), fw("B", "theirs", "theirs"), fw("C", "c2", "c2")];
    let (merged, added) = merge_frameworks(local.clone(), remote);
    assert_eq!(&merged[..2], &local[..]);
    assert_eq!(merged[2], fw("C", "c", "c"));
    assert_eq!(merged.len(), 3);
    assert_eq!(added, 1);
}

#[test]
fn merge_empty_remote_changes_nothing() {
    let local = vec![fw("A", "a", "a")];
    let (merged, added) = merge_frameworks(local.clone(), Vec::new());
    assert_eq!(merged, local);
    assert_eq!(added, 0);
}

#[test]
fn merge_into_empty_registry() {
    let remote = vec![fw("A", "a", "a"), fw("A", "b", "b")];
    let (merged, added) = merge_frameworks(Vec::new(), remote);
    assert_eq!(merged, vec![fw("A", "a", "a")]);
    assert_eq!(added, 1);
}

#[test]
fn names_are_case_sensitive() {
    let local = vec![fw("pytest", "p", "p")];
    assert!(contains_name(&local, &"pytest".to_string()));
    assert!(!contains_name(&local, &"PyTest".to_string()));
    let (merged, added) = merge_frameworks(local, vec![fw("PyTest", "q", "q")]);
    assert_eq!(added, 1);
    assert_eq!(merged.len(), 2);
}

#[test]
fn first_token_takes_the_executable() {
    assert_eq!(first_token("pytest --collect-only"), Some("pytest".to_string()));
    assert_eq!(first_token("  \t cargo  test"), Some("cargo".to_string()));
    assert_eq!(first_token("\u{3000}go\u{2003}test"), Some("go".to_string()));
    assert_eq!(first_token("npm"), Some("npm".to_string()));
    assert_eq!(first_token(""), None);
    assert_eq!(first_token(" \n\t "), None);
}

#[test]
fn blank_command_is_unavailable() {
    assert!(!command_exists(""));
    assert!(!command_exists("   "));
    assert!(!command_exists("no-such-executable-for-this-test --flag"));
}

#[test]
fn missing_executable_empties_the_registry() {
    let registry = vec![fw("pytest", "pytest --collect-only", "pytest")];
    let filtered = filter_for_host(registry.clone(), &host(&[]));
    assert!(filtered.is_empty());
    assert!(plan_invocations(Action::Run, &filtered).is_empty());
    let kept = filter_for_host(registry.clone(), &host(&["pytest"]));
    assert_eq!(kept, registry);
}

#[test]
fn probing_a_missing_executable_filters_it_out() {
    let registry = vec![fw("ghost", "no-such-executable-for-this-test --list", "no-such-executable-for-this-test")];
    assert!(filter_available_frameworks(registry).is_empty());
}

#[test]
fn both_commands_must_be_available() {
    let f = fw("mixed", "lister --all", "runner");
    assert!(!usable_on(&f, &host(&["lister"])));
    assert!(!usable_on(&f, &host(&["runner"])));
    assert!(usable_on(&f, &host(&["runner", "lister"])));
    assert!(!usable_on(&fw("blank", "", "runner"), &host(&["runner", ""])));
}

#[test]
fn removing_an_executable_only_shrinks_the_filter() {
    let registry = vec![
        fw("a", "x --list", "x"),
        fw("b", "y --list", "y"),
        fw("c", "x list", "y run"),
    ];
    let larger = filter_for_host(registry.clone(), &host(&["x", "y"]));
    let smaller = filter_for_host(registry.clone(), &host(&["x"]));
    assert_eq!(larger, registry);
    assert_eq!(smaller, vec![fw("a", "x --list", "x")]);
    assert_eq!(filter_for_host(larger, &host(&["x"])), smaller);
}

#[test]
fn decode_reads_a_registry() {
    let text = r#"[
        {"name": "pytest", "list_cmd": "pytest --collect-only", "run_cmd": "pytest"},
        {"name": "cargo", "list_cmd": "cargo test -- --list", "run_cmd": "cargo test", "note": 3}
    ]"#;
    assert_eq!(
        decode_registry(text),
        Ok(vec![
            fw("pytest", "pytest --collect-only", "pytest"),
            fw("cargo", "cargo test -- --list", "cargo test"),
        ])
    );
    assert_eq!(decode_registry("[]"), Ok(Vec::new()));
}

#[test]
fn decode_rejects_missing_run_cmd() {
    let text = r#"[{"name":"X","list_cmd":"echo hi"}]"#;
    assert_eq!(
        decode_registry(text),
        Err(RegistryError::MissingField { index: 0, field: Field::RunCmd })
    );
}

#[test]
fn decode_rejects_whole_registry_on_one_bad_entry() {
    let text = r#"[{"name":"A","list_cmd":"a","run_cmd":"a"},{"list_cmd":"b","run_cmd":"b"}]"#;
    assert_eq!(
        decode_registry(text),
        Err(RegistryError::MissingField { index: 1, field: Field::Name })
    );
    let text = r#"[{"name":"A","list_cmd":7,"run_cmd":"a"}]"#;
    assert_eq!(
        decode_registry(text),
        Err(RegistryError::MissingField { index: 0, field: Field::ListCmd })
    );
}

#[test]
fn decode_rejects_malformed_text() {
    assert_eq!(decode_registry("[{"), Err(RegistryError::Syntax));
    assert_eq!(decode_registry(""), Err(RegistryError::Syntax));
    assert_eq!(decode_registry(r#"{"name":"A"}"#), Err(RegistryError::NotAList));
}

#[test]
fn entries_build_descriptors() {
    let entries = vec![
        (Some("A".to_string()), Some("a l".to_string()), Some("a r".to_string())),
        (Some("B".to_string()), None, None),
    ];
    assert_eq!(
        registry_from_entries(&entries),
        Err(RegistryError::MissingField { index: 1, field: Field::ListCmd })
    );
    assert_eq!(registry_from_entries(&entries[..1].to_vec()), Ok(vec![fw("A", "a l", "a r")]));
}

#[test]
fn save_load_save_round_trip() {
    let registry = vec![
        fw("pytest", "pytest --collect-only", "pytest"),
        fw("quote \"odd\"", "echo 'a\\b'", "run\ttab"),
        fw("unicode é", "ls", "true"),
    ];
    let text = encode_registry(&registry);
    let loaded = decode_registry(&text).unwrap();
    assert_eq!(loaded, registry);
    let again = encode_registry(&loaded);
    assert_eq!(decode_registry(&again).unwrap(), registry);
    assert_eq!(again, text);
}

#[test]
fn encode_is_pretty_printed() {
    let text = encode_registry(&vec![fw("A", "a", "b")]);
    assert!(text.starts_with("[\n"));
    assert!(text.contains("\"name\": \"A\""));
    assert!(text.contains("\"list_cmd\": \"a\""));
    assert!(text.contains("\"run_cmd\": \"b\""));
    assert!(text.contains("\n  {\n    \""));
    assert_eq!(encode_registry(&Vec::new()), "[]");
}

#[test]
fn config_path_on_windows() {
    assert_eq!(
        config_path_parts(true, Some("C:\\Users\\me\\AppData".to_string()), None, Some("/h".to_string())),
        Ok(host(&["C:\\Users\\me\\AppData", "treetest", "frameworks.json"]))
    );
    assert_eq!(
        config_path_parts(true, None, Some("/x".to_string()), Some("/h".to_string())),
        Err(ConfigError::AppDataUnset)
    );
}

#[test]
fn config_path_elsewhere() {
    assert_eq!(
        config_path_parts(false, Some("/a".to_string()), Some("/x".to_string()), Some("/h".to_string())),
        Ok(host(&["/x", "treetest", "frameworks.json"]))
    );
    assert_eq!(
        config_path_parts(false, None, None, Some("/home/me".to_string())),
        Ok(host(&["/home/me", ".config", "treetest", "frameworks.json"]))
    );
    assert_eq!(config_path_parts(false, None, None, None), Err(ConfigError::HomeUnset));
}

#[test]
fn default_action_is_run() {
    assert_eq!(action_or_default(None), Action::Run);
    assert_eq!(action_or_default(Some(Action::List)), Action::List);
    assert_eq!(action_or_default(Some(Action::Update)), Action::Update);
}

#[test]
fn list_plan_captures_each_listing_command() {
    let available = vec![fw("A", "a --list", "a"), fw("B", "b --list", "b")];
    assert_eq!(
        plan_invocations(Action::List, &available),
        vec![
            Invocation { framework: "A".to_string(), command: "a --list".to_string(), capture: true },
            Invocation { framework: "B".to_string(), command: "b --list".to_string(), capture: true },
        ]
    );
    assert!(plan_invocations(Action::Update, &available).is_empty());
    assert!(plan_invocations(Action::Help, &available).is_empty());
}

#[test]
fn failing_run_does_not_stop_the_rest() {
    let available = vec![fw("X", "true", "exit 1"), fw("Y", "true", "true")];
    let plan = plan_invocations(Action::Run, &available);
    assert_eq!(
        plan,
        vec![
            Invocation { framework: "X".to_string(), command: "exit 1".to_string(), capture: false },
            Invocation { framework: "Y".to_string(), command: "true".to_string(), capture: false },
        ]
    );
}

#[test]
fn duplicate_copies_every_field() {
    let f = fw("n", "l", "r");
    assert_eq!(f.duplicate(), f);
}

#[test]
fn update_saves_only_when_something_was_added() {
    let local = vec![fw("A", "a", "a")];
    let (to_save, added) = update_frameworks(local.clone(), vec![fw("A", "z", "z")]);
    assert_eq!(to_save, None);
    assert_eq!(added, 0);
    let (to_save, added) = update_frameworks(local, vec![fw("A", "z", "z"), fw("B", "b", "b")]);
    assert_eq!(to_save, Some(vec![fw("A", "a", "a"), fw("B", "b", "b")]));
    assert_eq!(added, 1);
}
