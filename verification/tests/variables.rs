//! Variable scopes and script effects.

use navop_workbench::http::KeyValue;
use navop_workbench::scripting::{ScriptResult, SideEffect, VarScope};
use navop_workbench::variables::{
    apply_environment_effects, insert_enabled_variables, merge_variable_scopes, VariableMap,
};

#[test]
fn variable_scopes_follow_verve_precedence_and_ignore_disabled_rows() {
    let globals = vec![
        KeyValue::new("base", "global"),
        KeyValue::new("global_only", "1"),
        KeyValue {
            key: "disabled".to_string(),
            value: "ignored".to_string(),
            enabled: false,
            ..KeyValue::default()
        },
    ];
    let environment = vec![
        KeyValue::new("base", "environment"),
        KeyValue::new("environment_only", "2"),
        KeyValue::new(" ", "ignored"),
    ];
    let parent_folder = vec![
        KeyValue::new("base", "parent-folder"),
        KeyValue::new("folder_level", "parent"),
        KeyValue::new("parent_only", "parent"),
    ];
    let child_folder = vec![
        KeyValue::new("base", "child-folder"),
        KeyValue::new("folder_level", "child"),
        KeyValue::new("child_only", "child"),
        KeyValue {
            key: "disabled_folder".to_string(),
            value: "ignored".to_string(),
            enabled: false,
            ..KeyValue::default()
        },
    ];
    let path = vec![
        KeyValue::new("base", "path"),
        KeyValue::new("path_only", "3"),
    ];
    let request = vec![
        KeyValue::new("base", "request"),
        KeyValue::new("request_only", "4"),
    ];
    let folders = [parent_folder.as_slice(), child_folder.as_slice()];

    let vars = merge_variable_scopes(&globals, &environment, &folders, &path, &request);

    assert_eq!(vars.get("base").map(String::as_str), Some("request"));
    assert_eq!(vars.get("global_only").map(String::as_str), Some("1"));
    assert_eq!(vars.get("environment_only").map(String::as_str), Some("2"));
    assert_eq!(vars.get("folder_level").map(String::as_str), Some("child"));
    assert_eq!(vars.get("parent_only").map(String::as_str), Some("parent"));
    assert_eq!(vars.get("child_only").map(String::as_str), Some("child"));
    assert_eq!(vars.get("path_only").map(String::as_str), Some("3"));
    assert_eq!(vars.get("request_only").map(String::as_str), Some("4"));
    assert!(!vars.contains_key("disabled"));
    assert!(!vars.contains_key("disabled_folder"));
    assert!(!vars.contains_key(""));
}

#[test]
fn environment_script_effects_update_existing_rows_and_append_new_rows() {
    let mut variables = vec![
        KeyValue {
            key: "token".to_string(),
            value: "old".to_string(),
            enabled: false,
            ..KeyValue::default()
        },
        KeyValue::new("unchanged", "value"),
    ];
    let result = ScriptResult {
        effects: vec![
            SideEffect::SetVariable {
                scope: VarScope::Environment,
                name: "token".to_string(),
                value: "new".to_string(),
            },
            SideEffect::SetVariable {
                scope: VarScope::Environment,
                name: "base_url".to_string(),
                value: "https://example.test".to_string(),
            },
            SideEffect::SetVariable {
                scope: VarScope::Request,
                name: "request_only".to_string(),
                value: "ignored".to_string(),
            },
        ],
        ..Default::default()
    };

    assert!(apply_environment_effects(&mut variables, &result));
    assert_eq!(
        variables
            .iter()
            .find(|variable| variable.key == "token")
            .map(|variable| (variable.value.as_str(), variable.enabled)),
        Some(("new", true))
    );
    assert_eq!(
        variables
            .iter()
            .find(|variable| variable.key == "base_url")
            .map(|variable| variable.value.as_str()),
        Some("https://example.test")
    );
    assert!(
        !variables
            .iter()
            .any(|variable| variable.key == "request_only")
    );
}

fn set(scope: VarScope, name: &str, value: &str) -> SideEffect {
    SideEffect::SetVariable {
        scope,
        name: name.to_string(),
        value: value.to_string(),
    }
}

fn result_of(effects: Vec<SideEffect>) -> ScriptResult {
    ScriptResult {
        effects,
        ..Default::default()
    }
}

fn pairs(rows: &[KeyValue]) -> Vec<(String, String, bool)> {
    rows.iter()
        .map(|row| (row.key.clone(), row.value.clone(), row.enabled))
        .collect()
}

#[test]
fn a_variable_map_is_ordered_by_name_and_holds_each_name_once() {
    let mut vars = VariableMap::new();
    for (name, value) in [("b", "1"), ("a", "2"), ("ab", "3"), ("b", "4"), ("é", "5"), ("Z", "6")] {
        vars.insert(name.to_string(), value.to_string());
    }
    let held: Vec<(String, String)> = vars
        .entries()
        .iter()
        .map(|entry| (entry.name.clone(), entry.value.clone()))
        .collect();
    let mut expected: Vec<(String, String)> = std::collections::BTreeMap::from([
        ("b".to_string(), "4".to_string()),
        ("a".to_string(), "2".to_string()),
        ("ab".to_string(), "3".to_string()),
        ("é".to_string(), "5".to_string()),
        ("Z".to_string(), "6".to_string()),
    ])
    .into_iter()
    .collect();
    assert_eq!(held, expected);
    expected.clear();
    assert!(vars.get("c").is_none());
    assert!(!vars.contains_key("A"));
}

#[test]
fn keys_are_trimmed_and_values_are_not() {
    let mut vars = VariableMap::new();
    insert_enabled_variables(&mut vars, &[KeyValue::new("  name\t", " value ")]);
    assert_eq!(vars.get("name").map(String::as_str), Some(" value "));
    assert!(vars.get("  name\t").is_none());
}

#[test]
fn the_last_row_of_a_scope_wins() {
    let rows = vec![KeyValue::new("x", "1"), KeyValue::new(" x ", "2")];
    let vars = merge_variable_scopes(&rows, &[], &[], &[], &[]);
    assert_eq!(vars.get("x").map(String::as_str), Some("2"));
    assert_eq!(vars.entries().len(), 1);
}

#[test]
fn the_innermost_folder_that_sets_a_variable_wins() {
    let outer = vec![KeyValue::new("x", "outer"), KeyValue::new("y", "outer")];
    let inner = vec![KeyValue::new("x", "inner")];
    let vars = merge_variable_scopes(&[], &[], &[&outer, &inner], &[], &[]);
    assert_eq!(vars.get("x").map(String::as_str), Some("inner"));
    assert_eq!(vars.get("y").map(String::as_str), Some("outer"));
}

#[test]
fn effects_of_other_scopes_change_nothing() {
    let mut rows = vec![KeyValue::new("x", "1")];
    let result = result_of(vec![
        set(VarScope::Global, "x", "2"),
        set(VarScope::Request, "x", "3"),
    ]);
    assert!(!apply_environment_effects(&mut rows, &result));
    assert_eq!(pairs(&rows), vec![("x".to_string(), "1".to_string(), true)]);
}

#[test]
fn setting_what_is_there_already_is_no_change() {
    let mut rows = vec![KeyValue::new("x", "1")];
    assert!(!apply_environment_effects(
        &mut rows,
        &result_of(vec![set(VarScope::Environment, "x", "1")])
    ));
    assert!(!apply_environment_effects(&mut rows, &result_of(Vec::new())));
}

#[test]
fn only_the_first_row_with_the_key_changes_and_rows_keep_their_place() {
    let mut rows = vec![
        KeyValue::new("a", "0"),
        KeyValue::new("x", "1"),
        KeyValue::new("x", "2"),
    ];
    let result = result_of(vec![
        set(VarScope::Environment, "x", "3"),
        set(VarScope::Environment, "x", "4"),
        set(VarScope::Environment, "new", "5"),
    ]);
    assert!(apply_environment_effects(&mut rows, &result));
    let expected = vec![
        ("a".to_string(), "0".to_string(), true),
        ("x".to_string(), "4".to_string(), true),
        ("x".to_string(), "2".to_string(), true),
        ("new".to_string(), "5".to_string(), true),
    ];
    assert_eq!(pairs(&rows), expected);
    // Once more: an effect in between changes a row, but the rows end up the same.
    assert!(apply_environment_effects(&mut rows, &result));
    assert_eq!(pairs(&rows), expected);
}

fn setting(name: &str, value: &str) -> SideEffect {
    SideEffect::SetVariable {
        scope: VarScope::Environment,
        name: name.to_string(),
        value: value.to_string(),
    }
}

#[test]
fn a_second_run_of_distinct_settings_reports_no_change() {
    let result = ScriptResult {
        effects: vec![setting("a", "1"), setting("b", "2")],
        ..ScriptResult::default()
    };
    let mut rows = vec![KeyValue::new("a", "1")];
    assert!(apply_environment_effects(&mut rows, &result));
    let once = format!("{rows:?}");
    assert!(!apply_environment_effects(&mut rows, &result));
    assert_eq!(format!("{rows:?}"), once);
}

#[test]
fn settings_that_undo_one_another_are_reported() {
    let result = ScriptResult {
        effects: vec![setting("a", "1"), setting("a", "2")],
        ..ScriptResult::default()
    };
    let mut rows = vec![KeyValue::new("a", "2")];
    let before = format!("{rows:?}");
    assert!(apply_environment_effects(&mut rows, &result));
    assert_eq!(format!("{rows:?}"), before);
}
