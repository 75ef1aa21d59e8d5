//! The state of the workbench: opening, editing, storing.

use navop_workbench::collections::ImportedCollection;
use navop_workbench::editing::{Widget, WidgetEvent};
use navop_workbench::http::{
    AuthTarget, AuthType, BodyType, FieldType, HttpResponse, KeyValue, Protocol, RawLanguage,
    RequestMethod,
};
use navop_workbench::labels::{MethodTexts, ProtocolTexts, TreeTexts};
use navop_workbench::request_store::{
    ApiEnvironment, ApiStore, RequestHistoryEntry, ResponseExample, ResponseExampleAutoSaveMode,
    StoredFolder, StoredRequest,
};
use navop_workbench::scripting::{ScriptResult, SideEffect, VarScope};
use navop_workbench::sections::{kv_sections, KeyPlaceholder, KvSection};
use navop_workbench::tabs::{RequestEditorTab, ResponseTab, SidebarMode};
use navop_workbench::view_state::{ApiTestView, Effect, Notice};

const OPENED: [Effect; 4] =
    [Effect::CancelConnections, Effect::ShowEditor, Effect::RebuildTree, Effect::Redraw];

fn text(s: &str) -> String {
    s.to_string()
}

fn folder(id: &str, parent: Option<&str>) -> StoredFolder {
    let mut folder = StoredFolder::with_id(text(id), format!("Folder {id}"), parent.map(text));
    folder.variables = vec![KeyValue::new("level", id)];
    folder
}

fn request(id: &str, parent: Option<&str>) -> StoredRequest {
    let mut request =
        StoredRequest::with_id(text(id), format!("Request {id}"), RequestMethod::Post);
    request.folder_id = parent.map(text);
    request.url = format!("https://host/{id}");
    request
}

fn response(status: u16) -> HttpResponse {
    HttpResponse {
        status,
        status_text: text("OK"),
        headers: vec![],
        body: text("{}"),
        raw_body: text("{ }"),
        time_ms: 5,
        size: 3,
        error: None,
        streaming: false,
    }
}

fn environment(id: &str) -> ApiEnvironment {
    let mut environment = ApiEnvironment::with_id(text(id), format!("Env {id}"));
    environment.base_url = Some(format!("https://{id}"));
    environment.variables = vec![KeyValue::new("env", id)];
    environment
}

fn empty_store() -> ApiStore {
    ApiStore {
        folders: vec![],
        requests: vec![],
        globals: vec![],
        global_params: vec![],
        global_headers: vec![],
        global_cookies: vec![],
        environments: vec![],
        active_environment_id: None,
        history: vec![],
        response_example_autosave: ResponseExampleAutoSaveMode::Off,
    }
}

/// Folders a > b and c, requests r1 in a, r2 in b, r3 at the root, environments e1 and e2.
fn sample_store() -> ApiStore {
    ApiStore {
        folders: vec![folder("a", None), folder("b", Some("a")), folder("c", None)],
        requests: vec![request("r1", Some("a")), request("r2", Some("b")), request("r3", None)],
        globals: vec![KeyValue::new("level", "global"), KeyValue::new("g", "1")],
        environments: vec![environment("e1"), environment("e2")],
        active_environment_id: Some(text("e2")),
        ..empty_store()
    }
}

fn open(store: ApiStore) -> ApiTestView {
    ApiTestView::with_store(store, text("fresh"), "Default").0
}

fn sample() -> ApiTestView {
    open(sample_store())
}

fn request_ids(view: &ApiTestView) -> Vec<&str> {
    view.store.requests.iter().map(|request| request.id.as_str()).collect()
}

fn folder_ids(view: &ApiTestView) -> Vec<&str> {
    view.store.folders.iter().map(|folder| folder.id.as_str()).collect()
}

fn environment_ids(view: &ApiTestView) -> Vec<&str> {
    view.store.environments.iter().map(|environment| environment.id.as_str()).collect()
}

fn keys(rows: &[KeyValue]) -> Vec<(&str, &str)> {
    rows.iter().map(|row| (row.key.as_str(), row.value.as_str())).collect()
}

fn is_fresh_id(id: &str) -> bool {
    id.len() == 32 && id.chars().all(|c| matches!(c, '0'..='9' | 'a'..='f'))
}

#[test]
fn an_empty_store_gets_an_environment() {
    let (view, effects) = ApiTestView::with_store(empty_store(), text("fresh"), "Default");
    assert_eq!(environment_ids(&view), ["fresh"]);
    assert_eq!(view.store.environments[0].name, "Default");
    assert_eq!(view.store.active_environment_id.as_deref(), Some("fresh"));
    assert_eq!(view.active_request_id, None);
    assert_eq!(view.active_folder_id, None);
    assert_eq!(view.sidebar_mode, SidebarMode::Collections);
    assert_eq!(view.active_editor_tab, RequestEditorTab::Params);
    assert_eq!(view.active_response_tab, ResponseTab::Body);
    assert!(view.response_pretty);
    assert!(!view.suppress_commit);
    assert!(effects.contains(&Effect::RebuildTree));
}

#[test]
fn a_new_environment_has_an_id_of_its_own() {
    let (first, _) = ApiTestView::new(empty_store(), "Default");
    let (second, _) = ApiTestView::new(empty_store(), "Default");
    assert!(is_fresh_id(&first.store.environments[0].id));
    assert_ne!(first.store.environments[0].id, second.store.environments[0].id);
    assert_eq!(first.store.active_environment_id, Some(first.store.environments[0].id.clone()));
}

#[test]
fn the_first_request_is_opened() {
    let view = sample();
    assert_eq!(view.active_request_id.as_deref(), Some("r1"));
    assert_eq!(view.inputs.name, "Request r1");
    assert_eq!(view.inputs.url, "https://host/r1");
    assert_eq!(view.selections.method, Some(RequestMethod::Post));
    assert_eq!(view.inputs.environment_base_url, "https://e2");
    assert_eq!(view.rows.environment[0].entry.value, "e2");
    assert_eq!(view.rows.globals.len(), 2);
    assert_eq!(view.request_generation, 1);
}

#[test]
fn an_unknown_active_environment_is_replaced_by_the_first() {
    let view = open(ApiStore { active_environment_id: Some(text("gone")), ..sample_store() });
    assert_eq!(view.store.active_environment_id.as_deref(), Some("e1"));
    let view = open(ApiStore { active_environment_id: None, ..sample_store() });
    assert_eq!(view.store.active_environment_id.as_deref(), Some("e1"));
}

#[test]
fn what_is_edited_is_stored() {
    let mut view = sample();
    view.inputs.name = text("Renamed");
    view.inputs.body = text("payload");
    view.selections.body_type = Some(BodyType::Raw);
    view.selections.raw_language = Some(RawLanguage::Xml);
    view.selections.auth_type = Some(AuthType::ApiKey);
    view.selections.auth_target = Some(AuthTarget::Query);
    view.inputs.auth_key = text("k");
    view.inputs.environment_base_url = text("  https://new  ");
    view.rows.globals[1].entry.value = text("2");
    let effects = view.commit_current_to_store();
    assert_eq!(effects, [Effect::SaveStore, Effect::RebuildTree]);
    let stored = &view.store.requests[0];
    assert_eq!(stored.name, "Renamed");
    assert_eq!(stored.body, "payload");
    assert_eq!(stored.body_type, BodyType::Raw);
    assert_eq!(stored.raw_language, RawLanguage::Xml);
    assert_eq!(stored.auth.auth_type, AuthType::ApiKey);
    assert_eq!(stored.auth.add_to, AuthTarget::Query);
    assert_eq!(stored.auth.key, "k");
    assert_eq!(stored.folder_id.as_deref(), Some("a"));
    assert_eq!(view.store.environments[1].base_url.as_deref(), Some("https://new"));
    assert_eq!(view.store.environments[0].base_url.as_deref(), Some("https://e1"));
    assert_eq!(keys(&view.store.globals), [("level", "global"), ("g", "2")]);
}

#[test]
fn storing_twice_changes_nothing_more() {
    let mut view = sample();
    view.inputs.name = text(" Renamed ");
    view.inputs.environment_base_url = text("  ");
    view.commit_current_to_store();
    let once = format!("{view:?}");
    assert_eq!(view.commit_current_to_store(), [Effect::SaveStore]);
    assert_eq!(format!("{view:?}"), once);
    assert_eq!(view.store.environments[1].base_url, None);
}

#[test]
fn the_tree_is_built_anew_only_where_a_label_changed() {
    let mut view = sample();
    view.inputs.body = text("payload");
    assert_eq!(view.commit_current_to_store(), [Effect::SaveStore]);
    view.selections.method = Some(RequestMethod::Get);
    assert_eq!(view.commit_current_to_store(), [Effect::SaveStore, Effect::RebuildTree]);
    view.selections.protocol = Some(Protocol::Sse);
    assert_eq!(view.commit_current_to_store(), [Effect::SaveStore, Effect::RebuildTree]);
}

#[test]
fn nothing_is_stored_while_storing_is_held_back() {
    let mut view = sample();
    view.inputs.name = text("Renamed");
    view.suppress_commit = true;
    assert!(view.commit_current_to_store().is_empty());
    assert_eq!(view.store.requests[0].name, "Request r1");
}

#[test]
fn a_selection_that_is_missing_has_a_default() {
    let mut view = sample();
    view.selections.protocol = None;
    view.selections.method = None;
    view.selections.body_type = None;
    view.selections.raw_language = None;
    view.selections.auth_type = None;
    view.selections.auth_target = None;
    let snapshot = view.snapshot_request();
    assert_eq!(snapshot.protocol, Protocol::Http);
    assert_eq!(snapshot.method, RequestMethod::Get);
    assert_eq!(snapshot.body_type, BodyType::NoBody);
    assert_eq!(snapshot.raw_language, RawLanguage::Json);
    assert_eq!(snapshot.auth.auth_type, AuthType::NoAuth);
    assert_eq!(snapshot.auth.add_to, AuthTarget::Header);
}

#[test]
fn a_snapshot_keeps_what_the_editor_does_not_show() {
    let mut store = sample_store();
    store.requests[0].mock = Some(text("mock"));
    store.requests[0].base_url_override = Some(text("https://override"));
    store.requests[0].last_response = Some(response(200));
    store.requests[0].fail_examples = vec![ResponseExample {
        status: 500,
        status_text: text("no"),
        body: text("x"),
        saved_at: text("now"),
    }];
    let mut view = open(store);
    view.rows.headers.clear();
    let snapshot = view.snapshot_request();
    assert_eq!(snapshot.id, "r1");
    assert_eq!(snapshot.mock.as_deref(), Some("mock"));
    assert_eq!(snapshot.base_url_override.as_deref(), Some("https://override"));
    assert_eq!(snapshot.last_response.unwrap().status, 200);
    assert_eq!(snapshot.fail_examples.len(), 1);
    view.active_request_id = None;
    let snapshot = view.snapshot_request();
    assert!(is_fresh_id(&snapshot.id));
    assert_eq!(snapshot.folder_id, None);
    assert_eq!(snapshot.mock, None);
    assert_eq!(view.snapshot_with_id(text("given")).id, "given");
}

#[test]
fn an_opened_request_reads_back() {
    let mut store = sample_store();
    let request = &mut store.requests[2];
    request.header_rows = vec![KeyValue::new("Accept", "*/*")];
    request.headers = text("Accept: */*");
    request.params = vec![KeyValue { enabled: false, ..KeyValue::new("p", "1") }];
    request.body_rows = vec![KeyValue {
        field_type: FieldType::File,
        file_path: Some(text("/tmp/x")),
        ..KeyValue::new("f", "")
    }];
    request.description = text("what it does");
    request.tests = text("t");
    let before = format!("{:?}", store.requests[2]);
    let mut view = open(store);
    view.select_request("r3");
    assert_eq!(view.rows.headers[0].placeholder, KeyPlaceholder::Header);
    assert_eq!(view.rows.params[0].placeholder, KeyPlaceholder::Key);
    view.commit_current_to_store();
    assert_eq!(format!("{:?}", view.store.requests[2]), before);
}

#[test]
fn old_header_text_becomes_rows() {
    let mut store = sample_store();
    store.requests[0].headers = text("Accept: */*\nX: 1");
    let view = open(store);
    assert_eq!(keys(&view.rows.keyvalues_from_rows(KvSection::Headers)), [("Accept", "*/*"), ("X", "1")]);
    let mut store = sample_store();
    store.requests[0].headers = text("Accept: */*\nnonsense");
    assert!(open(store).rows.headers.is_empty());
}

#[test]
fn opening_a_request_drops_what_was_answered() {
    let mut store = sample_store();
    store.requests[1].last_response = Some(response(204));
    let mut view = open(store);
    view.sending = true;
    view.notice = Some(Notice::RestoredFromHistory);
    view.test_result = Some(ScriptResult::default());
    let effects = view.select_request("r2");
    assert_eq!(effects, [&[Effect::SaveStore], &OPENED[..]].concat());
    assert!(!view.sending);
    assert!(view.notice.is_none());
    assert!(view.test_result.is_none());
    assert!(view.prepared_request.is_none());
    assert_eq!(view.response.as_ref().map(|response| response.status), Some(204));
    assert_eq!(view.request_generation, 2);
}

#[test]
fn the_open_request_is_not_opened_again() {
    let mut view = sample();
    view.inputs.name = text("Unsaved");
    assert!(view.select_request("r1").is_empty());
    assert_eq!(view.inputs.name, "Unsaved");
    assert_eq!(view.store.requests[0].name, "Request r1");
}

#[test]
fn an_unknown_request_is_not_opened() {
    let mut view = sample();
    assert!(view.load_request("gone").is_empty());
    assert_eq!(view.active_request_id.as_deref(), Some("r1"));
    view.inputs.name = text("Saved");
    assert_eq!(view.select_request("gone"), [Effect::SaveStore, Effect::RebuildTree]);
    assert_eq!(view.store.requests[0].name, "Saved");
}

#[test]
fn an_opened_folder_reads_back() {
    let mut store = sample_store();
    store.folders[1].base_url = Some(text("https://folder"));
    store.folders[1].description = text("about");
    let before = format!("{:?}", store.folders[1]);
    let mut view = open(store);
    assert_eq!(view.select_folder("b"), [&[Effect::SaveStore], &OPENED[..]].concat());
    assert_eq!(view.active_folder_id.as_deref(), Some("b"));
    assert_eq!(view.active_request_id, None);
    assert_eq!(view.inputs.name, "Folder b");
    assert_eq!(view.inputs.folder_base_url, "https://folder");
    view.commit_current_to_store();
    assert_eq!(format!("{:?}", view.store.folders[1]), before);
    assert!(view.select_folder("b").is_empty());
    assert!(view.select_folder("gone").is_empty());
}

#[test]
fn a_folder_is_stored_without_white_space_around_its_name() {
    let mut view = sample();
    view.select_folder("c");
    view.inputs.name = text("  Named ");
    view.inputs.folder_base_url = text("  ");
    assert_eq!(view.commit_current_to_store(), [Effect::SaveStore, Effect::RebuildTree]);
    assert_eq!(view.store.folders[2].name, "Named");
    assert_eq!(view.store.folders[2].base_url, None);
}

#[test]
fn a_new_folder_lies_where_the_user_is() {
    let mut view = sample();
    let effects = view.add_folder(text("new"), "Folder");
    assert_eq!(effects, [&[Effect::SaveStore, Effect::SaveStore], &OPENED[..]].concat());
    assert_eq!(folder_ids(&view), ["a", "b", "c", "new"]);
    assert_eq!(view.store.folders[3].name, "Folder 4");
    assert_eq!(view.store.folders[3].parent_id.as_deref(), Some("a"));
    assert_eq!(view.active_folder_id.as_deref(), Some("new"));
    view.new_folder("Folder");
    assert_eq!(view.store.folders[4].parent_id.as_deref(), Some("new"));
    assert!(is_fresh_id(&view.store.folders[4].id));
    assert_eq!(view.active_folder_id.as_ref(), Some(&view.store.folders[4].id));
}

#[test]
fn a_new_request_lies_where_the_user_is() {
    let mut view = sample();
    view.select_request("r2");
    view.add_request(text("new"), "Request", Protocol::Tcp);
    assert_eq!(request_ids(&view), ["r1", "r2", "r3", "new"]);
    let added = &view.store.requests[3];
    assert_eq!(added.name, "Request 4");
    assert_eq!(added.protocol, Protocol::Tcp);
    assert_eq!(added.method, RequestMethod::Get);
    assert_eq!(added.folder_id.as_deref(), Some("b"));
    assert_eq!(view.active_request_id.as_deref(), Some("new"));
    view.new_request_with_protocol("Request", Protocol::Http);
    assert!(is_fresh_id(view.active_request_id.as_ref().unwrap()));
    assert_eq!(view.store.requests[4].folder_id.as_deref(), Some("b"));
    assert_eq!(view.current_parent_folder_id().as_deref(), Some("b"));
}

#[test]
fn deleting_a_folder_takes_all_below_it() {
    let mut view = sample();
    let effects = view.delete_folder("a");
    assert_eq!(folder_ids(&view), ["c"]);
    assert_eq!(request_ids(&view), ["r3"]);
    assert_eq!(view.active_request_id.as_deref(), Some("r3"));
    assert_eq!(view.inputs.name, "Request r3");
    assert_eq!(effects, [&[Effect::SaveStore], &OPENED[..]].concat());
}

#[test]
fn deleting_another_folder_leaves_the_editor_alone() {
    let mut view = sample();
    view.inputs.name = text("Unsaved");
    let effects = view.delete_folder("c");
    assert_eq!(effects, [Effect::SaveStore, Effect::RebuildTree, Effect::Redraw]);
    assert_eq!(folder_ids(&view), ["a", "b"]);
    assert_eq!(request_ids(&view), ["r1", "r2", "r3"]);
    assert_eq!(view.inputs.name, "Unsaved");
    assert_eq!(view.active_request_id.as_deref(), Some("r1"));
}

#[test]
fn deleting_the_open_folder_and_the_last_request_empties_the_editor() {
    let mut store = sample_store();
    store.requests.truncate(2);
    let mut view = open(store);
    view.select_folder("b");
    view.delete_folder("a");
    assert_eq!(folder_ids(&view), ["c"]);
    assert!(view.store.requests.is_empty());
    assert_eq!(view.active_folder_id, None);
    assert_eq!(view.active_request_id, None);
    assert_eq!(view.inputs.name, "");
    assert!(view.rows.folder_variables.is_empty());
    assert!(view.response.is_none());
}

#[test]
fn deleting_the_open_request_opens_its_neighbour() {
    let mut view = sample();
    view.select_request("r2");
    view.delete_request("r2");
    assert_eq!(request_ids(&view), ["r1", "r3"]);
    assert_eq!(view.active_request_id.as_deref(), Some("r3"));
    view.delete_request("r3");
    assert_eq!(view.active_request_id.as_deref(), Some("r1"));
    let effects = view.delete_request("r1");
    assert_eq!(
        effects,
        [Effect::SaveStore, Effect::CancelConnections, Effect::RebuildTree, Effect::Redraw]
    );
    assert_eq!(view.active_request_id, None);
    assert!(view.store.requests.is_empty());
}

#[test]
fn deleting_another_request_leaves_the_editor_alone() {
    let mut view = sample();
    assert_eq!(
        view.delete_request("r2"),
        [Effect::SaveStore, Effect::RebuildTree, Effect::Redraw]
    );
    assert_eq!(view.active_request_id.as_deref(), Some("r1"));
    assert_eq!(request_ids(&view), ["r1", "r3"]);
    assert!(view.delete_request("gone").is_empty());
}

fn history_entry(id: &str) -> RequestHistoryEntry {
    let mut sent = request("sent", Some("a"));
    sent.name = text("  ");
    RequestHistoryEntry {
        id: text(id),
        request: sent,
        method: RequestMethod::Post,
        request_name: text("Sent"),
        url: text("https://host/sent"),
        status: 200,
        error: None,
        sent_at: 0,
        time_ms: 1,
        size: 2,
    }
}

#[test]
fn a_sent_request_is_restored_as_a_new_one() {
    let mut store = sample_store();
    store.history = vec![history_entry("h1")];
    let mut view = open(store);
    view.set_sidebar_mode(SidebarMode::History);
    view.restore_history_as("h1", text("new"), "New", "History");
    let restored = &view.store.requests[3];
    assert_eq!(restored.id, "new");
    assert_eq!(restored.folder_id, None);
    assert_eq!(restored.name, "https://host/sent (History)");
    assert_eq!(view.active_request_id.as_deref(), Some("new"));
    assert_eq!(view.sidebar_mode, SidebarMode::Collections);
    assert!(matches!(view.notice, Some(Notice::RestoredFromHistory)));
    view.restore_history("h1", "New", "History");
    assert!(is_fresh_id(&view.store.requests[4].id));
    assert_eq!(view.store.history.len(), 1);
    assert!(view.restore_history("gone", "New", "History").is_empty());
    assert_eq!(view.clear_history(), [Effect::SaveStore, Effect::Redraw]);
    assert!(view.store.history.is_empty());
    assert_eq!(view.store.requests.len(), 5);
}

#[test]
fn variables_come_from_the_folders_around_a_request() {
    let mut view = sample();
    let mut request = view.store.requests[1].clone();
    request.variables = vec![KeyValue::new("own", "yes")];
    let vars = view.effective_vars(&request);
    assert_eq!(vars.get("level").map(String::as_str), Some("b"));
    assert_eq!(vars.get("g").map(String::as_str), Some("1"));
    assert_eq!(vars.get("env").map(String::as_str), Some("e2"));
    assert_eq!(vars.get("own").map(String::as_str), Some("yes"));
    request.folder_id = None;
    assert_eq!(view.effective_vars(&request).get("level").map(String::as_str), Some("global"));
    view.store.active_environment_id = None;
    assert!(!view.effective_vars(&request).contains_key("env"));
}

#[test]
fn scripts_change_the_active_environment() {
    let mut view = sample();
    let result = ScriptResult {
        effects: vec![SideEffect::SetVariable {
            scope: VarScope::Environment,
            name: text("env"),
            value: text("set"),
        }],
        ..ScriptResult::default()
    };
    assert!(view.persist_environment_effects(&result));
    assert_eq!(keys(&view.store.environments[1].variables), [("env", "set")]);
    assert_eq!(keys(&view.store.environments[0].variables), [("env", "e1")]);
    assert_eq!(view.rows.environment[0].entry.value, "e2");
    assert_eq!(view.refresh_environment_settings(), [Effect::ShowEditor]);
    assert_eq!(view.rows.environment[0].entry.value, "set");
    assert!(!view.persist_environment_effects(&ScriptResult::default()));
    view.store.active_environment_id = Some(text("gone"));
    assert!(!view.persist_environment_effects(&result));
    view.store.active_environment_id = None;
    assert!(!view.persist_environment_effects(&result));
}

#[test]
fn another_environment_is_selected() {
    let mut view = sample();
    view.rows.environment[0].entry.value = text("edited");
    let effects = view.select_environment("e1");
    assert_eq!(
        effects,
        [
            Effect::SaveStore,
            Effect::ShowEnvironments,
            Effect::ShowEditor,
            Effect::SaveStore,
            Effect::Redraw
        ]
    );
    assert_eq!(view.inputs.environment_base_url, "https://e1");
    assert_eq!(keys(&view.store.environments[1].variables), [("env", "edited")]);
    assert!(view.select_environment("e1").is_empty());
    assert_eq!(view.select_environment("gone"), [Effect::SaveStore]);
    assert_eq!(view.store.active_environment_id.as_deref(), Some("e1"));
    let (options, selected) = view.rebuild_environment_select();
    let options: Vec<&str> = options.iter().map(|option| option.name.as_str()).collect();
    assert_eq!(options, ["Env e1", "Env e2"]);
    assert_eq!(selected, Some(0));
    assert_eq!(view.selected_environment_index(), Some(0));
    assert_eq!(view.active_environment().map(|e| e.id.as_str()), Some("e1"));
}

#[test]
fn an_environment_needs_a_name() {
    let mut view = sample();
    let (closes, effects) = view.confirm_new_environment(" \t ");
    assert!(!closes);
    assert_eq!(effects, [Effect::Redraw]);
    assert!(matches!(view.notice, Some(Notice::EnvironmentNameRequired)));
    assert_eq!(environment_ids(&view), ["e1", "e2"]);
    view.notice = None;
    assert!(!view.confirm_rename_environment("").0);
    assert!(matches!(view.notice, Some(Notice::EnvironmentNameRequired)));
}

#[test]
fn an_environment_is_created_and_selected() {
    let mut view = sample();
    view.notice = Some(Notice::EnvironmentNameRequired);
    let (closes, _) = view.confirm_new_environment("  Staging ");
    assert!(closes);
    assert!(view.notice.is_none());
    assert_eq!(view.store.environments.len(), 3);
    assert_eq!(view.store.environments[2].name, "Staging");
    assert!(is_fresh_id(&view.store.environments[2].id));
    assert_eq!(view.store.active_environment_id.as_ref(), Some(&view.store.environments[2].id));
    assert_eq!(view.inputs.environment_base_url, "");
    assert!(view.rows.environment.is_empty());
    view.add_environment(text("e4"), text("Fourth"));
    assert_eq!(view.store.active_environment_id.as_deref(), Some("e4"));
    view.create_environment_named(text("Fifth"));
    assert_eq!(view.store.environments[4].name, "Fifth");
}

#[test]
fn the_active_environment_is_renamed() {
    let mut view = sample();
    assert_eq!(view.prompt_rename_active_environment().as_deref(), Some("Env e2"));
    assert!(view.confirm_rename_environment(" Production ").0);
    assert_eq!(view.store.environments[1].name, "Production");
    assert_eq!(view.store.environments[0].name, "Env e1");
    assert_eq!(
        view.rename_active_environment_named(text("Again")),
        [Effect::SaveStore, Effect::ShowEnvironments, Effect::SaveStore, Effect::Redraw]
    );
    view.store.active_environment_id = None;
    assert_eq!(view.prompt_rename_active_environment(), None);
    assert_eq!(view.rename_active_environment_named(text("x")), [Effect::SaveStore]);
}

#[test]
fn the_last_environment_stays() {
    let mut view = sample();
    view.delete_active_environment();
    assert_eq!(environment_ids(&view), ["e1"]);
    assert_eq!(view.store.active_environment_id.as_deref(), Some("e1"));
    assert_eq!(view.inputs.environment_base_url, "https://e1");
    assert_eq!(view.delete_active_environment(), [Effect::Redraw]);
    assert!(matches!(view.notice, Some(Notice::CannotDeleteLastEnvironment)));
    assert_eq!(environment_ids(&view), ["e1"]);
}

#[test]
fn environments_that_share_an_id_leave_together() {
    let mut store = sample_store();
    store.environments = vec![environment("e"), environment("e")];
    store.active_environment_id = Some(text("e"));
    let mut view = open(store);
    view.delete_active_environment();
    assert!(view.store.environments.is_empty());
    assert_eq!(view.store.active_environment_id, None);
}

fn imported() -> ImportedCollection {
    ImportedCollection {
        name: text("Pets"),
        folders: vec![folder("f1", None), folder("f2", Some("f1"))],
        requests: vec![request("i1", None), request("i2", Some("f2"))],
        environment: Some(environment("e3")),
    }
}

#[test]
fn an_imported_collection_lies_below_a_folder_of_its_name() {
    let mut view = sample();
    view.merge_collection_under(imported(), text("root"));
    assert_eq!(folder_ids(&view), ["a", "b", "c", "root", "f1", "f2"]);
    assert_eq!(view.store.folders[3].name, "Pets");
    assert_eq!(view.store.folders[3].parent_id, None);
    assert_eq!(view.store.folders[4].parent_id.as_deref(), Some("root"));
    assert_eq!(view.store.folders[5].parent_id.as_deref(), Some("f1"));
    assert_eq!(request_ids(&view), ["r1", "r2", "r3", "i1", "i2"]);
    assert_eq!(view.store.requests[3].folder_id.as_deref(), Some("root"));
    assert_eq!(view.store.requests[4].folder_id.as_deref(), Some("f2"));
    assert_eq!(view.store.active_environment_id.as_deref(), Some("e3"));
    assert_eq!(view.inputs.environment_base_url, "https://e3");
    assert_eq!(view.active_request_id.as_deref(), Some("i1"));
    assert!(matches!(view.notice, Some(Notice::ImportSuccess(2))));
}

#[test]
fn an_import_without_requests_opens_none() {
    let mut view = sample();
    view.merge_imported_collection(ImportedCollection {
        requests: vec![],
        environment: None,
        ..imported()
    });
    assert_eq!(view.active_request_id.as_deref(), Some("r1"));
    assert_eq!(view.store.active_environment_id.as_deref(), Some("e2"));
    assert!(is_fresh_id(&view.store.folders[3].id));
    assert!(matches!(view.notice, Some(Notice::ImportSuccess(0))));
}

#[test]
fn a_failed_import_says_why() {
    let mut view = sample();
    let effects = view.finish_import(Err(text("bad json")));
    assert_eq!(effects, [Effect::Redraw]);
    assert!(matches!(&view.notice, Some(Notice::ImportFailed(error)) if error == "bad json"));
    assert_eq!(view.store.folders.len(), 3);
    view.finish_import(Ok(imported()));
    assert_eq!(view.store.folders.len(), 6);
}

#[test]
fn an_export_says_how_it_went() {
    let mut view = sample();
    assert_eq!(view.finish_export(text("/out.json"), Ok(())), [Effect::Redraw]);
    assert!(matches!(&view.notice, Some(Notice::ExportSuccess(path)) if path == "/out.json"));
    view.finish_export(text("/out.json"), Err(text("disk full")));
    assert!(matches!(&view.notice, Some(Notice::ExportFailed(error)) if error == "disk full"));
}

#[test]
fn a_snapshot_of_the_store_holds_what_is_edited() {
    let mut view = sample();
    view.inputs.name = text("Edited");
    assert_eq!(view.save_store().requests[0].name, "Request r1");
    let (store, effects) = view.store_snapshot();
    assert_eq!(store.requests[0].name, "Edited");
    assert_eq!(effects, [Effect::SaveStore, Effect::RebuildTree]);
    assert_eq!(format!("{store:?}"), format!("{:?}", view.store));
}

#[test]
fn rows_are_added_and_removed() {
    let mut view = sample();
    let effects = view.add_kv_row(KvSection::Params);
    assert_eq!(
        effects,
        [Effect::WatchNewRow(KvSection::Params), Effect::SaveStore, Effect::Redraw]
    );
    assert_eq!(view.rows.params.len(), 1);
    assert!(view.rows.params[0].entry.enabled);
    assert_eq!(view.rows.params[0].entry.key, "");
    assert_eq!(view.store.requests[0].params.len(), 1);
    assert_eq!(view.remove_kv_row(KvSection::Params, 1), [Effect::SaveStore, Effect::Redraw]);
    assert_eq!(view.rows.params.len(), 1);
    view.remove_kv_row(KvSection::Params, 0);
    assert!(view.rows.params.is_empty());
    assert!(view.store.requests[0].params.is_empty());
}

#[test]
fn rows_are_switched_off_and_on() {
    let mut view = sample();
    view.set_kv_row_enabled(KvSection::Globals, 1, false);
    assert!(!view.store.globals[1].enabled);
    assert!(view.store.globals[0].enabled);
    view.set_kv_row_enabled(KvSection::Globals, 1, true);
    assert!(view.store.globals[1].enabled);
    assert_eq!(
        view.set_kv_row_enabled(KvSection::Globals, 2, false),
        [Effect::SaveStore, Effect::Redraw]
    );
}

#[test]
fn a_row_names_a_file() {
    let mut view = sample();
    view.add_kv_row(KvSection::Body);
    view.choose_kv_file(KvSection::Body, 0, &vec![text("/tmp/a"), text("/tmp/b")]);
    let stored = &view.store.requests[0].body_rows[0];
    assert_eq!(stored.field_type, FieldType::File);
    assert_eq!(stored.file_path.as_deref(), Some("/tmp/a"));
    view.set_kv_row_field_type(KvSection::Body, 0, FieldType::File);
    assert_eq!(view.store.requests[0].body_rows[0].file_path.as_deref(), Some("/tmp/a"));
    view.set_kv_row_field_type(KvSection::Body, 0, FieldType::Text);
    let stored = &view.store.requests[0].body_rows[0];
    assert_eq!(stored.field_type, FieldType::Text);
    assert_eq!(stored.file_path, None);
    assert!(view.choose_kv_file(KvSection::Body, 0, &vec![]).is_empty());
}

#[test]
fn a_new_row_is_in_its_own_table_only() {
    for section in kv_sections() {
        let mut view = sample();
        let before: Vec<usize> =
            kv_sections().iter().map(|s| view.rows.rows_for_section(*s).len()).collect();
        view.add_kv_row(section);
        for (index, other) in kv_sections().iter().enumerate() {
            let more = if *other == section { 1 } else { 0 };
            assert_eq!(view.rows.rows_for_section(*other).len(), before[index] + more);
        }
    }
}

#[test]
fn a_change_of_protocol_ends_connections() {
    let mut view = sample();
    view.response = Some(response(200));
    view.request_generation = u64::MAX;
    view.selections.protocol = Some(Protocol::Tcp);
    let effects = view.on_widget_event(Widget::ProtocolSelect, WidgetEvent::Confirm);
    assert_eq!(
        effects,
        [
            Effect::CancelConnections,
            Effect::SaveStore,
            Effect::RebuildTree,
            Effect::Redraw
        ]
    );
    assert_eq!(view.store.requests[0].protocol, Protocol::Tcp);
    assert_eq!(view.request_generation, 0);
    assert!(view.response.is_some());
    view.suppress_commit = true;
    let effects = view.on_widget_event(Widget::ProtocolSelect, WidgetEvent::Confirm);
    assert_eq!(effects, [Effect::Redraw]);
    assert_eq!(view.request_generation, 0);
}

#[test]
fn the_enter_key_sends_a_message() {
    let mut view = sample();
    let enter = |secondary| WidgetEvent::PressEnter { secondary };
    assert_eq!(
        view.on_widget_event(Widget::Message(Protocol::Tcp), enter(false)),
        [Effect::SendMessage(Protocol::Tcp)]
    );
    assert!(view.on_widget_event(Widget::Message(Protocol::Tcp), enter(true)).is_empty());
    assert!(view.on_widget_event(Widget::Message(Protocol::Tcp), WidgetEvent::Blur).is_empty());
}

#[test]
fn inputs_are_stored_when_they_change_or_are_left() {
    let mut view = sample();
    view.inputs.body = text("b");
    assert_eq!(view.on_widget_event(Widget::Stored, WidgetEvent::Change), [Effect::SaveStore]);
    assert_eq!(view.store.requests[0].body, "b");
    assert_eq!(view.on_widget_event(Widget::Stored, WidgetEvent::Blur), [Effect::SaveStore]);
    assert!(view.on_widget_event(Widget::Stored, WidgetEvent::Focus).is_empty());
    assert_eq!(
        view.on_widget_event(Widget::Search, WidgetEvent::Change),
        [Effect::RebuildTree, Effect::Redraw]
    );
    let enter = WidgetEvent::PressEnter { secondary: false };
    assert!(view.on_widget_event(Widget::Search, enter).is_empty());
}

#[test]
fn the_sidebar_and_the_tabs_switch() {
    let mut view = sample();
    view.toggle_sidebar();
    assert!(view.sidebar_collapsed);
    view.toggle_sidebar();
    assert!(!view.sidebar_collapsed);
    view.set_sidebar_mode(SidebarMode::History);
    assert_eq!(view.sidebar_mode, SidebarMode::History);
    view.set_response_pretty(false);
    assert!(!view.response_pretty);
    view.click_editor_tab(3);
    assert_eq!(view.active_editor_tab, RequestEditorTab::Body);
    view.click_editor_tab(9);
    assert_eq!(view.active_editor_tab, RequestEditorTab::Body);
    view.click_response_tab(6);
    assert_eq!(view.active_response_tab, ResponseTab::Example);
    view.click_response_tab(7);
    assert_eq!(view.active_response_tab, ResponseTab::Example);
}

#[test]
fn every_row_of_the_editor_is_watched() {
    let mut view = sample();
    view.add_kv_row(KvSection::Params);
    view.add_kv_row(KvSection::RequestVariables);
    let places: Vec<(KvSection, usize)> = view
        .subscribe_editor_inputs()
        .iter()
        .map(|place| (place.section, place.index))
        .collect();
    assert_eq!(
        places,
        [
            (KvSection::Params, 0),
            (KvSection::Globals, 0),
            (KvSection::Globals, 1),
            (KvSection::Environment, 0),
            (KvSection::RequestVariables, 0),
        ]
    );
}

fn tree_texts() -> TreeTexts {
    TreeTexts {
        protocols: ProtocolTexts {
            http: text("HTTP"),
            graphql: text("GraphQL"),
            sse: text("SSE"),
            web_socket: text("WebSocket"),
            tcp: text("TCP"),
            grpc_web: text("gRPC-Web"),
            socket_io: text("Socket.IO"),
        },
        methods: MethodTexts {
            get: text("GET"),
            post: text("POST"),
            put: text("PUT"),
            patch: text("PATCH"),
            delete: text("DELETE"),
            head: text("HEAD"),
            options: text("OPTIONS"),
        },
        new_request: text("New"),
        request_list: text("Requests"),
        empty_list: text("Nothing"),
    }
}

#[test]
fn the_open_item_is_selected_in_the_tree() {
    let mut view = sample();
    view.select_request("r2");
    let (items, selected) = view.rebuild_tree(&tree_texts());
    assert_eq!(items[0].label, "Requests");
    assert_eq!(selected, Some(3));
    view.select_folder("c");
    assert_eq!(view.rebuild_tree(&tree_texts()).1, Some(5));
    view.inputs.search = text(" REQUEST R3 ");
    let (items, selected) = view.rebuild_tree(&tree_texts());
    assert_eq!(items[0].children.len(), 1);
    assert_eq!(items[0].children[0].id, "r3");
    assert_eq!(selected, None);
    view.active_folder_id = None;
    view.active_request_id = None;
    assert_eq!(view.rebuild_tree(&tree_texts()).1, None);
}
