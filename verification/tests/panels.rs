//! What the panels show.

use navop_workbench::appearance::{
    badge_tone, protocol_icon, request_badge_label, status_tone, Caption, Icon, Tone,
};
use navop_workbench::editing::KvAction;
use navop_workbench::editor_panel::{
    render_variables_editor, AuthEditor, BodyEditor, Connections, EditorContent, EditorPane,
    RequestEditor, SendAction, ValueCell,
};
use navop_workbench::export::{collection_exports, CollectionExport, DocumentEncoding, DocumentKind};
use navop_workbench::http::{
    AuthTarget, AuthType, BodyType, FieldType, HttpResponse, KeyValue, PreparedRequest, Protocol,
    RawLanguage, RequestMethod,
};
use navop_workbench::labels::{HttpShaped, Label, ProtocolTexts};
use navop_workbench::request_store::{
    ApiEnvironment, ApiStore, RequestHistoryEntry, ResponseExample, ResponseExampleAutoSaveMode,
    StoredFolder, StoredRequest,
};
use navop_workbench::response_panel::{
    cookie_rows, render_readonly_kv, render_response_example_card, render_text_response, response_status_tag,
    set_cookie_values, Presentation, ReadonlyTable, ResponseContent, ResponsePane, StatusCenter,
    StatusLeading,
};
use navop_workbench::scripting::ScriptResult;
use navop_workbench::sections::{
    create_kv_rows, keyvalues, kv_sections, KeyPlaceholder, KvSection, SectionRows,
};
use navop_workbench::sidebar::{
    protocols, render_export_button, render_history_row, render_new_request_button, ExportTexts,
    TreeAction, TreeRowLook,
};
use navop_workbench::tabs::{request_editor_tabs, response_tabs, RequestEditorTab, ResponseTab, SidebarMode};
use navop_workbench::tcp_panel::{
    render_tcp_entry, render_tcp_response, tcp_status, MessageDirection, TcpEntryLook, TcpSession,
    TcpState, TimelineEntry,
};
use navop_workbench::tree::{leaf, TreeItem};
use navop_workbench::view_state::{ApiTestView, Effect, Notice};
use navop_workbench::widgets::ButtonAction;

fn text(s: &str) -> String {
    s.to_string()
}

fn shaped() -> HttpShaped {
    HttpShaped {
        http: true,
        graphql: true,
        sse: true,
        web_socket: false,
        tcp: false,
        grpc_web: false,
        socket_io: false,
    }
}

fn request(id: &str) -> StoredRequest {
    StoredRequest::with_id(text(id), text(id), RequestMethod::Put)
}

fn view() -> ApiTestView {
    let store = ApiStore {
        folders: vec![StoredFolder::with_id(text("f"), text("F"), None)],
        requests: vec![request("r1"), request("r2")],
        globals: vec![],
        global_params: vec![],
        global_headers: vec![],
        global_cookies: vec![],
        environments: vec![ApiEnvironment::with_id(text("e1"), text("One"))],
        active_environment_id: Some(text("e1")),
        history: vec![],
        response_example_autosave: ResponseExampleAutoSaveMode::Off,
    };
    ApiTestView::with_store(store, text("fresh"), "Default").0
}

fn response(status: u16, error: Option<&str>) -> HttpResponse {
    HttpResponse {
        status,
        status_text: text("Fine"),
        headers: vec![
            KeyValue::new("SET-cookie", "a=1"),
            KeyValue::new("Accept", "*/*"),
            KeyValue::new("set-cookie", "b=2"),
        ],
        body: text("pretty"),
        raw_body: text("raw"),
        time_ms: 12,
        size: 2048,
        error: error.map(text),
        streaming: false,
    }
}

fn idle() -> Connections {
    Connections { streaming: false, websocket: false, socket_io: false, tcp: false }
}

fn key(label: &Label) -> &str {
    match label {
        Label::Message(key) => key,
        Label::Literal(text) => text,
    }
}

#[test]
fn statuses_have_colours() {
    for (failed, status, tone) in [
        (false, 0, Tone::Danger),
        (false, 199, Tone::Danger),
        (false, 200, Tone::Success),
        (false, 299, Tone::Success),
        (false, 300, Tone::Warning),
        (false, 499, Tone::Warning),
        (false, 500, Tone::Danger),
        (true, 200, Tone::Danger),
    ] {
        assert_eq!(status_tone(failed, status), tone);
    }
}

#[test]
fn badges_show_the_method_or_the_protocol() {
    assert_eq!(badge_tone(true, RequestMethod::Get), Tone::Method(RequestMethod::Get));
    assert_eq!(badge_tone(false, RequestMethod::Get), Tone::Primary);
    assert_eq!(request_badge_label(Some("WS"), "GET"), "WS");
    assert_eq!(request_badge_label(None, "GET"), "GET");
    assert_eq!(protocol_icon(Protocol::Sse), Icon::Sync);
    assert_eq!(protocol_icon(Protocol::SocketIo), Icon::Network);
}

#[test]
fn collections_are_exported_in_five_forms() {
    let all = collection_exports();
    let names: Vec<&str> = all.iter().map(|kind| kind.file_name()).collect();
    assert_eq!(
        names,
        [
            "navop-postman-collection.json",
            "navop-openapi.json",
            "navop-openapi.yaml",
            "navop-swagger.json",
            "navop-swagger.yaml"
        ]
    );
    assert_eq!(key(&CollectionExport::SwaggerYaml.prompt()), "ApiTest.export_swagger");
    assert_eq!(CollectionExport::OpenApiYaml.menu_label("OpenAPI"), "OpenAPI · YAML");
    assert_eq!(
        CollectionExport::PostmanJson.serialize(),
        (DocumentKind::Postman, "Navop Collection", DocumentEncoding::Json)
    );
    assert_eq!(
        CollectionExport::SwaggerYaml.serialize(),
        (DocumentKind::Swagger, "Navop API", DocumentEncoding::Yaml)
    );
    let texts = ExportTexts { postman: text("P"), openapi: text("O"), swagger: text("S") };
    assert_eq!(
        render_export_button(&texts),
        ["P · JSON", "O · JSON", "O · YAML", "S · JSON", "S · YAML"]
    );
}

#[test]
fn sections_have_ids_and_rows_of_their_own() {
    let sections = kv_sections();
    assert_eq!(sections.len(), 17);
    let mut ids: Vec<&str> = sections.iter().map(|section| section.element_id()).collect();
    assert_eq!(ids[0], "params");
    assert_eq!(ids[16], "request-variables");
    ids.sort();
    ids.dedup();
    assert_eq!(ids.len(), 17);

    let mut rows = SectionRows::new();
    let entries = vec![KeyValue::new("k", "v"), KeyValue::default()];
    *rows.rows_for_section_mut(KvSection::GlobalCookies) =
        create_kv_rows(&entries, KeyPlaceholder::Cookie);
    assert_eq!(rows.rows_for_section(KvSection::GlobalCookies).len(), 2);
    assert!(rows.rows_for_section(KvSection::Cookies).is_empty());
    let read = rows.keyvalues_from_rows(KvSection::GlobalCookies);
    assert_eq!(format!("{read:?}"), format!("{entries:?}"));
    assert_eq!(format!("{:?}", keyvalues(&rows.global_cookies)), format!("{entries:?}"));
    assert_eq!(rows.global_cookies[0].placeholder.as_str(), "Cookie");
    assert_eq!(KeyPlaceholder::Header.as_str(), "Header");
    assert_eq!(KeyPlaceholder::Key.as_str(), "Key");
}

#[test]
fn tabs_stand_at_their_place() {
    for (index, tab) in request_editor_tabs().iter().enumerate() {
        assert_eq!(tab.index(), index);
    }
    for (index, tab) in response_tabs().iter().enumerate() {
        assert_eq!(tab.index(), index);
    }
    assert_eq!(request_editor_tabs().len(), 9);
    assert_eq!(response_tabs().len(), 7);
    assert_eq!(RequestEditorTab::PreRequest.element_id(), "api-editor-tab-pre-request");
    assert_eq!(key(&RequestEditorTab::PreRequest.title()), "ApiTest.pre_request");
    assert_eq!(ResponseTab::ActualRequest.element_id(), "api-response-tab-actual-request");
    assert!(matches!(ResponseTab::Curl.title(), Label::Literal("cURL")));
}

#[test]
fn a_folder_has_no_request_bar() {
    let mut view = view();
    let layout = view.render();
    assert!(layout.request_bar && layout.response_pane);
    assert_eq!(layout.meta_icon, Icon::File);
    assert_eq!(layout.toggle_icon, Icon::ChevronLeft);
    assert!(!layout.notice_bar);
    view.notice = Some(Notice::RestoredFromHistory);
    assert!(view.render().notice_bar);
    view.select_folder("f");
    view.toggle_sidebar();
    let layout = view.render();
    assert!(!layout.request_bar && !layout.response_pane && layout.sidebar_collapsed);
    assert_eq!(layout.meta_icon, Icon::FolderOpen);
    assert_eq!(layout.toggle_icon, Icon::ChevronRight);
    assert!(matches!(view.render_editor_pane(), EditorPane::Folder(_)));
    let (icon, name) = view.render_request_meta_bar();
    assert_eq!((icon, name.as_str()), (Icon::FolderOpen, "F"));
    let bar = view.render_sidebar();
    assert_eq!(bar.active, SidebarMode::Collections);
    assert_eq!(bar.collections.element_id, "api-sidebar-collections");
    assert_eq!(bar.history.click, ButtonAction::ShowSidebar(SidebarMode::History));
    view.set_sidebar_mode(SidebarMode::History);
    assert_eq!(view.render_sidebar().active, SidebarMode::History);
}

#[test]
fn new_requests_can_use_every_protocol() {
    let texts = ProtocolTexts {
        http: text("HTTP"),
        graphql: text("GraphQL"),
        sse: text("SSE"),
        web_socket: text("WS"),
        tcp: text("TCP"),
        grpc_web: text("gRPC"),
        socket_io: text("SIO"),
    };
    let menu = render_new_request_button(&texts);
    let labels: Vec<&str> = menu.iter().map(|item| item.label.as_str()).collect();
    assert_eq!(labels, ["HTTP", "GraphQL", "SSE", "WS", "TCP", "gRPC", "SIO"]);
    for (item, protocol) in menu.iter().zip(protocols()) {
        assert_eq!(item.protocol, protocol);
        assert_eq!(item.icon, protocol_icon(protocol));
    }
}

#[test]
fn tree_rows_open_and_delete_what_they_stand_for() {
    let view = view();
    let row = |item: &TreeItem| view.render_collections_sidebar(item, true, &shaped());

    let folder = row(&leaf(text("f"), text("F")));
    assert_eq!(
        folder.look,
        TreeRowLook::Folder {
            disclosure: Icon::ChevronDown,
            folder: Icon::FolderOpen,
            is_root: false
        }
    );
    assert!(matches!(&folder.click, Some(TreeAction::SelectFolder(id)) if id == "f"));
    assert!(matches!(&folder.delete, Some(TreeAction::DeleteFolder(id)) if id == "f"));
    assert!(!folder.is_active);
    assert_eq!(key(&folder.delete_tooltip.unwrap()), "ApiTest.delete_folder");

    let request = row(&leaf(text("r1"), text("R")));
    assert_eq!(
        request.look,
        TreeRowLook::Request {
            protocol: Protocol::Http,
            method: RequestMethod::Put,
            tone: Tone::Method(RequestMethod::Put)
        }
    );
    assert!(request.is_active);
    assert_eq!(key(&request.delete_tooltip.unwrap()), "ApiTest.delete_request");
    assert!(matches!(&request.click, Some(TreeAction::SelectRequest(id)) if id == "r1"));
    assert!(matches!(&request.delete, Some(TreeAction::DeleteRequest(id)) if id == "r1"));

    let mut root = leaf(text("api-requests-root"), text("Requests"));
    root.children.push(leaf(text("r1"), text("R")));
    let root = view.render_collections_sidebar(&root, false, &shaped());
    assert_eq!(
        root.look,
        TreeRowLook::Folder {
            disclosure: Icon::ChevronRight,
            folder: Icon::FolderClosed,
            is_root: true
        }
    );
    assert!(root.click.is_none() && root.delete.is_none() && root.delete_tooltip.is_none());

    let empty = row(&leaf(text("api-requests-empty"), text("Nothing")));
    assert_eq!(empty.look, TreeRowLook::Empty);
    assert!(empty.click.is_none() && empty.delete.is_none());

    let unknown = row(&leaf(text("gone"), text("?")));
    assert_eq!(unknown.look, TreeRowLook::Blank);
}

fn history_entry(status: u16) -> RequestHistoryEntry {
    RequestHistoryEntry {
        id: text("h"),
        request: request("sent"),
        method: RequestMethod::Get,
        request_name: text("Sent"),
        url: text("https://host"),
        status,
        error: None,
        sent_at: 951_782_400_000,
        time_ms: 7,
        size: 1536,
    }
}

#[test]
fn the_history_shows_what_was_sent() {
    let row = render_history_row(3, &history_entry(301), false);
    assert_eq!(row.index, 3);
    assert_eq!(row.badge_tone, Tone::Primary);
    assert_eq!(row.name, "Sent");
    assert_eq!(row.status_tone, Tone::Warning);
    assert!(matches!(&row.status, Caption::Text(status) if status == "301"));
    assert_eq!(row.time, "02-29 00:00:00");
    assert_eq!(row.duration, "7 ms");
    assert_eq!(row.size, "1.5 KB");
    assert_eq!(row.restores, "h");
    let failed = render_history_row(0, &history_entry(0), true);
    assert!(matches!(failed.status, Caption::Message("ApiTest.error")));

    let mut view = view();
    let pane = view.render_history_sidebar("History", &shaped());
    assert_eq!(pane.title, "History · 0");
    assert!(!pane.clear.enabled);
    assert!(matches!(pane.empty, Some(Label::Message("ApiTest.history_empty"))));
    view.store.history = vec![history_entry(200), history_entry(0)];
    let pane = view.render_history_sidebar("History", &shaped());
    assert_eq!(pane.title, "History · 2");
    assert!(pane.clear.enabled);
    assert_eq!(pane.clear.click, ButtonAction::ClearHistory);
    assert!(pane.empty.is_none());
    assert_eq!(pane.rows[1].index, 1);
    assert_eq!(pane.rows[0].badge_tone, Tone::Method(RequestMethod::Get));
}

#[test]
fn the_last_environment_cannot_be_deleted() {
    let mut view = view();
    let manager = view.render_environment_manager_dialog();
    assert!(!manager.delete.enabled);
    assert_eq!(
        key(&manager.delete.tooltip.unwrap()),
        "ApiTest.cannot_delete_last_environment"
    );
    assert!(matches!(&manager.active_name, Caption::Text(name) if name == "One"));
    let sections: Vec<KvSection> = manager.cards.iter().map(|card| card.section).collect();
    assert_eq!(
        sections,
        [
            KvSection::Environment,
            KvSection::EnvironmentHeaders,
            KvSection::EnvironmentParams,
            KvSection::EnvironmentCookies
        ]
    );
    view.add_environment(text("e2"), text("Two"));
    let manager = view.render_environment_manager_dialog();
    assert!(manager.delete.enabled);
    assert_eq!(manager.count, "2");
    assert_eq!(key(&manager.delete.tooltip.unwrap()), "ApiTest.delete_environment");
    assert_eq!(manager.rows[1].element_id, "api-environment-option-1");
    let switcher = view.render_environment_manager();
    assert_eq!(switcher.rows[0].element_id, "api-environment-switch-option-0");
    assert!(!switcher.rows[0].is_active && switcher.rows[1].is_active);
    view.store.active_environment_id = None;
    let switcher = view.render_environment_manager();
    assert!(matches!(switcher.label, Caption::Message("ApiTest.environment")));
}

#[test]
fn the_send_button_ends_what_is_running() {
    let mut view = view();
    view.sending = true;
    let button = view.render_send_button(Protocol::Http, &idle(), true);
    assert_eq!(button.icon, Icon::Play);
    assert_eq!(key(&button.label), "ApiTest.send");
    assert_eq!(button.fill, Tone::Method(RequestMethod::Put));
    assert!(button.busy);
    assert_eq!(button.click, SendAction::Send);

    let streaming = Connections { streaming: true, ..idle() };
    view.inputs.url = text("https://host/x");
    let bar = view.render_request_bar(&streaming, &shaped());
    assert_eq!(bar.protocol, Protocol::Http);
    assert_eq!(bar.method, Some(Tone::Method(RequestMethod::Put)));
    assert_eq!(bar.url, "https://host/x");
    let button = bar.send;
    assert_eq!(button.icon, Icon::Pause);
    assert_eq!(key(&button.label), "ApiTest.stop");
    assert!(!button.busy);
    assert_eq!(button.click, SendAction::StopStream);

    for (protocol, connections, action) in [
        (Protocol::Tcp, Connections { tcp: true, ..idle() }, SendAction::DisconnectTcp),
        (
            Protocol::WebSocket,
            Connections { websocket: true, ..idle() },
            SendAction::DisconnectWebSocket,
        ),
        (
            Protocol::SocketIo,
            Connections { socket_io: true, ..idle() },
            SendAction::DisconnectSocketIo,
        ),
    ] {
        view.selections.protocol = Some(protocol);
        let bar = view.render_request_bar(&connections, &shaped());
        assert_eq!((bar.protocol, bar.method), (protocol, None));
        let button = bar.send;
        assert_eq!(button.icon, Icon::Pause);
        assert_eq!(key(&button.label), "ApiTest.disconnect");
        assert_eq!(button.click, action);
        assert_eq!(button.fill, Tone::Primary);
        let button = view.render_request_bar(&idle(), &shaped()).send;
        assert_eq!(key(&button.label), "ApiTest.connect");
        assert_eq!(view.click_send(&idle()), SendAction::Send);
    }
    view.selections.protocol = Some(Protocol::GrpcWeb);
    let bar = view.render_request_bar(&idle(), &shaped());
    assert_eq!(bar.method, None);
    assert_eq!(bar.send.fill, Tone::Method(RequestMethod::Put));
}

fn request_editor(view: &ApiTestView) -> RequestEditor {
    match view.render_editor_pane() {
        EditorPane::Request(editor) => editor,
        EditorPane::Folder(_) => panic!("a request"),
    }
}

#[test]
fn the_editor_shows_the_active_tab() {
    let mut view = view();
    view.inputs.request_description = text("what it does");
    let editor = request_editor(&view);
    assert_eq!(editor.selected, 0);
    assert_eq!(editor.tabs.len(), 9);
    assert_eq!(editor.tabs[6].element_id, "api-editor-tab-pre-request");
    assert_eq!(key(&editor.tabs[6].title), "ApiTest.pre_request");
    assert_eq!(key(&editor.description.title), "ApiTest.request_description");
    assert_eq!(editor.description.text, "what it does");
    assert!(matches!(editor.content, EditorContent::Table(KvSection::Params)));
    view.active_editor_tab = RequestEditorTab::Tests;
    view.inputs.tests = text("assert");
    assert_eq!(view.render_editor_tabs().1, 7);
    assert!(matches!(
        request_editor(&view).content,
        EditorContent::TestScript { hint: Label::Message("ApiTest.tests_hint"), text } if text == "assert"
    ));
    view.active_editor_tab = RequestEditorTab::PreRequest;
    view.inputs.pre_script = text("prepare");
    assert!(matches!(
        request_editor(&view).content,
        EditorContent::PreRequestScript { text, .. } if text == "prepare"
    ));
    view.active_editor_tab = RequestEditorTab::Body;
    assert!(matches!(request_editor(&view).content, EditorContent::Body(BodyEditor::Nothing(_))));
    view.active_editor_tab = RequestEditorTab::Auth;
    assert!(matches!(request_editor(&view).content, EditorContent::Auth(AuthEditor::Nothing(_))));
    view.active_editor_tab = RequestEditorTab::Variables;
    assert!(matches!(request_editor(&view).content, EditorContent::Variables(cards) if cards.len() == 5));
    let sections: Vec<KvSection> =
        render_variables_editor().iter().map(|card| card.section).collect();
    assert_eq!(
        sections,
        [
            KvSection::Globals,
            KvSection::GlobalParams,
            KvSection::GlobalHeaders,
            KvSection::GlobalCookies,
            KvSection::RequestVariables
        ]
    );
}

#[test]
fn a_folder_exposes_its_base_url_and_its_tables() {
    let mut view = view();
    view.select_folder("f");
    view.inputs.folder_base_url = text("https://folder");
    view.inputs.folder_description = text("about");
    let editor = view.render_folder_editor();
    assert_eq!(editor.element_id, "api-folder-editor");
    assert_eq!(editor.name, "F");
    assert_eq!(editor.settings_id, "api-folder-settings-card");
    assert_eq!(key(&editor.description.title), "ApiTest.folder_description");
    assert_eq!(editor.description.text, "about");
    assert_eq!(editor.base_url.element_id, Some("api-folder-base-url"));
    assert_eq!(key(&editor.base_url.title), "ApiTest.folder_base_url");
    assert_eq!(key(&editor.base_url.hint.unwrap()), "ApiTest.folder_base_url_hint");
    assert_eq!(editor.base_url.text, "https://folder");
    let sections: Vec<KvSection> = editor.cards.iter().map(|card| card.section).collect();
    assert_eq!(
        sections,
        [KvSection::FolderParams, KvSection::FolderHeaders, KvSection::FolderVariables]
    );
    for card in &editor.cards {
        assert_eq!(key(&card.tag.unwrap()), "ApiTest.inherited");
    }
    assert_eq!(editor.cards[2].hints.len(), 2);
    assert_eq!(key(&editor.cards[2].hints[1]), "ApiTest.folder_variable_precedence");
}

#[test]
fn body_and_authentication_have_an_editor_for_each_kind() {
    let mut view = view();
    view.inputs.body = text("payload");
    view.selections.raw_language = Some(RawLanguage::Xml);
    assert!(matches!(
        view.render_body_editor(),
        BodyEditor::Nothing(Label::Message("ApiTest.body_none"))
    ));
    view.selections.body_type = Some(BodyType::Raw);
    assert!(matches!(
        view.render_body_editor(),
        BodyEditor::Text { language: RawLanguage::Xml, text } if text == "payload"
    ));
    for kind in [BodyType::FormData, BodyType::Urlencoded] {
        view.selections.body_type = Some(kind);
        assert!(matches!(
            view.render_body_editor(),
            BodyEditor::Fields { body_type, section: KvSection::Body } if body_type == kind
        ));
    }

    assert!(matches!(
        view.render_auth_editor(),
        AuthEditor::Nothing(Label::Message("ApiTest.auth_none"))
    ));
    view.inputs.auth_token = text("t");
    view.inputs.auth_username = text("u");
    view.inputs.auth_password = text("p");
    view.inputs.auth_key = text("k");
    view.inputs.auth_value = text("v");
    view.selections.auth_type = Some(AuthType::Bearer);
    assert!(matches!(view.render_auth_editor(), AuthEditor::Token(token) if token.text == "t"));
    view.selections.auth_type = Some(AuthType::Basic);
    assert!(matches!(
        view.render_auth_editor(),
        AuthEditor::Login { username, password } if username.text == "u" && password.text == "p"
    ));
    view.selections.auth_type = Some(AuthType::ApiKey);
    for (target, message) in [
        (AuthTarget::Header, "ApiTest.auth_target_header"),
        (AuthTarget::Query, "ApiTest.auth_target_query"),
    ] {
        view.selections.auth_target = Some(target);
        let AuthEditor::Key { key: shown, value, target: sent, hint } = view.render_auth_editor()
        else {
            panic!("a key");
        };
        assert_eq!((shown.as_str(), value.as_str(), sent), ("k", "v", target));
        assert_eq!(key(&hint), message);
    }
}

fn file_row(path: Option<&str>) -> KeyValue {
    KeyValue {
        field_type: FieldType::File,
        file_path: path.map(text),
        ..KeyValue::new("f", "")
    }
}

#[test]
fn a_form_field_shows_the_name_of_its_file() {
    let mut view = view();
    view.selections.body_type = Some(BodyType::FormData);
    let paths = [
        (Some("/home/me/photo.png"), Some("photo.png")),
        (Some("plain.txt"), Some("plain.txt")),
        (Some("a/b.txt"), Some("b.txt")),
        (Some("dir/"), Some("dir")),
        (Some("dir//sub/./"), Some("sub")),
        (Some("dir/.hidden"), Some(".hidden")),
        (Some("dir/..."), Some("...")),
        (Some("dir/../"), None),
        (Some("./."), None),
        (Some("/"), None),
        (Some(".."), None),
        (Some(""), None),
        (None, None),
    ];
    let entries = paths.iter().map(|(path, _)| file_row(*path)).collect();
    view.rows.body = create_kv_rows(&entries, KeyPlaceholder::Key);
    let table = view.render_kv_editor(KvSection::Body);
    assert!(table.is_form_data);
    assert_eq!(table.footer_id, "api-kv-add-footer-body");
    for (index, (path, name)) in paths.iter().enumerate() {
        let ValueCell::FilePicker { element_id, label, tooltip, click } = &table.rows[index].value
        else {
            panic!("a picker");
        };
        assert_eq!(element_id, &format!("api-form-file-picker-body-{index}"));
        assert_eq!(*click, KvAction::ChooseFile { section: KvSection::Body, index });
        match (label, name) {
            (Caption::Text(label), Some(name)) => assert_eq!(label, name),
            (Caption::Message(key), None) => assert_eq!(*key, "ApiTest.choose_file"),
            other => panic!("{other:?}"),
        }
        match (tooltip, path) {
            (Caption::Text(tooltip), Some(path)) => assert_eq!(tooltip, path),
            (Caption::Message(key), None | Some("")) => {
                assert_eq!(*key, "ApiTest.no_file_selected")
            }
            other => panic!("{other:?}"),
        }
    }
    let buttons = table.rows[3].type_buttons.as_ref().unwrap();
    assert!(!buttons.is_text);
    assert_eq!(
        buttons.text_click,
        KvAction::SetFieldType {
            section: KvSection::Body,
            index: 3,
            field_type: FieldType::Text
        }
    );
    let columns: Vec<&str> = table.columns.iter().map(key).collect();
    assert_eq!(columns, ["ApiTest.text", "ApiTest.key", "ApiTest.value"]);
}

#[test]
fn a_row_of_a_table_shows_and_changes_its_own_entry() {
    let mut view = view();
    let entries = vec![KeyValue::new("a", "1"), KeyValue::new("b", "2"), KeyValue::new("c", "3")];
    view.rows.headers = create_kv_rows(&entries, KeyPlaceholder::Header);
    let table = view.render_kv_editor(KvSection::Headers);
    let columns: Vec<&str> = table.columns.iter().map(key).collect();
    assert_eq!(columns, ["ApiTest.key", "ApiTest.value"]);
    assert_eq!(table.rows[1].key, "b");
    assert_eq!(table.rows[1].key_placeholder, KeyPlaceholder::Header);
    assert!(matches!(&table.rows[1].value, ValueCell::Input { text } if text == "2"));
    let none = vec![];

    view.on_kv_action(table.rows[1].toggle, false, &none);
    assert!(!view.store.requests[0].header_rows[1].enabled);
    assert!(view.store.requests[0].header_rows[2].enabled);

    view.on_kv_action(table.rows[1].delete, false, &none);
    let keys: Vec<&str> =
        view.store.requests[0].header_rows.iter().map(|row| row.key.as_str()).collect();
    assert_eq!(keys, ["a", "c"]);

    let effects = view.on_kv_action(table.add, false, &none);
    assert_eq!(effects[0], Effect::WatchNewRow(KvSection::Headers));
    assert_eq!(view.rows.headers.len(), 3);

    let choose = KvAction::ChooseFile { section: KvSection::Headers, index: 0 };
    assert!(view.on_kv_action(choose, false, &none).is_empty());
    view.on_kv_action(choose, false, &vec![text("/tmp/x")]);
    assert_eq!(view.rows.headers[0].entry.file_path.as_deref(), Some("/tmp/x"));
    let as_text = KvAction::SetFieldType {
        section: KvSection::Headers,
        index: 0,
        field_type: FieldType::Text,
    };
    view.on_kv_action(as_text, false, &none);
    assert_eq!(view.rows.headers[0].entry.file_path, None);
}

#[test]
fn clicks_in_the_tree_open_and_delete() {
    let mut view = view();
    view.on_tree_action(&TreeAction::SelectFolder(text("f")));
    assert_eq!(view.active_folder_id.as_deref(), Some("f"));
    view.on_tree_action(&TreeAction::SelectRequest(text("r2")));
    assert_eq!(view.active_request_id.as_deref(), Some("r2"));
    view.on_tree_action(&TreeAction::DeleteRequest(text("r2")));
    assert_eq!(view.active_request_id.as_deref(), Some("r1"));
    view.on_tree_action(&TreeAction::DeleteFolder(text("f")));
    assert!(view.store.folders.is_empty());
}

#[test]
fn the_tree_has_search_new_folder_import_and_export() {
    let mut view = view();
    view.inputs.search = text("users");
    let frame = view.render_collections_frame();
    assert_eq!(frame.search, "users");
    assert_eq!(key(&frame.title), "ApiTest.request_list");
    assert_eq!(frame.new_folder.element_id, "api-new-folder");
    assert_eq!(frame.new_folder.click, ButtonAction::NewFolder);
    assert_eq!(frame.import.element_id, "api-import-collection");
    assert_eq!(frame.import.click, ButtonAction::ImportCollection);
    assert_eq!(frame.export_id, "api-export-collection");
}

#[test]
fn other_tables_have_plain_inputs() {
    let mut view = view();
    view.selections.body_type = Some(BodyType::Urlencoded);
    view.rows.body = create_kv_rows(&vec![file_row(Some("/a"))], KeyPlaceholder::Key);
    let table = view.render_kv_editor(KvSection::Body);
    assert!(!table.is_form_data);
    assert!(matches!(&table.rows[0].value, ValueCell::Input { text } if text.is_empty()));
    assert!(table.rows[0].type_buttons.is_none());
    assert_eq!(table.rows[0].row_id, "api-kv-row-body-0");
    assert_eq!(table.rows[0].enabled_id, "api-kv-enabled-body-0");
    assert_eq!(table.rows[0].delete_id, "api-kv-delete-body-0");
    let empty = view.render_kv_editor(KvSection::Path);
    assert_eq!(empty.footer_id, "api-kv-empty-path");
    assert_eq!(empty.add_id, "api-kv-add-path");
    assert_eq!(empty.scroll_id, "api-kv-scroll-view-path");
    let named = view.kv_table(KvSection::Body, &vec![Some(text("a"))]);
    assert_eq!(named.rows.len(), 1);
}

#[test]
fn rows_that_are_only_read_can_be_copied() {
    let rows = vec![KeyValue::new("a", "1"), KeyValue::new("b", "2")];
    let ReadonlyTable::Rows { scroll_id, scrollbar_id, key_title, value_title, rows } =
        render_readonly_kv(&rows, Label::Message("none"), "p")
    else {
        panic!("rows");
    };
    assert_eq!((scroll_id.as_str(), scrollbar_id.as_str()), ("p-scroll-view", "p-scrollbar"));
    assert_eq!((key(&key_title), key(&value_title)), ("ApiTest.key", "ApiTest.value"));
    assert_eq!(rows[1].copy_id, "p-1");
    assert_eq!(rows[1].copy_text, "b: 2");
    let none = render_readonly_kv(&vec![], Label::Message("none"), "p");
    assert!(matches!(none, ReadonlyTable::Empty(Label::Message("none"))));
}

#[test]
fn cookies_are_counted_whatever_their_case() {
    let mut view = view();
    view.response = Some(response(200, None));
    assert_eq!(set_cookie_values(&response(200, None).headers), ["a=1", "b=2"]);
    assert_eq!(view.response_cookie_values(), ["a=1", "b=2"]);
    let (tabs, active) = view.render_response_tabs();
    assert_eq!(active, 0);
    let counts: Vec<Option<usize>> = tabs.iter().map(|tab| tab.count).collect();
    assert_eq!(counts, [None, Some(3), Some(2), None, None, None, None]);
    view.response = None;
    assert!(view.response_cookie_values().is_empty());
    assert_eq!(view.render_response_tabs().0[1].count, Some(0));
}

/// The name and the value of a cookie, from the header value that sets it.
fn cookie_pair(value: &str) -> KeyValue {
    let pair = value.split(';').next().unwrap_or_default();
    let (name, value) = pair.split_once('=').unwrap_or((pair, ""));
    KeyValue::new(name.trim(), value.trim())
}

#[test]
fn each_cookie_of_the_response_has_a_row() {
    let values = vec![text("a=1; Path=/"), text("b = 2")];
    let rows = cookie_rows(&values, &cookie_pair);
    let rows: Vec<(&str, &str)> =
        rows.iter().map(|row| (row.key.as_str(), row.value.as_str())).collect();
    assert_eq!(rows, [("a", "1"), ("b", "2")]);

    let mut view = view();
    view.response = Some(response(200, None));
    view.active_response_tab = ResponseTab::Cookies;
    let ResponsePane::Http { content, .. } = view.render_response(&idle(), cookie_pair, "") else {
        panic!("a response");
    };
    let ResponseContent::Table(ReadonlyTable::Rows { rows, .. }) = content else {
        panic!("a table");
    };
    let copied: Vec<&str> = rows.iter().map(|row| row.copy_text.as_str()).collect();
    assert_eq!(copied, ["a: 1", "b: 2"]);
    assert_eq!(view.render_response_tabs().0[2].count, Some(rows.len()));

    let given = vec![KeyValue::new("c", "3")];
    assert!(matches!(
        view.show_response(&idle(), &given, ""),
        ResponsePane::Http { content: ResponseContent::Table(ReadonlyTable::Rows { rows, .. }), .. }
            if rows.len() == 1
    ));
}

#[test]
fn api_test_renderer_has_sidebar_tree_and_tabbed_editor() {
    let editor: Vec<&str> = request_editor_tabs().iter().map(|tab| tab.element_id()).collect();
    let panels = [
        "api-editor-tab-params",
        "api-editor-tab-path",
        "api-editor-tab-headers",
        "api-editor-tab-body",
        "api-editor-tab-auth",
        "api-editor-tab-cookies",
        "api-editor-tab-pre-request",
        "api-editor-tab-tests",
        "api-editor-tab-variables",
    ];
    for panel in panels {
        assert!(editor.contains(&panel), "missing request panel: {panel}");
    }
    assert_eq!(editor, panels);

    let mut view = view();
    let tabs = view.render_response_tabs().0;
    let response: Vec<&str> = tabs.iter().map(|tab| key(&tab.element_id)).collect();
    let panels = [
        "api-response-tab-body",
        "api-response-tab-headers",
        "api-response-tab-cookies",
        "api-response-tab-actual-request",
        "api-response-tab-curl",
        "api-response-tab-console",
        "api-response-tab-example",
    ];
    for panel in panels {
        assert!(response.contains(&panel), "missing response panel: {panel}");
    }
    assert_eq!(response, panels);

    view.inputs.environment_base_url = text("https://env");
    let manager = view.render_environment_manager_dialog();
    for editor in [
        "api-environment-variables",
        "api-environment-params",
        "api-environment-headers",
        "api-environment-cookies",
    ] {
        assert_eq!(
            manager.cards.iter().filter(|card| key(&card.element_id) == editor).count(),
            1,
            "environment inputs must only be mounted once: {editor}"
        );
    }
    assert_eq!(manager.base_url.element_id, Some("api-environment-base-url"));
    assert_eq!(key(&manager.base_url.title), "ApiTest.environment_base_url");
    assert_eq!(key(&manager.base_url.hint.unwrap()), "ApiTest.environment_base_url_hint");
    assert_eq!(manager.base_url.text, "https://env");
    assert_eq!(manager.close.element_id, "api-environment-manager-close");
    assert_eq!(manager.new_environment.element_id, "api-new-environment");
    assert_eq!(manager.rename.element_id, "api-rename-environment");
    assert_eq!(manager.delete.element_id, "api-delete-environment");
    let switcher = view.render_environment_manager();
    assert_eq!(switcher.new_environment.element_id, "api-new-environment-quick");
    assert_eq!(switcher.new_environment.click, ButtonAction::PromptNewEnvironment);
    assert_eq!(switcher.manage.element_id, "api-environment-manager-trigger");

    let folder = view.render_folder_editor();
    assert_eq!(folder.element_id, "api-folder-editor");
    assert_eq!(folder.base_url.element_id, Some("api-folder-base-url"));
    assert!(
        folder.cards.iter().any(|card| card.section == KvSection::FolderVariables),
        "folder selection must expose Base URL and inherited variable settings"
    );
    let frame = view.render_collections_frame();
    assert_eq!(frame.new_folder.element_id, "api-new-folder");
    assert_eq!(frame.import.element_id, "api-import-collection");
    assert_eq!(frame.export_id, "api-export-collection");
    let bar = view.render_sidebar();
    assert_eq!(bar.collections.element_id, "api-sidebar-collections");
    assert_eq!(bar.history.element_id, "api-sidebar-history");

    let table = view.render_kv_editor(KvSection::Params);
    assert!(table.footer_id.starts_with("api-kv-empty-"));
    view.add_kv_row(KvSection::Params);
    let table = view.render_kv_editor(KvSection::Params);
    assert!(table.footer_id.starts_with("api-kv-add-footer-"));
    assert_eq!(table.add, KvAction::Add(KvSection::Params), "a real add-row action");

    view.response = Some(HttpResponse { headers: vec![], ..self::response(200, None) });
    view.active_response_tab = ResponseTab::Headers;
    assert!(matches!(
        view.show_response_content(false, &vec![], ""),
        ResponseContent::Table(ReadonlyTable::Empty(Label::Message("ApiTest.no_response_headers")))
    ));
    view.active_response_tab = ResponseTab::Cookies;
    assert!(matches!(
        view.show_response_content(false, &vec![], ""),
        ResponseContent::Table(ReadonlyTable::Empty(Label::Message("ApiTest.no_response_cookies")))
    ));
}

#[test]
fn kept_responses_are_shown() {
    let example = |status, status_text: &str, saved_at: &str| ResponseExample {
        status,
        status_text: text(status_text),
        body: text("b"),
        saved_at: text(saved_at),
    };
    let card = render_response_example_card(&example(200, "OK", "today"), true, text("id"));
    assert_eq!(card.tone, Tone::Success);
    assert!(matches!(&card.status, Caption::Text(status) if status == "200 OK"));
    assert_eq!(card.saved_at.as_deref(), Some("today"));
    assert_eq!(card.copy_id, "id");
    let card = render_response_example_card(&example(404, " ", "  "), false, text("id"));
    assert_eq!(card.tone, Tone::Danger);
    assert!(matches!(&card.status, Caption::Text(status) if status == "404"));
    assert_eq!(card.saved_at, None);
    let card = render_response_example_card(&example(0, "x", ""), false, text("id"));
    assert!(matches!(card.status, Caption::Message("ApiTest.error")));

    let mut view = view();
    view.store.requests[0].success_example = Some(example(200, "OK", ""));
    view.store.requests[0].fail_examples = vec![example(500, "", ""), example(400, "", "")];
    let pane = view.render_response_examples();
    assert!(pane.empty.is_empty());
    assert_eq!(key(&pane.success_title.unwrap()), "ApiTest.response_example_success");
    assert_eq!(key(&pane.failures_title.unwrap()), "ApiTest.response_example_failures");
    assert_eq!(pane.success.unwrap().copy_id, "api-copy-success-example");
    assert_eq!(pane.failures[1].copy_id, "api-copy-failure-example-1");
    view.active_request_id = None;
    let pane = view.render_response_examples();
    assert!(pane.success.is_none() && pane.failures.is_empty());
    assert!(pane.success_title.is_none() && pane.failures_title.is_none());
    assert_eq!(key(&pane.empty[0]), "ApiTest.response_example_empty");
}

#[test]
fn a_response_is_presented_by_its_status() {
    let mut view = view();
    assert_eq!(view.response_presentation(false), Presentation::Neutral);
    assert!(view.render_response_status_bar(false).is_none());
    assert_eq!(view.response_presentation(true), Presentation::Progress);
    for (status, error, presentation) in [
        (0, None, Presentation::Error),
        (199, None, Presentation::Error),
        (200, None, Presentation::Success),
        (299, None, Presentation::Success),
        (300, None, Presentation::Warning),
        (499, None, Presentation::Warning),
        (500, None, Presentation::Error),
        (200, Some("refused"), Presentation::Error),
    ] {
        view.response = Some(response(status, error));
        assert_eq!(view.response_presentation(false), presentation);
    }
    view.sending = true;
    assert_eq!(view.response_presentation(false), Presentation::Progress);
    assert!(matches!(view.render_response_status_leading(false), StatusLeading::Sending));
    assert!(matches!(view.render_response_status_leading(true), StatusLeading::Status { .. }));
}

#[test]
fn the_status_bar_tells_how_it_went() {
    let mut view = view();
    view.response = Some(response(200, None));
    view.test_result = Some(ScriptResult {
        assertions_passed: 3,
        assertions_failed: 1,
        ..ScriptResult::default()
    });
    let bar = view.render_response_status_bar(false).expect("a bar");
    assert_eq!(bar.presentation, Presentation::Success);
    assert!(matches!(
        &bar.leading,
        StatusLeading::Status { tone: Tone::Success, label } if label == "200 Fine"
    ));
    assert!(matches!(bar.center, StatusCenter::Blank));
    let metrics = bar.metrics.expect("metrics");
    assert_eq!((metrics.duration.as_str(), metrics.size.as_str()), ("12 ms", "2.0 KB"));
    assert_eq!((metrics.passed, metrics.failed), (Some(3), Some(1)));
    assert!(matches!(view.render_response_status_center(true), StatusCenter::Streaming));
    view.response = Some(response(0, Some("refused")));
    assert!(matches!(
        view.render_response_status_center(true),
        StatusCenter::Error(error) if error == "refused"
    ));
    assert_eq!(response_status_tag(&response(0, None)), (Tone::Danger, text("—")));
    view.response = None;
    assert!(view.render_response_metrics().is_none());
    assert!(matches!(view.render_response_status_leading(false), StatusLeading::Blank));
}

#[test]
fn a_blank_text_is_replaced_by_a_placeholder() {
    let pane = render_text_response("panel", "copy", text(" \n"), "ApiTest.no_response");
    assert!(pane.is_empty);
    assert!(matches!(pane.shown, Caption::Message("ApiTest.no_response")));
    assert_eq!(pane.copy_text, " \n");
    let pane = render_text_response("panel", "copy", text("x"), "ApiTest.no_response");
    assert!(!pane.is_empty);
    assert!(matches!(&pane.shown, Caption::Text(shown) if shown == "x"));
}

#[test]
fn the_response_pane_follows_the_active_tab() {
    let mut view = view();
    let cookies = vec![KeyValue::new("a", "1")];
    let show = |view: &ApiTestView| view.show_response_content(false, &cookies, "log");
    assert!(matches!(
        show(&view),
        ResponseContent::NoResponse(Label::Message("ApiTest.no_response"))
    ));
    view.sending = true;
    assert!(matches!(show(&view), ResponseContent::Loading(Label::Message("ApiTest.sending"))));
    view.sending = false;
    view.response = Some(response(200, None));
    assert!(matches!(
        show(&view),
        ResponseContent::Body { text, pretty: true, show_raw, .. }
            if text == "pretty" && show_raw.click == ButtonAction::ShowPretty(false)
    ));
    view.set_response_pretty(false);
    assert!(matches!(
        show(&view),
        ResponseContent::Body { text, pretty: false, .. } if text == "raw"
    ));
    view.active_response_tab = ResponseTab::Cookies;
    assert!(matches!(
        show(&view),
        ResponseContent::Table(ReadonlyTable::Rows { rows, .. })
            if rows[0].copy_id == "api-copy-response-cookie-0"
    ));
    view.active_response_tab = ResponseTab::Curl;
    view.prepared_request =
        Some(PreparedRequest { actual_request: text("GET /"), curl: text("curl x") });
    assert!(matches!(show(&view), ResponseContent::Text(pane) if pane.copy_text == "curl x"));
    view.active_response_tab = ResponseTab::ActualRequest;
    assert!(matches!(show(&view), ResponseContent::Text(pane) if pane.copy_text == "GET /"));
    view.active_response_tab = ResponseTab::Console;
    assert!(matches!(show(&view), ResponseContent::Text(pane) if pane.copy_text == "log"));
    view.active_response_tab = ResponseTab::Example;
    assert!(matches!(show(&view), ResponseContent::Examples(_)));
}

#[test]
fn interactive_protocols_have_a_pane_of_their_own() {
    let mut view = view();
    let pair = |value: &str| KeyValue::new(value, "");
    let pane = view.render_response(&idle(), pair, "");
    assert!(matches!(
        pane,
        ResponsePane::Http {
            tabs,
            selected: 0,
            content: ResponseContent::NoResponse(_),
            status_bar: None
        } if tabs.len() == 7
    ));
    view.selections.protocol = Some(Protocol::Tcp);
    assert!(matches!(view.render_response(&idle(), pair, ""), ResponsePane::Tcp));
    view.selections.protocol = Some(Protocol::WebSocket);
    assert!(matches!(view.render_response(&idle(), pair, ""), ResponsePane::WebSocket));
    view.selections.protocol = Some(Protocol::SocketIo);
    assert!(matches!(view.render_response(&idle(), pair, ""), ResponsePane::SocketIo));
}

#[test]
fn a_tcp_connection_shows_its_state() {
    for (state, label, tone) in [
        (TcpState::Disconnected, "ApiTest.disconnected", Tone::MutedForeground),
        (TcpState::Connecting, "ApiTest.connecting", Tone::Warning),
        (TcpState::Connected, "ApiTest.connected", Tone::Success),
        (TcpState::Closing, "ApiTest.disconnecting", Tone::Warning),
        (TcpState::Failed(text("e")), "ApiTest.connection_failed", Tone::Danger),
    ] {
        let (shown, colour) = tcp_status(&state);
        assert_eq!((key(&shown), colour), (label, tone));
    }
}

#[test]
fn a_tcp_timeline_is_shown_in_order() {
    let entry = |direction, s: &str| TimelineEntry { direction, text: text(s) };
    let session = TcpSession {
        state: TcpState::Connected,
        peer: None,
        timeline: vec![
            entry(MessageDirection::System, "opened"),
            entry(MessageDirection::Sent, "ping"),
            entry(MessageDirection::Received, "pong"),
        ],
    };
    let pane = render_tcp_response(&session, "messages", "hello");
    assert_eq!(pane.peer, "—");
    assert_eq!(pane.count, "3 messages");
    assert!(pane.can_send && pane.send.enabled);
    assert_eq!(pane.send.click, ButtonAction::SendMessage(Protocol::Tcp));
    assert_eq!(pane.message, "hello");
    assert_eq!(key(&pane.title), "ApiTest.tcp_messages");
    assert!(pane.empty.is_none());
    let looks: Vec<TcpEntryLook> = pane.entries.iter().map(|entry| entry.look).collect();
    assert_eq!(looks, [TcpEntryLook::System, TcpEntryLook::Sent, TcpEntryLook::Received]);
    assert_eq!(pane.entries[2].index, 2);
    assert_eq!(pane.entries[2].text, "pong");
    let sent = render_tcp_entry(7, &session.timeline[1]);
    assert_eq!(sent.index, 7);
    assert_eq!(sent.tone, Tone::Accent);
    assert_eq!(key(&sent.label.unwrap()), "ApiTest.sent");
    let closed = TcpSession { state: TcpState::Closing, peer: Some(text("host:1")), timeline: vec![] };
    let pane = render_tcp_response(&closed, "messages", "");
    assert_eq!(pane.peer, "host:1");
    assert!(!pane.can_send && !pane.send.enabled);
    assert!(matches!(pane.empty, Some(Label::Message("ApiTest.tcp_empty"))));
}
