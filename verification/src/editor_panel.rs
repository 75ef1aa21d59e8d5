//! What the request bar and the editor show.

use vstd::prelude::*;
use crate::appearance::{Caption, CaptionModel, Icon, Tone};
use crate::editing::KvAction;
use crate::environment_panel::{SettingsCard, SettingsCardModel, card, card_model};
use crate::http::{AuthTarget, AuthType, BodyType, FieldType, Protocol, RawLanguage};
use crate::labels::{HttpShaped, Label, LabelModel};
use crate::sections::{KeyPlaceholder, KvRow, KvRowModel, KvSection};
use crate::tabs::{RequestEditorTab, all_editor_tabs, request_editor_tabs};
use crate::text::{decimal, decimal_text, join, join3, lemma_decimal_injective, occurs_in};
use crate::view_state::{ApiTestView, ApiTestViewModel};
use crate::widgets::{InputField, InputFieldModel, hinted_input, titled_input};

verus! {

/// Which connections are open or being opened, and whether a stream is read.
#[derive(Clone, Copy, PartialEq, Eq, Structural, Debug)]
pub struct Connections {
    pub streaming: bool,
    pub websocket: bool,
    pub socket_io: bool,
    pub tcp: bool,
}

/// What a click on the send button does.
#[derive(Clone, Copy, PartialEq, Eq, Structural, Debug)]
pub enum SendAction {
    DisconnectTcp,
    DisconnectWebSocket,
    DisconnectSocketIo,
    StopStream,
    Send,
}

/// The send button.
#[derive(Debug)]
pub struct SendButton {
    pub icon: Icon,
    pub label: Label,
    pub fill: Tone,
    pub busy: bool,
    pub click: SendAction,
}

/// Model of [`SendButton`].
#[verifier::ext_equal]
pub struct SendButtonModel {
    pub icon: Icon,
    pub label: LabelModel,
    pub fill: Tone,
    pub busy: bool,
    pub click: SendAction,
}

impl DeepView for SendButton {
    type V = SendButtonModel;

    open spec fn deep_view(&self) -> SendButtonModel {
        SendButtonModel {
            icon: self.icon,
            label: self.label.deep_view(),
            fill: self.fill,
            busy: self.busy,
            click: self.click,
        }
    }
}

/// Whether the protocol keeps a connection open.
pub open spec fn is_interactive(protocol: Protocol) -> bool {
    protocol == Protocol::Tcp || protocol == Protocol::WebSocket || protocol == Protocol::SocketIo
}

impl Connections {
    /// Whether the connection of the protocol is open or being opened.
    pub open spec fn connected(self, protocol: Protocol) -> bool {
        match protocol {
            Protocol::WebSocket => self.websocket,
            Protocol::SocketIo => self.socket_io,
            Protocol::Tcp => self.tcp,
            _ => false,
        }
    }

    fn is_connected(&self, protocol: Protocol) -> (b: bool)
        ensures
            b == self.connected(protocol),
    {
        match protocol {
            Protocol::WebSocket => self.websocket,
            Protocol::SocketIo => self.socket_io,
            Protocol::Tcp => self.tcp,
            _ => false,
        }
    }
}

/// What a click on the send button does: it closes the connection of the selected protocol,
/// or stops the stream, or else sends.
pub open spec fn send_action(protocol: Protocol, connections: Connections) -> SendAction {
    if connections.connected(protocol) {
        match protocol {
            Protocol::Tcp => SendAction::DisconnectTcp,
            Protocol::WebSocket => SendAction::DisconnectWebSocket,
            _ => SendAction::DisconnectSocketIo,
        }
    } else if connections.streaming {
        SendAction::StopStream
    } else {
        SendAction::Send
    }
}

impl ApiTestViewModel {
    /// The send button for a protocol.
    pub open spec fn send_button(
        self,
        protocol: Protocol,
        connections: Connections,
        uses_http_method: bool,
    ) -> SendButtonModel {
        SendButtonModel {
            icon: if connections.streaming || connections.connected(protocol) {
                Icon::Pause
            } else {
                Icon::Play
            },
            label: LabelModel::Message(
                if connections.streaming {
                    "ApiTest.stop"@
                } else if connections.connected(protocol) {
                    "ApiTest.disconnect"@
                } else if is_interactive(protocol) {
                    "ApiTest.connect"@
                } else {
                    "ApiTest.send"@
                },
            ),
            fill: if uses_http_method || protocol == Protocol::GrpcWeb {
                Tone::Method(self.selections.current_method())
            } else {
                Tone::Primary
            },
            busy: self.sending && !connections.streaming && !is_interactive(protocol),
            click: send_action(self.selections.current_protocol(), connections),
        }
    }
}

/// The request bar: the protocol, the method in its colour where the protocol uses one, the
/// address, and the send button.
#[derive(Debug)]
pub struct RequestBar {
    pub protocol: Protocol,
    pub method: Option<Tone>,
    pub url: String,
    pub send: SendButton,
}

/// Model of [`RequestBar`].
#[verifier::ext_equal]
pub struct RequestBarModel {
    pub protocol: Protocol,
    pub method: Option<Tone>,
    pub url: Seq<char>,
    pub send: SendButtonModel,
}

impl DeepView for RequestBar {
    type V = RequestBarModel;

    open spec fn deep_view(&self) -> RequestBarModel {
        RequestBarModel {
            protocol: self.protocol,
            method: self.method,
            url: self.url@,
            send: self.send.deep_view(),
        }
    }
}

impl ApiTestViewModel {
    /// The request bar.
    pub open spec fn request_bar(
        self,
        connections: Connections,
        shaped: HttpShaped,
    ) -> RequestBarModel {
        let protocol = self.selections.current_protocol();
        RequestBarModel {
            protocol,
            method: if shaped.holds(protocol) {
                Some(Tone::Method(self.selections.current_method()))
            } else {
                None
            },
            url: self.inputs.url,
            send: self.send_button(protocol, connections, shaped.holds(protocol)),
        }
    }
}

impl ApiTestView {
    /// What a click on the send button does.
    pub fn click_send(&self, connections: &Connections) -> (r: SendAction)
        ensures
            r == send_action(self.deep_view().selections.current_protocol(), *connections),
    {
        let protocol = self.selections.current_protocol();
        if protocol == Protocol::Tcp && connections.tcp {
            SendAction::DisconnectTcp
        } else if protocol == Protocol::WebSocket && connections.websocket {
            SendAction::DisconnectWebSocket
        } else if protocol == Protocol::SocketIo && connections.socket_io {
            SendAction::DisconnectSocketIo
        } else if connections.streaming {
            SendAction::StopStream
        } else {
            SendAction::Send
        }
    }

    /// The send button for a protocol.
    pub fn render_send_button(
        &self,
        protocol: Protocol,
        connections: &Connections,
        uses_http_method: bool,
    ) -> (r: SendButton)
        ensures
            r.deep_view() == self.deep_view().send_button(
                protocol,
                *connections,
                uses_http_method,
            ),
    {
        let streaming = connections.streaming;
        let connected = connections.is_connected(protocol);
        let interactive = protocol == Protocol::Tcp || protocol == Protocol::WebSocket || protocol
            == Protocol::SocketIo;
        SendButton {
            icon: if streaming || connected {
                Icon::Pause
            } else {
                Icon::Play
            },
            label: Label::Message(
                if streaming {
                    "ApiTest.stop"
                } else if connected {
                    "ApiTest.disconnect"
                } else if interactive {
                    "ApiTest.connect"
                } else {
                    "ApiTest.send"
                },
            ),
            fill: if uses_http_method || protocol == Protocol::GrpcWeb {
                Tone::Method(self.selections.current_method())
            } else {
                Tone::Primary
            },
            busy: self.sending && !streaming && !interactive,
            click: self.click_send(connections),
        }
    }

    /// The request bar: the protocol, the method in its colour where the protocol uses one,
    /// the address, and the send button.
    pub fn render_request_bar(&self, connections: &Connections, shaped: &HttpShaped) -> (r:
        RequestBar)
        ensures
            r.deep_view() == self.deep_view().request_bar(*connections, *shaped),
    {
        let protocol = self.selections.current_protocol();
        let uses_http_method = shaped.uses_http_method(protocol);
        RequestBar {
            protocol,
            method: if uses_http_method {
                Some(Tone::Method(self.selections.current_method()))
            } else {
                None
            },
            url: self.inputs.url.clone(),
            send: self.render_send_button(protocol, connections, uses_http_method),
        }
    }
}

/// The button shows the sign to pause exactly where a click ends something.
pub proof fn law_pause_sign_ends_something(
    view: ApiTestViewModel,
    connections: Connections,
    uses_http_method: bool,
)
    ensures
        ({
            let protocol = view.selections.current_protocol();
            let button = view.send_button(protocol, connections, uses_http_method);
            &&& button.icon == Icon::Pause <==> button.click != SendAction::Send
            &&& button.busy ==> button.click == SendAction::Send
        }),
{
}

/// The model of a card of the folder settings, whose entries are inherited.
pub open spec fn inherited_card(
    element_id: Seq<char>,
    title: Seq<char>,
    hint: Seq<char>,
    section: KvSection,
) -> SettingsCardModel {
    SettingsCardModel {
        tag: Some(LabelModel::Message("ApiTest.inherited"@)),
        ..card_model(element_id, title, hint, section)
    }
}

fn show_inherited_card(
    element_id: &'static str,
    title: &'static str,
    hint: &'static str,
    section: KvSection,
) -> (r: SettingsCard)
    ensures
        r.deep_view() == inherited_card(element_id@, title@, hint@, section),
{
    let mut r = card(element_id, title, hint, section);
    r.tag = Some(Label::Message("ApiTest.inherited"));
    r
}

/// The cards with the tables of a folder, from top to bottom. That of the variables also
/// says which variables take precedence.
pub open spec fn folder_cards() -> Seq<SettingsCardModel> {
    seq![
        inherited_card(
            "api-folder-params"@,
            "ApiTest.folder_params"@,
            "ApiTest.folder_params_hint"@,
            KvSection::FolderParams,
        ),
        inherited_card(
            "api-folder-headers"@,
            "ApiTest.folder_headers"@,
            "ApiTest.folder_headers_hint"@,
            KvSection::FolderHeaders,
        ),
        SettingsCardModel {
            hints: seq![
                LabelModel::Message("ApiTest.folder_variables_hint"@),
                LabelModel::Message("ApiTest.folder_variable_precedence"@),
            ],
            ..inherited_card(
                "api-folder-variables"@,
                "ApiTest.folder_variables"@,
                "ApiTest.folder_variables_hint"@,
                KvSection::FolderVariables,
            )
        },
    ]
}

fn list_folder_cards() -> (r: Vec<SettingsCard>)
    ensures
        r.deep_view() == folder_cards(),
{
    let mut variables = show_inherited_card(
        "api-folder-variables",
        "ApiTest.folder_variables",
        "ApiTest.folder_variables_hint",
        KvSection::FolderVariables,
    );
    let ghost one = variables.hints.deep_view();
    let precedence = Label::Message("ApiTest.folder_variable_precedence");
    variables.hints.push(precedence);
    assert(variables.hints.deep_view() =~= one.push(precedence.deep_view()));
    assert(variables.deep_view().hints =~= folder_cards()[2].hints);
    let r = vec![
        show_inherited_card(
            "api-folder-params",
            "ApiTest.folder_params",
            "ApiTest.folder_params_hint",
            KvSection::FolderParams,
        ),
        show_inherited_card(
            "api-folder-headers",
            "ApiTest.folder_headers",
            "ApiTest.folder_headers_hint",
            KvSection::FolderHeaders,
        ),
        variables,
    ];
    assert(r.deep_view() =~= folder_cards());
    r
}

/// The settings of a folder. In their head are icon, title, hint and the input for the name.
/// Below are the card with the description and the base URL, and the cards with the tables.
#[derive(Debug)]
pub struct FolderEditor {
    pub element_id: &'static str,
    pub icon: Icon,
    pub title: Label,
    pub hint: Label,
    pub name: String,
    pub settings_id: &'static str,
    pub description: InputField,
    pub base_url: InputField,
    pub cards: Vec<SettingsCard>,
}

/// Model of [`FolderEditor`].
#[verifier::ext_equal]
pub struct FolderEditorModel {
    pub element_id: Seq<char>,
    pub icon: Icon,
    pub title: LabelModel,
    pub hint: LabelModel,
    pub name: Seq<char>,
    pub settings_id: Seq<char>,
    pub description: InputFieldModel,
    pub base_url: InputFieldModel,
    pub cards: Seq<SettingsCardModel>,
}

impl DeepView for FolderEditor {
    type V = FolderEditorModel;

    open spec fn deep_view(&self) -> FolderEditorModel {
        FolderEditorModel {
            element_id: self.element_id@,
            icon: self.icon,
            title: self.title.deep_view(),
            hint: self.hint.deep_view(),
            name: self.name@,
            settings_id: self.settings_id@,
            description: self.description.deep_view(),
            base_url: self.base_url.deep_view(),
            cards: self.cards.deep_view(),
        }
    }
}

impl ApiTestViewModel {
    /// The settings of the open folder.
    pub open spec fn folder_editor(self) -> FolderEditorModel {
        FolderEditorModel {
            element_id: "api-folder-editor"@,
            icon: Icon::FolderOpen,
            title: LabelModel::Message("ApiTest.folder_settings"@),
            hint: LabelModel::Message("ApiTest.folder_settings_hint"@),
            name: self.inputs.name,
            settings_id: "api-folder-settings-card"@,
            description: hinted_input(
                None,
                "ApiTest.folder_description"@,
                "ApiTest.folder_description_hint"@,
                self.inputs.folder_description,
            ),
            base_url: hinted_input(
                Some("api-folder-base-url"@),
                "ApiTest.folder_base_url"@,
                "ApiTest.folder_base_url_hint"@,
                self.inputs.folder_base_url,
            ),
            cards: folder_cards(),
        }
    }
}

impl ApiTestView {
    /// The settings of the open folder.
    pub fn render_folder_editor(&self) -> (r: FolderEditor)
        ensures
            r.deep_view() == self.deep_view().folder_editor(),
    {
        FolderEditor {
            element_id: "api-folder-editor",
            icon: Icon::FolderOpen,
            title: Label::Message("ApiTest.folder_settings"),
            hint: Label::Message("ApiTest.folder_settings_hint"),
            name: self.inputs.name.clone(),
            settings_id: "api-folder-settings-card",
            description: InputField::hinted(
                None,
                "ApiTest.folder_description",
                "ApiTest.folder_description_hint",
                &self.inputs.folder_description,
            ),
            base_url: InputField::hinted(
                Some("api-folder-base-url"),
                "ApiTest.folder_base_url",
                "ApiTest.folder_base_url_hint",
                &self.inputs.folder_base_url,
            ),
            cards: list_folder_cards(),
        }
    }
}

/// The tables of variables, from top to bottom: title, hint and table.
pub open spec fn variable_cards() -> Seq<(LabelModel, Option<LabelModel>, KvSection)> {
    seq![
        (LabelModel::Message("ApiTest.global_variables"@), None, KvSection::Globals),
        (
            LabelModel::Message("ApiTest.global_params"@),
            Some(LabelModel::Message("ApiTest.global_params_hint"@)),
            KvSection::GlobalParams,
        ),
        (
            LabelModel::Message("ApiTest.global_headers"@),
            Some(LabelModel::Message("ApiTest.global_headers_hint"@)),
            KvSection::GlobalHeaders,
        ),
        (
            LabelModel::Message("ApiTest.global_cookies"@),
            Some(LabelModel::Message("ApiTest.global_cookies_hint"@)),
            KvSection::GlobalCookies,
        ),
        (LabelModel::Message("ApiTest.request_variables"@), None, KvSection::RequestVariables),
    ]
}

/// A table of variables: title, hint and table.
#[derive(Clone, Copy, Debug)]
pub struct VariableCard {
    pub title: Label,
    pub hint: Option<Label>,
    pub section: KvSection,
}

impl DeepView for VariableCard {
    type V = (LabelModel, Option<LabelModel>, KvSection);

    open spec fn deep_view(&self) -> (LabelModel, Option<LabelModel>, KvSection) {
        (self.title.deep_view(), self.hint.deep_view(), self.section)
    }
}

/// The tables of variables, from top to bottom.
pub fn render_variables_editor() -> (r: Vec<VariableCard>)
    ensures
        r.deep_view() == variable_cards(),
{
    let r = vec![
        VariableCard {
            title: Label::Message("ApiTest.global_variables"),
            hint: None,
            section: KvSection::Globals,
        },
        VariableCard {
            title: Label::Message("ApiTest.global_params"),
            hint: Some(Label::Message("ApiTest.global_params_hint")),
            section: KvSection::GlobalParams,
        },
        VariableCard {
            title: Label::Message("ApiTest.global_headers"),
            hint: Some(Label::Message("ApiTest.global_headers_hint")),
            section: KvSection::GlobalHeaders,
        },
        VariableCard {
            title: Label::Message("ApiTest.global_cookies"),
            hint: Some(Label::Message("ApiTest.global_cookies_hint")),
            section: KvSection::GlobalCookies,
        },
        VariableCard {
            title: Label::Message("ApiTest.request_variables"),
            hint: None,
            section: KvSection::RequestVariables,
        },
    ];
    assert(r.deep_view() =~= variable_cards());
    r
}

/// What the editor of the body shows.
#[derive(Debug)]
pub enum BodyEditor {
    /// That there is no body.
    Nothing(Label),
    /// The text of the body, with the selection of its language.
    Text { language: RawLanguage, text: String },
    /// The table of the fields, as a form or encoded in an address.
    Fields { body_type: BodyType, section: KvSection },
}

/// Model of [`BodyEditor`].
#[verifier::ext_equal]
pub enum BodyEditorModel {
    Nothing(LabelModel),
    Text { language: RawLanguage, text: Seq<char> },
    Fields { body_type: BodyType, section: KvSection },
}

impl DeepView for BodyEditor {
    type V = BodyEditorModel;

    open spec fn deep_view(&self) -> BodyEditorModel {
        match self {
            BodyEditor::Nothing(label) => BodyEditorModel::Nothing(label.deep_view()),
            BodyEditor::Text { language, text } => BodyEditorModel::Text {
                language: *language,
                text: text@,
            },
            BodyEditor::Fields { body_type, section } => BodyEditorModel::Fields {
                body_type: *body_type,
                section: *section,
            },
        }
    }
}

/// What the editor of the authentication shows.
#[derive(Debug)]
pub enum AuthEditor {
    /// That there is none.
    Nothing(Label),
    /// An input for a token.
    Token(InputField),
    /// Inputs for name and password.
    Login { username: InputField, password: InputField },
    /// Inputs for key and value, and where they are sent, with a text that says so.
    Key { key: String, value: String, target: AuthTarget, hint: Label },
}

/// Model of [`AuthEditor`].
#[verifier::ext_equal]
pub enum AuthEditorModel {
    Nothing(LabelModel),
    Token(InputFieldModel),
    Login { username: InputFieldModel, password: InputFieldModel },
    Key { key: Seq<char>, value: Seq<char>, target: AuthTarget, hint: LabelModel },
}

impl DeepView for AuthEditor {
    type V = AuthEditorModel;

    open spec fn deep_view(&self) -> AuthEditorModel {
        match self {
            AuthEditor::Nothing(label) => AuthEditorModel::Nothing(label.deep_view()),
            AuthEditor::Token(token) => AuthEditorModel::Token(token.deep_view()),
            AuthEditor::Login { username, password } => AuthEditorModel::Login {
                username: username.deep_view(),
                password: password.deep_view(),
            },
            AuthEditor::Key { key, value, target, hint } => AuthEditorModel::Key {
                key: key@,
                value: value@,
                target: *target,
                hint: hint.deep_view(),
            },
        }
    }
}

impl ApiTestViewModel {
    /// What the editor of the body shows.
    pub open spec fn body_editor(self) -> BodyEditorModel {
        match self.selections.current_body_type() {
            BodyType::NoBody => BodyEditorModel::Nothing(LabelModel::Message("ApiTest.body_none"@)),
            BodyType::Raw => BodyEditorModel::Text {
                language: self.selections.current_raw_language(),
                text: self.inputs.body,
            },
            BodyType::FormData => BodyEditorModel::Fields {
                body_type: BodyType::FormData,
                section: KvSection::Body,
            },
            BodyType::Urlencoded => BodyEditorModel::Fields {
                body_type: BodyType::Urlencoded,
                section: KvSection::Body,
            },
        }
    }

    /// What the editor of the authentication shows.
    pub open spec fn auth_editor(self) -> AuthEditorModel {
        match self.selections.current_auth_type() {
            AuthType::NoAuth => AuthEditorModel::Nothing(LabelModel::Message("ApiTest.auth_none"@)),
            AuthType::Bearer => AuthEditorModel::Token(
                titled_input("ApiTest.auth_token"@, self.inputs.auth_token),
            ),
            AuthType::Basic => AuthEditorModel::Login {
                username: titled_input("ApiTest.auth_username"@, self.inputs.auth_username),
                password: titled_input("ApiTest.auth_password"@, self.inputs.auth_password),
            },
            AuthType::ApiKey => AuthEditorModel::Key {
                key: self.inputs.auth_key,
                value: self.inputs.auth_value,
                target: self.selections.current_auth_target(),
                hint: LabelModel::Message(
                    if self.selections.current_auth_target() == AuthTarget::Header {
                        "ApiTest.auth_target_header"@
                    } else {
                        "ApiTest.auth_target_query"@
                    },
                ),
            },
        }
    }
}

impl ApiTestView {
    /// What the editor of the body shows.
    pub fn render_body_editor(&self) -> (r: BodyEditor)
        ensures
            r.deep_view() == self.deep_view().body_editor(),
    {
        match self.selections.current_body_type() {
            BodyType::NoBody => BodyEditor::Nothing(Label::Message("ApiTest.body_none")),
            BodyType::Raw => BodyEditor::Text {
                language: self.selections.current_raw_language(),
                text: self.inputs.body.clone(),
            },
            BodyType::FormData => BodyEditor::Fields {
                body_type: BodyType::FormData,
                section: KvSection::Body,
            },
            BodyType::Urlencoded => BodyEditor::Fields {
                body_type: BodyType::Urlencoded,
                section: KvSection::Body,
            },
        }
    }

    /// What the editor of the authentication shows.
    pub fn render_auth_editor(&self) -> (r: AuthEditor)
        ensures
            r.deep_view() == self.deep_view().auth_editor(),
    {
        match self.selections.current_auth_type() {
            AuthType::NoAuth => AuthEditor::Nothing(Label::Message("ApiTest.auth_none")),
            AuthType::Bearer => AuthEditor::Token(
                InputField::titled("ApiTest.auth_token", &self.inputs.auth_token),
            ),
            AuthType::Basic => AuthEditor::Login {
                username: InputField::titled("ApiTest.auth_username", &self.inputs.auth_username),
                password: InputField::titled("ApiTest.auth_password", &self.inputs.auth_password),
            },
            AuthType::ApiKey => {
                let target = self.selections.current_auth_target();
                AuthEditor::Key {
                    key: self.inputs.auth_key.clone(),
                    value: self.inputs.auth_value.clone(),
                    target,
                    hint: Label::Message(
                        if target == AuthTarget::Header {
                            "ApiTest.auth_target_header"
                        } else {
                            "ApiTest.auth_target_query"
                        },
                    ),
                }
            },
        }
    }
}

/// What the active tab of the editor shows.
#[derive(Debug)]
pub enum EditorContent {
    /// A table.
    Table(KvSection),
    /// The body.
    Body(BodyEditor),
    /// The authentication.
    Auth(AuthEditor),
    /// The script that runs before the request, with a hint.
    PreRequestScript { hint: Label, text: String },
    /// The script that tests the response, with a hint.
    TestScript { hint: Label, text: String },
    /// The tables of variables.
    Variables(Vec<VariableCard>),
}

/// Model of [`EditorContent`].
#[verifier::ext_equal]
pub enum EditorContentModel {
    Table(KvSection),
    Body(BodyEditorModel),
    Auth(AuthEditorModel),
    PreRequestScript { hint: LabelModel, text: Seq<char> },
    TestScript { hint: LabelModel, text: Seq<char> },
    Variables(Seq<(LabelModel, Option<LabelModel>, KvSection)>),
}

impl DeepView for EditorContent {
    type V = EditorContentModel;

    open spec fn deep_view(&self) -> EditorContentModel {
        match self {
            EditorContent::Table(section) => EditorContentModel::Table(*section),
            EditorContent::Body(editor) => EditorContentModel::Body(editor.deep_view()),
            EditorContent::Auth(editor) => EditorContentModel::Auth(editor.deep_view()),
            EditorContent::PreRequestScript { hint, text } => EditorContentModel::PreRequestScript {
                hint: hint.deep_view(),
                text: text@,
            },
            EditorContent::TestScript { hint, text } => EditorContentModel::TestScript {
                hint: hint.deep_view(),
                text: text@,
            },
            EditorContent::Variables(cards) => EditorContentModel::Variables(cards.deep_view()),
        }
    }
}

/// A tab of the editor.
#[derive(Clone, Copy, Debug)]
pub struct EditorTabView {
    pub element_id: &'static str,
    pub title: Label,
}

/// Model of [`EditorTabView`].
#[verifier::ext_equal]
pub struct EditorTabViewModel {
    pub element_id: Seq<char>,
    pub title: LabelModel,
}

impl DeepView for EditorTabView {
    type V = EditorTabViewModel;

    open spec fn deep_view(&self) -> EditorTabViewModel {
        EditorTabViewModel { element_id: self.element_id@, title: self.title.deep_view() }
    }
}

/// The editor of a request: its tabs and the place of the active one, the description of the
/// request, and what the active tab shows.
#[derive(Debug)]
pub struct RequestEditor {
    pub tabs: Vec<EditorTabView>,
    pub selected: usize,
    pub description: InputField,
    pub content: EditorContent,
}

/// Model of [`RequestEditor`].
#[verifier::ext_equal]
pub struct RequestEditorModel {
    pub tabs: Seq<EditorTabViewModel>,
    pub selected: int,
    pub description: InputFieldModel,
    pub content: EditorContentModel,
}

impl DeepView for RequestEditor {
    type V = RequestEditorModel;

    open spec fn deep_view(&self) -> RequestEditorModel {
        RequestEditorModel {
            tabs: self.tabs.deep_view(),
            selected: self.selected as int,
            description: self.description.deep_view(),
            content: self.content.deep_view(),
        }
    }
}

/// What the editor shows: the settings of the open folder, or a request.
#[derive(Debug)]
pub enum EditorPane {
    Folder(FolderEditor),
    Request(RequestEditor),
}

/// Model of [`EditorPane`].
#[verifier::ext_equal]
pub enum EditorPaneModel {
    Folder(FolderEditorModel),
    Request(RequestEditorModel),
}

impl DeepView for EditorPane {
    type V = EditorPaneModel;

    open spec fn deep_view(&self) -> EditorPaneModel {
        match self {
            EditorPane::Folder(editor) => EditorPaneModel::Folder(editor.deep_view()),
            EditorPane::Request(editor) => EditorPaneModel::Request(editor.deep_view()),
        }
    }
}

/// The tabs of the editor, in their order.
pub open spec fn editor_tab_views() -> Seq<EditorTabViewModel> {
    Seq::new(
        all_editor_tabs().len(),
        |i: int|
            EditorTabViewModel {
                element_id: all_editor_tabs()[i].id_text(),
                title: all_editor_tabs()[i].title_label(),
            },
    )
}

impl ApiTestViewModel {
    /// What the active tab shows.
    pub open spec fn editor_content(self) -> EditorContentModel {
        match self.active_editor_tab {
            RequestEditorTab::Params => EditorContentModel::Table(KvSection::Params),
            RequestEditorTab::Path => EditorContentModel::Table(KvSection::Path),
            RequestEditorTab::Headers => EditorContentModel::Table(KvSection::Headers),
            RequestEditorTab::Body => EditorContentModel::Body(self.body_editor()),
            RequestEditorTab::Auth => EditorContentModel::Auth(self.auth_editor()),
            RequestEditorTab::Cookies => EditorContentModel::Table(KvSection::Cookies),
            RequestEditorTab::PreRequest => EditorContentModel::PreRequestScript {
                hint: LabelModel::Message("ApiTest.pre_request_hint"@),
                text: self.inputs.pre_script,
            },
            RequestEditorTab::Tests => EditorContentModel::TestScript {
                hint: LabelModel::Message("ApiTest.tests_hint"@),
                text: self.inputs.tests,
            },
            RequestEditorTab::Variables => EditorContentModel::Variables(variable_cards()),
        }
    }

    /// The editor: the settings of the open folder, or the tabs and the description of the
    /// request and what the active tab is for.
    pub open spec fn editor_pane(self) -> EditorPaneModel {
        if self.active_folder_id is Some {
            EditorPaneModel::Folder(self.folder_editor())
        } else {
            EditorPaneModel::Request(
                RequestEditorModel {
                    tabs: editor_tab_views(),
                    selected: self.active_editor_tab.place(),
                    description: titled_input(
                        "ApiTest.request_description"@,
                        self.inputs.request_description,
                    ),
                    content: self.editor_content(),
                },
            )
        }
    }
}

impl ApiTestView {
    /// The tabs of the editor, and the place of the active one.
    pub fn render_editor_tabs(&self) -> (r: (Vec<EditorTabView>, usize))
        ensures
            r.0.deep_view() == editor_tab_views(),
            r.1 == self.deep_view().active_editor_tab.place(),
    {
        let all = request_editor_tabs();
        let mut tabs: Vec<EditorTabView> = Vec::new();
        let mut i: usize = 0;
        while i < all.len()
            invariant
                all@ == all_editor_tabs(),
                i <= all.len(),
                tabs.len() == i,
                forall|k: int|
                    0 <= k < i ==> (#[trigger] tabs@[k]).deep_view() == editor_tab_views()[k],
            decreases all.len() - i,
        {
            tabs.push(EditorTabView { element_id: all[i].element_id(), title: all[i].title() });
            i = i + 1;
        }
        assert(tabs.deep_view() =~= editor_tab_views());
        (tabs, self.active_editor_tab.index())
    }

    fn show_editor_content(&self) -> (r: EditorContent)
        ensures
            r.deep_view() == self.deep_view().editor_content(),
    {
        match self.active_editor_tab {
            RequestEditorTab::Params => EditorContent::Table(KvSection::Params),
            RequestEditorTab::Path => EditorContent::Table(KvSection::Path),
            RequestEditorTab::Headers => EditorContent::Table(KvSection::Headers),
            RequestEditorTab::Body => EditorContent::Body(self.render_body_editor()),
            RequestEditorTab::Auth => EditorContent::Auth(self.render_auth_editor()),
            RequestEditorTab::Cookies => EditorContent::Table(KvSection::Cookies),
            RequestEditorTab::PreRequest => EditorContent::PreRequestScript {
                hint: Label::Message("ApiTest.pre_request_hint"),
                text: self.inputs.pre_script.clone(),
            },
            RequestEditorTab::Tests => EditorContent::TestScript {
                hint: Label::Message("ApiTest.tests_hint"),
                text: self.inputs.tests.clone(),
            },
            RequestEditorTab::Variables => EditorContent::Variables(render_variables_editor()),
        }
    }

    /// What the editor shows.
    pub fn render_editor_pane(&self) -> (r: EditorPane)
        ensures
            r.deep_view() == self.deep_view().editor_pane(),
    {
        if self.active_folder_id.is_some() {
            return EditorPane::Folder(self.render_folder_editor());
        }
        let (tabs, selected) = self.render_editor_tabs();
        EditorPane::Request(
            RequestEditor {
                tabs,
                selected,
                description: InputField::titled(
                    "ApiTest.request_description",
                    &self.inputs.request_description,
                ),
                content: self.show_editor_content(),
            },
        )
    }
}

/// The buttons that make a field hold text or name a file, and what clicks on them do.
#[derive(Debug)]
pub struct TypeButtons {
    pub text_id: String,
    pub text_click: KvAction,
    pub file_id: String,
    pub file_click: KvAction,
    pub is_text: bool,
}

/// Model of [`TypeButtons`].
#[verifier::ext_equal]
pub struct TypeButtonsModel {
    pub text_id: Seq<char>,
    pub text_click: KvAction,
    pub file_id: Seq<char>,
    pub file_click: KvAction,
    pub is_text: bool,
}

impl DeepView for TypeButtons {
    type V = TypeButtonsModel;

    open spec fn deep_view(&self) -> TypeButtonsModel {
        TypeButtonsModel {
            text_id: self.text_id@,
            text_click: self.text_click,
            file_id: self.file_id@,
            file_click: self.file_click,
            is_text: self.is_text,
        }
    }
}

/// The cell for the value of a row.
#[derive(Debug)]
pub enum ValueCell {
    /// An input with the value.
    Input { text: String },
    /// A button to choose a file.
    FilePicker { element_id: String, label: Caption, tooltip: Caption, click: KvAction },
}

/// Model of [`ValueCell`].
#[verifier::ext_equal]
pub enum ValueCellModel {
    Input { text: Seq<char> },
    FilePicker {
        element_id: Seq<char>,
        label: CaptionModel,
        tooltip: CaptionModel,
        click: KvAction,
    },
}

impl DeepView for ValueCell {
    type V = ValueCellModel;

    open spec fn deep_view(&self) -> ValueCellModel {
        match self {
            ValueCell::Input { text } => ValueCellModel::Input { text: text@ },
            ValueCell::FilePicker {
                element_id,
                label,
                tooltip,
                click,
            } => ValueCellModel::FilePicker {
                element_id: element_id@,
                label: label.deep_view(),
                tooltip: tooltip.deep_view(),
                click: *click,
            },
        }
    }
}

/// A row of a table: its box, the buttons for its type, the inputs for its key and value,
/// and the button that removes it.
#[derive(Debug)]
pub struct KvTableRow {
    pub row_id: String,
    pub enabled_id: String,
    pub enabled: bool,
    pub toggle: KvAction,
    pub type_buttons: Option<TypeButtons>,
    pub key: String,
    pub key_placeholder: KeyPlaceholder,
    pub value: ValueCell,
    pub delete_id: String,
    pub delete: KvAction,
}

/// Model of [`KvTableRow`].
#[verifier::ext_equal]
pub struct KvTableRowModel {
    pub row_id: Seq<char>,
    pub enabled_id: Seq<char>,
    pub enabled: bool,
    pub toggle: KvAction,
    pub type_buttons: Option<TypeButtonsModel>,
    pub key: Seq<char>,
    pub key_placeholder: KeyPlaceholder,
    pub value: ValueCellModel,
    pub delete_id: Seq<char>,
    pub delete: KvAction,
}

impl DeepView for KvTableRow {
    type V = KvTableRowModel;

    open spec fn deep_view(&self) -> KvTableRowModel {
        KvTableRowModel {
            row_id: self.row_id@,
            enabled_id: self.enabled_id@,
            enabled: self.enabled,
            toggle: self.toggle,
            type_buttons: self.type_buttons.deep_view(),
            key: self.key@,
            key_placeholder: self.key_placeholder,
            value: self.value.deep_view(),
            delete_id: self.delete_id@,
            delete: self.delete,
        }
    }
}

/// A table: whether its rows are fields of a form, the titles of its columns, its rows, and
/// the element ids of what is around them. The button in its head and its footer add a row.
/// The footer is that of a table with rows, or that of an empty one.
#[derive(Debug)]
pub struct KvTable {
    pub is_form_data: bool,
    pub columns: Vec<Label>,
    pub rows: Vec<KvTableRow>,
    pub add: KvAction,
    pub add_label: Label,
    pub add_id: String,
    pub scroll_id: String,
    pub scrollbar_id: String,
    pub footer_id: String,
}

/// Model of [`KvTable`].
#[verifier::ext_equal]
pub struct KvTableModel {
    pub is_form_data: bool,
    pub columns: Seq<LabelModel>,
    pub rows: Seq<KvTableRowModel>,
    pub add: KvAction,
    pub add_label: LabelModel,
    pub add_id: Seq<char>,
    pub scroll_id: Seq<char>,
    pub scrollbar_id: Seq<char>,
    pub footer_id: Seq<char>,
}

impl DeepView for KvTable {
    type V = KvTableModel;

    open spec fn deep_view(&self) -> KvTableModel {
        KvTableModel {
            is_form_data: self.is_form_data,
            columns: self.columns.deep_view(),
            rows: self.rows.deep_view(),
            add: self.add,
            add_label: self.add_label.deep_view(),
            add_id: self.add_id@,
            scroll_id: self.scroll_id@,
            scrollbar_id: self.scrollbar_id@,
            footer_id: self.footer_id@,
        }
    }
}

/// The element id of a part of a row.
pub open spec fn row_part_id(part: Seq<char>, section: KvSection, index: int) -> Seq<char> {
    part + section.id_text() + "-"@ + decimal_text(index as nat)
}

/// No two rows of a table have a part with the same element id.
pub proof fn law_row_ids_distinct(part: Seq<char>, section: KvSection, i: int, j: int)
    requires
        0 <= i,
        0 <= j,
        row_part_id(part, section, i) == row_part_id(part, section, j),
    ensures
        i == j,
{
    let before = part + section.id_text() + "-"@;
    let n = before.len() as int;
    assert(row_part_id(part, section, i).skip(n) =~= decimal_text(i as nat));
    assert(row_part_id(part, section, j).skip(n) =~= decimal_text(j as nat));
    lemma_decimal_injective(i as nat, j as nat);
}

fn part_id(part: &str, section: KvSection, index: usize) -> (r: String)
    ensures
        r@ == row_part_id(part@, section, index as int),
{
    let mut r = join3(part, section.element_id(), "-");
    r.append(decimal(index as u128).as_str());
    r
}

/// The button to choose the file of a row. It shows the last part of the path, where
/// that is known, and the whole path as its tooltip.
pub open spec fn file_picker(
    row: KvRowModel,
    name: Option<Seq<char>>,
    section: KvSection,
    index: int,
) -> ValueCellModel {
    ValueCellModel::FilePicker {
        element_id: row_part_id("api-form-file-picker-"@, section, index),
        label: match name {
            Some(name) => CaptionModel::Text(name),
            None => CaptionModel::Message("ApiTest.choose_file"@),
        },
        tooltip: match row.entry.file_path {
            Some(path) => if path.len() > 0 {
                CaptionModel::Text(path)
            } else {
                CaptionModel::Message("ApiTest.no_file_selected"@)
            },
            None => CaptionModel::Message("ApiTest.no_file_selected"@),
        },
        click: KvAction::ChooseFile { section, index: index as usize },
    }
}

/// A row of a table. The field of a form can hold text or name a file. All that can be
/// clicked acts on this row.
pub open spec fn table_row(
    row: KvRowModel,
    name: Option<Seq<char>>,
    is_form_data: bool,
    section: KvSection,
    index: int,
) -> KvTableRowModel {
    KvTableRowModel {
        row_id: row_part_id("api-kv-row-"@, section, index),
        enabled_id: row_part_id("api-kv-enabled-"@, section, index),
        enabled: row.entry.enabled,
        toggle: KvAction::SetEnabled { section, index: index as usize },
        type_buttons: if is_form_data {
            Some(
                TypeButtonsModel {
                    text_id: row_part_id("api-form-field-text-"@, section, index),
                    text_click: KvAction::SetFieldType {
                        section,
                        index: index as usize,
                        field_type: FieldType::Text,
                    },
                    file_id: row_part_id("api-form-field-file-"@, section, index),
                    file_click: KvAction::SetFieldType {
                        section,
                        index: index as usize,
                        field_type: FieldType::File,
                    },
                    is_text: row.entry.field_type == FieldType::Text,
                },
            )
        } else {
            None
        },
        key: row.entry.key,
        key_placeholder: row.placeholder,
        value: if is_form_data && row.entry.field_type == FieldType::File {
            file_picker(row, name, section, index)
        } else {
            ValueCellModel::Input { text: row.entry.value }
        },
        delete_id: row_part_id("api-kv-delete-"@, section, index),
        delete: KvAction::Remove { section, index: index as usize },
    }
}

/// The titles of the columns of a table: fields of a form have one for their type.
pub open spec fn table_columns(is_form_data: bool) -> Seq<LabelModel> {
    if is_form_data {
        seq![
            LabelModel::Message("ApiTest.text"@),
            LabelModel::Message("ApiTest.key"@),
            LabelModel::Message("ApiTest.value"@),
        ]
    } else {
        seq![LabelModel::Message("ApiTest.key"@), LabelModel::Message("ApiTest.value"@)]
    }
}

fn show_columns(is_form_data: bool) -> (r: Vec<Label>)
    ensures
        r.deep_view() == table_columns(is_form_data),
{
    let r = if is_form_data {
        vec![
            Label::Message("ApiTest.text"),
            Label::Message("ApiTest.key"),
            Label::Message("ApiTest.value"),
        ]
    } else {
        vec![Label::Message("ApiTest.key"), Label::Message("ApiTest.value")]
    };
    assert(r.deep_view() =~= table_columns(is_form_data));
    r
}

impl ApiTestViewModel {
    /// Whether the rows of a table are fields of a form.
    pub open spec fn is_form_data(self, section: KvSection) -> bool {
        section == KvSection::Body && self.selections.current_body_type() == BodyType::FormData
    }

    /// A table, with the names of the files of its rows.
    pub open spec fn table(self, section: KvSection, names: Seq<Option<Seq<char>>>) -> KvTableModel {
        let rows = self.rows.get(section);
        KvTableModel {
            is_form_data: self.is_form_data(section),
            columns: table_columns(self.is_form_data(section)),
            rows: Seq::new(
                rows.len(),
                |i: int| table_row(rows[i], names[i], self.is_form_data(section), section, i),
            ),
            add: KvAction::Add(section),
            add_label: LabelModel::Message("ApiTest.add_row"@),
            add_id: "api-kv-add-"@ + section.id_text(),
            scroll_id: "api-kv-scroll-view-"@ + section.id_text(),
            scrollbar_id: "api-kv-scrollbar-"@ + section.id_text(),
            footer_id: if rows.len() > 0 {
                "api-kv-add-footer-"@ + section.id_text()
            } else {
                "api-kv-empty-"@ + section.id_text()
            },
        }
    }
}

/// What stands behind the last slash of a text: all of it where there is none.
pub open spec fn behind_last_slash(path: Seq<char>) -> Seq<char>
    decreases path.len(),
{
    if path.len() == 0 || path.last() == '/' {
        Seq::empty()
    } else {
        behind_last_slash(path.drop_last()).push(path.last())
    }
}

/// The last part of a path whose parts are separated by slashes. Slashes at the end and
/// parts that are `.` do not count; there is none where the path ends in `..`, or has no
/// part.
pub open spec fn last_slash_part(path: Seq<char>) -> Option<Seq<char>>
    decreases path.len(),
{
    let part = behind_last_slash(path);
    if path.len() == 0 {
        None
    } else if part.len() == 0 || part == seq!['.'] {
        last_slash_part(path.drop_last())
    } else if part == seq!['.', '.'] {
        None
    } else {
        Some(part)
    }
}

/// Whether all platforms take a path apart at its slashes alone: it has no backslash and no
/// colon, and does not begin with two slashes.
pub open spec fn has_slashes_only(path: Seq<char>) -> bool {
    &&& !path.contains('\\') && !path.contains(':')
    &&& !(path.len() >= 2 && path[0] == '/' && path[1] == '/')
}

/// Whether a name is what the last part of a path may be: it is not empty and occurs in the
/// path. Where all platforms agree on the parts of the path, it is the last of them.
pub open spec fn names_last_part(path: Seq<char>, name: Option<Seq<char>>) -> bool {
    &&& name is Some ==> name->0.len() > 0 && occurs_in(name->0, path)
    &&& has_slashes_only(path) ==> name == last_slash_part(path)
}

/// `std::path::Path::file_name`, on a text and as a text: the last part of the path, or
/// nothing where it ends in a root or in `..`. Which characters separate the parts rests on
/// the platform, but for paths with slashes only, whose last part is stated. Of other paths
/// only what holds on every platform is stated.
#[verifier::external_body]
fn last_path_part(path: &str) -> (r: Option<String>)
    ensures
        names_last_part(path@, r.deep_view()),
{
    match std::path::Path::new(path).file_name() {
        Some(name) => name.to_str().map(str::to_owned),
        None => None,
    }
}

fn file_cell(row: &KvRow, name: &Option<String>, section: KvSection, index: usize) -> (r: ValueCell)
    ensures
        r.deep_view() == file_picker(row.deep_view(), name.deep_view(), section, index as int),
{
    let label = match name {
        Some(name) => Caption::Text(name.clone()),
        None => Caption::Message("ApiTest.choose_file"),
    };
    let tooltip = match &row.entry.file_path {
        Some(path) => if path.as_str().is_empty() {
            Caption::Message("ApiTest.no_file_selected")
        } else {
            Caption::Text(path.clone())
        },
        None => Caption::Message("ApiTest.no_file_selected"),
    };
    ValueCell::FilePicker {
        element_id: part_id("api-form-file-picker-", section, index),
        label,
        tooltip,
        click: KvAction::ChooseFile { section, index },
    }
}

fn show_row(
    row: &KvRow,
    name: &Option<String>,
    is_form_data: bool,
    section: KvSection,
    index: usize,
) -> (r: KvTableRow)
    ensures
        r.deep_view() == table_row(
            row.deep_view(),
            name.deep_view(),
            is_form_data,
            section,
            index as int,
        ),
{
    let type_buttons = if is_form_data {
        Some(
            TypeButtons {
                text_id: part_id("api-form-field-text-", section, index),
                text_click: KvAction::SetFieldType { section, index, field_type: FieldType::Text },
                file_id: part_id("api-form-field-file-", section, index),
                file_click: KvAction::SetFieldType { section, index, field_type: FieldType::File },
                is_text: row.entry.field_type == FieldType::Text,
            },
        )
    } else {
        None
    };
    let value = if is_form_data && row.entry.field_type == FieldType::File {
        file_cell(row, name, section, index)
    } else {
        ValueCell::Input { text: row.entry.value.clone() }
    };
    KvTableRow {
        row_id: part_id("api-kv-row-", section, index),
        enabled_id: part_id("api-kv-enabled-", section, index),
        enabled: row.entry.enabled,
        toggle: KvAction::SetEnabled { section, index },
        type_buttons,
        key: row.entry.key.clone(),
        key_placeholder: row.placeholder,
        value,
        delete_id: part_id("api-kv-delete-", section, index),
        delete: KvAction::Remove { section, index },
    }
}

impl ApiTestView {
    /// A table, with the names of the files of its rows.
    pub fn kv_table(&self, section: KvSection, names: &Vec<Option<String>>) -> (r: KvTable)
        requires
            names.len() == self.deep_view().rows.get(section).len(),
        ensures
            r.deep_view() == self.deep_view().table(section, names.deep_view()),
    {
        let is_form_data = section == KvSection::Body && self.selections.current_body_type()
            == BodyType::FormData;
        let rows = self.rows.rows_for_section(section);
        let ghost model = self.deep_view().table(section, names.deep_view());
        let mut shown: Vec<KvTableRow> = Vec::new();
        let mut i: usize = 0;
        while i < rows.len()
            invariant
                rows.deep_view() == self.deep_view().rows.get(section),
                is_form_data == self.deep_view().is_form_data(section),
                model == self.deep_view().table(section, names.deep_view()),
                names.len() == rows.len(),
                i <= rows.len(),
                shown.len() == i,
                forall|k: int| 0 <= k < i ==> (#[trigger] shown@[k]).deep_view() == model.rows[k],
            decreases rows.len() - i,
        {
            assert(rows.deep_view()[i as int] == rows@[i as int].deep_view());
            assert(names.deep_view()[i as int] == names@[i as int].deep_view());
            shown.push(show_row(&rows[i], &names[i], is_form_data, section, i));
            i = i + 1;
        }
        assert(shown.deep_view() =~= model.rows);
        let id = section.element_id();
        KvTable {
            is_form_data,
            columns: show_columns(is_form_data),
            rows: shown,
            add: KvAction::Add(section),
            add_label: Label::Message("ApiTest.add_row"),
            add_id: join("api-kv-add-", id),
            scroll_id: join("api-kv-scroll-view-", id),
            scrollbar_id: join("api-kv-scrollbar-", id),
            footer_id: if rows.len() > 0 {
                join("api-kv-add-footer-", id)
            } else {
                join("api-kv-empty-", id)
            },
        }
    }

    /// A table. A row with a file shows the last part of its path.
    pub fn render_kv_editor(&self, section: KvSection) -> (r: KvTable)
        ensures
            exists|names: Seq<Option<Seq<char>>>|
                #![trigger self.deep_view().table(section, names)]
                ({
                    let rows = self.deep_view().rows.get(section);
                    &&& names.len() == rows.len()
                    &&& forall|i: int|
                        0 <= i < rows.len() ==> match (#[trigger] rows[i]).entry.file_path {
                            Some(path) => names_last_part(path, names[i]),
                            None => names[i] is None,
                        }
                    &&& r.deep_view() == self.deep_view().table(section, names)
                }),
    {
        let rows = self.rows.rows_for_section(section);
        let ghost all = self.deep_view().rows.get(section);
        let mut names: Vec<Option<String>> = Vec::new();
        let mut i: usize = 0;
        while i < rows.len()
            invariant
                all == rows.deep_view(),
                i <= rows.len(),
                names.len() == i,
                forall|k: int|
                    0 <= k < i ==> match (#[trigger] all[k]).entry.file_path {
                        Some(path) => names_last_part(path, names.deep_view()[k]),
                        None => names.deep_view()[k] is None,
                    },
            decreases rows.len() - i,
        {
            assert(all[i as int] == rows@[i as int].deep_view());
            let ghost held = names.deep_view();
            let name = match &rows[i].entry.file_path {
                Some(path) => last_path_part(path.as_str()),
                None => None,
            };
            names.push(name);
            assert(names.deep_view() =~= held.push(name.deep_view()));
            i = i + 1;
        }
        assert(names.deep_view().len() == all.len());
        self.kv_table(section, &names)
    }
}

/// What a row of a table offers acts on that row: its box changes whether the row is
/// enabled, and its button removes the row. No other row changes.
pub proof fn law_rows_act_on_themselves(
    view: ApiTestViewModel,
    section: KvSection,
    names: Seq<Option<Seq<char>>>,
    ticked: bool,
    paths: Seq<Seq<char>>,
    i: int,
)
    requires
        0 <= i < view.rows.get(section).len(),
        view.rows.get(section).len() <= usize::MAX,
    ensures
        ({
            let rows = view.rows.get(section);
            let shown = view.table(section, names).rows[i];
            &&& view.changed_by(shown.delete, ticked, paths) == Some(
                view.with_rows(section, rows.remove(i)),
            )
            &&& view.changed_by(shown.toggle, ticked, paths) == Some(
                view.with_rows(
                    section,
                    rows.update(i, crate::editing::row_enabled(rows[i], ticked)),
                ),
            )
        }),
{
}

} // verus!
