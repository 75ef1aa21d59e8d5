//! The state of the request workbench.

use vstd::prelude::*;
use crate::http::{
    AuthTarget, AuthType, BodyType, HttpResponse, HttpResponseModel, PreparedRequest,
    PreparedRequestModel, Protocol, RawLanguage, RequestMethod,
};
use crate::request_store::{ApiStore, ApiStoreModel};
use crate::scripting::{ScriptResult, ScriptResultModel};
use crate::sections::{KvSection, SectionRows, SectionRowsModel};
use crate::tabs::{RequestEditorTab, ResponseTab, SidebarMode};

verus! {

/// What the surroundings have to do after an operation, in the order given.
#[derive(Clone, Copy, PartialEq, Eq, Structural, Debug)]
pub enum Effect {
    /// Keep the store.
    SaveStore,
    /// Build the request tree anew.
    RebuildTree,
    /// End the stream and the open connections.
    CancelConnections,
    /// Write inputs, selections and rows to the widgets and watch the rows.
    ShowEditor,
    /// Watch the row that was added to a table.
    WatchNewRow(KvSection),
    /// Write the environments to their selection.
    ShowEnvironments,
    /// Send the message of a connection.
    SendMessage(Protocol),
    /// Draw the view anew.
    Redraw,
}

/// A message for the user.
#[derive(Debug)]
pub enum Notice {
    EnvironmentNameRequired,
    CannotDeleteLastEnvironment,
    RestoredFromHistory,
    ImportSuccess(usize),
    ImportFailed(String),
    ExportSuccess(String),
    ExportFailed(String),
}

/// Model of [`Notice`].
#[verifier::ext_equal]
pub enum NoticeModel {
    EnvironmentNameRequired,
    CannotDeleteLastEnvironment,
    RestoredFromHistory,
    ImportSuccess(nat),
    ImportFailed(Seq<char>),
    ExportSuccess(Seq<char>),
    ExportFailed(Seq<char>),
}

impl DeepView for Notice {
    type V = NoticeModel;

    open spec fn deep_view(&self) -> NoticeModel {
        match self {
            Notice::EnvironmentNameRequired => NoticeModel::EnvironmentNameRequired,
            Notice::CannotDeleteLastEnvironment => NoticeModel::CannotDeleteLastEnvironment,
            Notice::RestoredFromHistory => NoticeModel::RestoredFromHistory,
            Notice::ImportSuccess(count) => NoticeModel::ImportSuccess(*count as nat),
            Notice::ImportFailed(error) => NoticeModel::ImportFailed(error@),
            Notice::ExportSuccess(path) => NoticeModel::ExportSuccess(path@),
            Notice::ExportFailed(error) => NoticeModel::ExportFailed(error@),
        }
    }
}

/// The texts of the inputs.
#[derive(Debug)]
pub struct EditorInputs {
    pub name: String,
    pub search: String,
    pub url: String,
    pub request_description: String,
    pub websocket_message: String,
    pub socket_io_message: String,
    pub tcp_message: String,
    pub body: String,
    pub pre_script: String,
    pub tests: String,
    pub auth_token: String,
    pub auth_username: String,
    pub auth_password: String,
    pub auth_key: String,
    pub auth_value: String,
    pub folder_base_url: String,
    pub folder_description: String,
    pub environment_base_url: String,
}

/// Model of [`EditorInputs`].
#[verifier::ext_equal]
pub struct EditorInputsModel {
    pub name: Seq<char>,
    pub search: Seq<char>,
    pub url: Seq<char>,
    pub request_description: Seq<char>,
    pub websocket_message: Seq<char>,
    pub socket_io_message: Seq<char>,
    pub tcp_message: Seq<char>,
    pub body: Seq<char>,
    pub pre_script: Seq<char>,
    pub tests: Seq<char>,
    pub auth_token: Seq<char>,
    pub auth_username: Seq<char>,
    pub auth_password: Seq<char>,
    pub auth_key: Seq<char>,
    pub auth_value: Seq<char>,
    pub folder_base_url: Seq<char>,
    pub folder_description: Seq<char>,
    pub environment_base_url: Seq<char>,
}

impl DeepView for EditorInputs {
    type V = EditorInputsModel;

    open spec fn deep_view(&self) -> EditorInputsModel {
        EditorInputsModel {
            name: self.name@,
            search: self.search@,
            url: self.url@,
            request_description: self.request_description@,
            websocket_message: self.websocket_message@,
            socket_io_message: self.socket_io_message@,
            tcp_message: self.tcp_message@,
            body: self.body@,
            pre_script: self.pre_script@,
            tests: self.tests@,
            auth_token: self.auth_token@,
            auth_username: self.auth_username@,
            auth_password: self.auth_password@,
            auth_key: self.auth_key@,
            auth_value: self.auth_value@,
            folder_base_url: self.folder_base_url@,
            folder_description: self.folder_description@,
            environment_base_url: self.environment_base_url@,
        }
    }
}

/// What is selected in the selections.
#[derive(Debug)]
pub struct Selections {
    pub protocol: Option<Protocol>,
    pub method: Option<RequestMethod>,
    pub body_type: Option<BodyType>,
    pub raw_language: Option<RawLanguage>,
    pub auth_type: Option<AuthType>,
    pub auth_target: Option<AuthTarget>,
}

/// Model of [`Selections`].
#[verifier::ext_equal]
pub struct SelectionsModel {
    pub protocol: Option<Protocol>,
    pub method: Option<RequestMethod>,
    pub body_type: Option<BodyType>,
    pub raw_language: Option<RawLanguage>,
    pub auth_type: Option<AuthType>,
    pub auth_target: Option<AuthTarget>,
}

impl DeepView for Selections {
    type V = SelectionsModel;

    open spec fn deep_view(&self) -> SelectionsModel {
        SelectionsModel {
            protocol: self.protocol,
            method: self.method,
            body_type: self.body_type,
            raw_language: self.raw_language,
            auth_type: self.auth_type,
            auth_target: self.auth_target,
        }
    }
}

/// The request workbench: the folders, requests and environments, the request or folder
/// that is open in the editor, and what is known of its last response.
#[derive(Debug)]
pub struct ApiTestView {
    pub inputs: EditorInputs,
    pub selections: Selections,
    pub rows: SectionRows,
    pub store: ApiStore,
    pub active_request_id: Option<String>,
    pub active_folder_id: Option<String>,
    pub sidebar_mode: SidebarMode,
    pub sidebar_collapsed: bool,
    pub active_editor_tab: RequestEditorTab,
    pub active_response_tab: ResponseTab,
    pub sending: bool,
    pub response: Option<HttpResponse>,
    pub prepared_request: Option<PreparedRequest>,
    pub pre_result: Option<ScriptResult>,
    pub test_result: Option<ScriptResult>,
    pub response_pretty: bool,
    pub request_generation: u64,
    pub notice: Option<Notice>,
    pub suppress_commit: bool,
}

/// Model of [`ApiTestView`].
#[verifier::ext_equal]
pub struct ApiTestViewModel {
    pub inputs: EditorInputsModel,
    pub selections: SelectionsModel,
    pub rows: SectionRowsModel,
    pub store: ApiStoreModel,
    pub active_request_id: Option<Seq<char>>,
    pub active_folder_id: Option<Seq<char>>,
    pub sidebar_mode: SidebarMode,
    pub sidebar_collapsed: bool,
    pub active_editor_tab: RequestEditorTab,
    pub active_response_tab: ResponseTab,
    pub sending: bool,
    pub response: Option<HttpResponseModel>,
    pub prepared_request: Option<PreparedRequestModel>,
    pub pre_result: Option<ScriptResultModel>,
    pub test_result: Option<ScriptResultModel>,
    pub response_pretty: bool,
    pub request_generation: u64,
    pub notice: Option<NoticeModel>,
    pub suppress_commit: bool,
}

impl DeepView for ApiTestView {
    type V = ApiTestViewModel;

    open spec fn deep_view(&self) -> ApiTestViewModel {
        ApiTestViewModel {
            inputs: self.inputs.deep_view(),
            selections: self.selections.deep_view(),
            rows: self.rows.deep_view(),
            store: self.store.deep_view(),
            active_request_id: self.active_request_id.deep_view(),
            active_folder_id: self.active_folder_id.deep_view(),
            sidebar_mode: self.sidebar_mode,
            sidebar_collapsed: self.sidebar_collapsed,
            active_editor_tab: self.active_editor_tab,
            active_response_tab: self.active_response_tab,
            sending: self.sending,
            response: self.response.deep_view(),
            prepared_request: self.prepared_request.deep_view(),
            pre_result: self.pre_result.deep_view(),
            test_result: self.test_result.deep_view(),
            response_pretty: self.response_pretty,
            request_generation: self.request_generation,
            notice: self.notice.deep_view(),
            suppress_commit: self.suppress_commit,
        }
    }
}

impl SelectionsModel {
    /// The selected protocol, or HTTP.
    pub open spec fn current_protocol(self) -> Protocol {
        match self.protocol {
            Some(p) => p,
            None => Protocol::Http,
        }
    }

    /// The selected method, or GET.
    pub open spec fn current_method(self) -> RequestMethod {
        match self.method {
            Some(m) => m,
            None => RequestMethod::Get,
        }
    }

    /// The selected body type, or none.
    pub open spec fn current_body_type(self) -> BodyType {
        match self.body_type {
            Some(b) => b,
            None => BodyType::NoBody,
        }
    }

    /// The selected raw language, or JSON.
    pub open spec fn current_raw_language(self) -> RawLanguage {
        match self.raw_language {
            Some(l) => l,
            None => RawLanguage::Json,
        }
    }

    /// The selected way to authenticate, or none.
    pub open spec fn current_auth_type(self) -> AuthType {
        match self.auth_type {
            Some(a) => a,
            None => AuthType::NoAuth,
        }
    }

    /// The selected place of an API key, or the headers.
    pub open spec fn current_auth_target(self) -> AuthTarget {
        match self.auth_target {
            Some(t) => t,
            None => AuthTarget::Header,
        }
    }
}

impl Selections {
    /// The selected protocol, or HTTP.
    pub fn current_protocol(&self) -> (r: Protocol)
        ensures
            r == self.deep_view().current_protocol(),
    {
        match self.protocol {
            Some(value) => value,
            None => Protocol::Http,
        }
    }

    /// The selected method, or GET.
    pub fn current_method(&self) -> (r: RequestMethod)
        ensures
            r == self.deep_view().current_method(),
    {
        match self.method {
            Some(value) => value,
            None => RequestMethod::Get,
        }
    }

    /// The selected body type, or none.
    pub fn current_body_type(&self) -> (r: BodyType)
        ensures
            r == self.deep_view().current_body_type(),
    {
        match self.body_type {
            Some(value) => value,
            None => BodyType::NoBody,
        }
    }

    /// The selected raw language, or JSON.
    pub fn current_raw_language(&self) -> (r: RawLanguage)
        ensures
            r == self.deep_view().current_raw_language(),
    {
        match self.raw_language {
            Some(value) => value,
            None => RawLanguage::Json,
        }
    }

    /// The selected way to authenticate, or none.
    pub fn current_auth_type(&self) -> (r: AuthType)
        ensures
            r == self.deep_view().current_auth_type(),
    {
        match self.auth_type {
            Some(value) => value,
            None => AuthType::NoAuth,
        }
    }

    /// The selected place of an API key, or the headers.
    pub fn current_auth_target(&self) -> (r: AuthTarget)
        ensures
            r == self.deep_view().current_auth_target(),
    {
        match self.auth_target {
            Some(value) => value,
            None => AuthTarget::Header,
        }
    }

}

} // verus!
