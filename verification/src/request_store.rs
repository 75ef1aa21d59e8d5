//! What is kept between sessions: folders, requests, environments and history.

use vstd::prelude::*;
use crate::http::{
    AuthConfig, AuthConfigModel, AuthTarget, AuthType, BodyType, HttpResponse, HttpResponseModel, KeyValue,
    KeyValueModel, Protocol, RawLanguage, RequestMethod, clone_rows,
};
use crate::ids::{fresh_id, is_fresh_id};
use crate::lookup::{Named, NamedModel};

verus! {

/// When a response is kept as an example by itself.
#[derive(Clone, Copy, PartialEq, Eq, Structural, Debug)]
pub enum ResponseExampleAutoSaveMode {
    Off,
    Success,
    All,
}

/// A folder of requests.
#[derive(Debug)]
pub struct StoredFolder {
    pub id: String,
    pub name: String,
    pub description: String,
    pub parent_id: Option<String>,
    pub base_url: Option<String>,
    pub params: Vec<KeyValue>,
    pub headers: Vec<KeyValue>,
    pub variables: Vec<KeyValue>,
}

/// Model of [`StoredFolder`].
#[verifier::ext_equal]
pub struct StoredFolderModel {
    pub id: Seq<char>,
    pub name: Seq<char>,
    pub description: Seq<char>,
    pub parent_id: Option<Seq<char>>,
    pub base_url: Option<Seq<char>>,
    pub params: Seq<KeyValueModel>,
    pub headers: Seq<KeyValueModel>,
    pub variables: Seq<KeyValueModel>,
}

impl DeepView for StoredFolder {
    type V = StoredFolderModel;

    open spec fn deep_view(&self) -> StoredFolderModel {
        StoredFolderModel {
            id: self.id@,
            name: self.name@,
            description: self.description@,
            parent_id: self.parent_id.deep_view(),
            base_url: self.base_url.deep_view(),
            params: self.params.deep_view(),
            headers: self.headers.deep_view(),
            variables: self.variables.deep_view(),
        }
    }
}

impl Clone for StoredFolder {
    fn clone(&self) -> (r: StoredFolder)
        ensures
            r.deep_view() == self.deep_view(),
    {
        StoredFolder {
            id: self.id.clone(),
            name: self.name.clone(),
            description: self.description.clone(),
            parent_id: self.parent_id.clone(),
            base_url: self.base_url.clone(),
            params: clone_rows(&self.params),
            headers: clone_rows(&self.headers),
            variables: clone_rows(&self.variables),
        }
    }
}

/// A response that was kept as an example.
#[derive(Debug)]
pub struct ResponseExample {
    pub status: u16,
    pub status_text: String,
    pub body: String,
    pub saved_at: String,
}

/// Model of [`ResponseExample`].
#[verifier::ext_equal]
pub struct ResponseExampleModel {
    pub status: u16,
    pub status_text: Seq<char>,
    pub body: Seq<char>,
    pub saved_at: Seq<char>,
}

impl DeepView for ResponseExample {
    type V = ResponseExampleModel;

    open spec fn deep_view(&self) -> ResponseExampleModel {
        ResponseExampleModel {
            status: self.status,
            status_text: self.status_text@,
            body: self.body@,
            saved_at: self.saved_at@,
        }
    }
}

impl Clone for ResponseExample {
    fn clone(&self) -> (r: ResponseExample)
        ensures
            r.deep_view() == self.deep_view(),
    {
        ResponseExample {
            status: self.status,
            status_text: self.status_text.clone(),
            body: self.body.clone(),
            saved_at: self.saved_at.clone(),
        }
    }
}

/// A request with everything that the editor holds of it.
#[derive(Debug)]
pub struct StoredRequest {
    pub id: String,
    pub name: String,
    pub description: String,
    pub method: RequestMethod,
    pub protocol: Protocol,
    pub url: String,
    pub folder_id: Option<String>,
    pub base_url_override: Option<String>,
    pub headers: String,
    pub params: Vec<KeyValue>,
    pub path_vars: Vec<KeyValue>,
    pub variables: Vec<KeyValue>,
    pub header_rows: Vec<KeyValue>,
    pub cookies: Vec<KeyValue>,
    pub body: String,
    pub body_type: BodyType,
    pub raw_language: RawLanguage,
    pub body_rows: Vec<KeyValue>,
    pub auth: AuthConfig,
    pub pre_script: String,
    pub tests: String,
    pub mock: Option<String>,
    pub last_response: Option<HttpResponse>,
    pub success_example: Option<ResponseExample>,
    pub fail_examples: Vec<ResponseExample>,
}

/// Model of [`StoredRequest`].
#[verifier::ext_equal]
pub struct StoredRequestModel {
    pub id: Seq<char>,
    pub name: Seq<char>,
    pub description: Seq<char>,
    pub method: RequestMethod,
    pub protocol: Protocol,
    pub url: Seq<char>,
    pub folder_id: Option<Seq<char>>,
    pub base_url_override: Option<Seq<char>>,
    pub headers: Seq<char>,
    pub params: Seq<KeyValueModel>,
    pub path_vars: Seq<KeyValueModel>,
    pub variables: Seq<KeyValueModel>,
    pub header_rows: Seq<KeyValueModel>,
    pub cookies: Seq<KeyValueModel>,
    pub body: Seq<char>,
    pub body_type: BodyType,
    pub raw_language: RawLanguage,
    pub body_rows: Seq<KeyValueModel>,
    pub auth: AuthConfigModel,
    pub pre_script: Seq<char>,
    pub tests: Seq<char>,
    pub mock: Option<Seq<char>>,
    pub last_response: Option<HttpResponseModel>,
    pub success_example: Option<ResponseExampleModel>,
    pub fail_examples: Seq<ResponseExampleModel>,
}

impl DeepView for StoredRequest {
    type V = StoredRequestModel;

    open spec fn deep_view(&self) -> StoredRequestModel {
        StoredRequestModel {
            id: self.id@,
            name: self.name@,
            description: self.description@,
            method: self.method,
            protocol: self.protocol,
            url: self.url@,
            folder_id: self.folder_id.deep_view(),
            base_url_override: self.base_url_override.deep_view(),
            headers: self.headers@,
            params: self.params.deep_view(),
            path_vars: self.path_vars.deep_view(),
            variables: self.variables.deep_view(),
            header_rows: self.header_rows.deep_view(),
            cookies: self.cookies.deep_view(),
            body: self.body@,
            body_type: self.body_type,
            raw_language: self.raw_language,
            body_rows: self.body_rows.deep_view(),
            auth: self.auth.deep_view(),
            pre_script: self.pre_script@,
            tests: self.tests@,
            mock: self.mock.deep_view(),
            last_response: self.last_response.deep_view(),
            success_example: self.success_example.deep_view(),
            fail_examples: self.fail_examples.deep_view(),
        }
    }
}

impl Clone for StoredRequest {
    fn clone(&self) -> (r: StoredRequest)
        ensures
            r.deep_view() == self.deep_view(),
    {
        let r = StoredRequest {
            id: self.id.clone(),
            name: self.name.clone(),
            description: self.description.clone(),
            method: self.method,
            protocol: self.protocol,
            url: self.url.clone(),
            folder_id: self.folder_id.clone(),
            base_url_override: self.base_url_override.clone(),
            headers: self.headers.clone(),
            params: clone_rows(&self.params),
            path_vars: clone_rows(&self.path_vars),
            variables: clone_rows(&self.variables),
            header_rows: clone_rows(&self.header_rows),
            cookies: clone_rows(&self.cookies),
            body: self.body.clone(),
            body_type: self.body_type,
            raw_language: self.raw_language,
            body_rows: clone_rows(&self.body_rows),
            auth: self.auth.clone(),
            pre_script: self.pre_script.clone(),
            tests: self.tests.clone(),
            mock: self.mock.clone(),
            last_response: self.last_response.clone(),
            success_example: self.success_example.clone(),
            fail_examples: self.fail_examples.clone(),
        };
        assert(r.fail_examples.deep_view() =~= self.fail_examples.deep_view());
        r
    }
}

/// An environment: what its requests start from, and its variables.
#[derive(Debug)]
pub struct ApiEnvironment {
    pub id: String,
    pub name: String,
    pub base_url: Option<String>,
    pub params: Vec<KeyValue>,
    pub headers: Vec<KeyValue>,
    pub cookies: Vec<KeyValue>,
    pub variables: Vec<KeyValue>,
}

/// Model of [`ApiEnvironment`].
#[verifier::ext_equal]
pub struct ApiEnvironmentModel {
    pub id: Seq<char>,
    pub name: Seq<char>,
    pub base_url: Option<Seq<char>>,
    pub params: Seq<KeyValueModel>,
    pub headers: Seq<KeyValueModel>,
    pub cookies: Seq<KeyValueModel>,
    pub variables: Seq<KeyValueModel>,
}

impl DeepView for ApiEnvironment {
    type V = ApiEnvironmentModel;

    open spec fn deep_view(&self) -> ApiEnvironmentModel {
        ApiEnvironmentModel {
            id: self.id@,
            name: self.name@,
            base_url: self.base_url.deep_view(),
            params: self.params.deep_view(),
            headers: self.headers.deep_view(),
            cookies: self.cookies.deep_view(),
            variables: self.variables.deep_view(),
        }
    }
}

impl Clone for ApiEnvironment {
    fn clone(&self) -> (r: ApiEnvironment)
        ensures
            r.deep_view() == self.deep_view(),
    {
        ApiEnvironment {
            id: self.id.clone(),
            name: self.name.clone(),
            base_url: self.base_url.clone(),
            params: clone_rows(&self.params),
            headers: clone_rows(&self.headers),
            cookies: clone_rows(&self.cookies),
            variables: clone_rows(&self.variables),
        }
    }
}

/// A request that was sent, and how it went.
#[derive(Debug)]
pub struct RequestHistoryEntry {
    pub id: String,
    pub request: StoredRequest,
    pub method: RequestMethod,
    pub request_name: String,
    pub url: String,
    pub status: u16,
    pub error: Option<String>,
    pub sent_at: i64,
    pub time_ms: u64,
    pub size: u64,
}

/// Model of [`RequestHistoryEntry`].
#[verifier::ext_equal]
pub struct RequestHistoryEntryModel {
    pub id: Seq<char>,
    pub request: StoredRequestModel,
    pub method: RequestMethod,
    pub request_name: Seq<char>,
    pub url: Seq<char>,
    pub status: u16,
    pub error: Option<Seq<char>>,
    pub sent_at: i64,
    pub time_ms: u64,
    pub size: u64,
}

impl DeepView for RequestHistoryEntry {
    type V = RequestHistoryEntryModel;

    open spec fn deep_view(&self) -> RequestHistoryEntryModel {
        RequestHistoryEntryModel {
            id: self.id@,
            request: self.request.deep_view(),
            method: self.method,
            request_name: self.request_name@,
            url: self.url@,
            status: self.status,
            error: self.error.deep_view(),
            sent_at: self.sent_at,
            time_ms: self.time_ms,
            size: self.size,
        }
    }
}

impl Clone for RequestHistoryEntry {
    fn clone(&self) -> (r: RequestHistoryEntry)
        ensures
            r.deep_view() == self.deep_view(),
    {
        RequestHistoryEntry {
            id: self.id.clone(),
            request: self.request.clone(),
            method: self.method,
            request_name: self.request_name.clone(),
            url: self.url.clone(),
            status: self.status,
            error: self.error.clone(),
            sent_at: self.sent_at,
            time_ms: self.time_ms,
            size: self.size,
        }
    }
}

/// Everything that is kept between sessions.
#[derive(Debug)]
pub struct ApiStore {
    pub folders: Vec<StoredFolder>,
    pub requests: Vec<StoredRequest>,
    pub globals: Vec<KeyValue>,
    pub global_params: Vec<KeyValue>,
    pub global_headers: Vec<KeyValue>,
    pub global_cookies: Vec<KeyValue>,
    pub environments: Vec<ApiEnvironment>,
    pub active_environment_id: Option<String>,
    pub history: Vec<RequestHistoryEntry>,
    pub response_example_autosave: ResponseExampleAutoSaveMode,
}

/// Model of [`ApiStore`].
#[verifier::ext_equal]
pub struct ApiStoreModel {
    pub folders: Seq<StoredFolderModel>,
    pub requests: Seq<StoredRequestModel>,
    pub globals: Seq<KeyValueModel>,
    pub global_params: Seq<KeyValueModel>,
    pub global_headers: Seq<KeyValueModel>,
    pub global_cookies: Seq<KeyValueModel>,
    pub environments: Seq<ApiEnvironmentModel>,
    pub active_environment_id: Option<Seq<char>>,
    pub history: Seq<RequestHistoryEntryModel>,
    pub response_example_autosave: ResponseExampleAutoSaveMode,
}

impl DeepView for ApiStore {
    type V = ApiStoreModel;

    open spec fn deep_view(&self) -> ApiStoreModel {
        ApiStoreModel {
            folders: self.folders.deep_view(),
            requests: self.requests.deep_view(),
            globals: self.globals.deep_view(),
            global_params: self.global_params.deep_view(),
            global_headers: self.global_headers.deep_view(),
            global_cookies: self.global_cookies.deep_view(),
            environments: self.environments.deep_view(),
            active_environment_id: self.active_environment_id.deep_view(),
            history: self.history.deep_view(),
            response_example_autosave: self.response_example_autosave,
        }
    }
}

impl Clone for ApiStore {
    fn clone(&self) -> (r: ApiStore)
        ensures
            r.deep_view() == self.deep_view(),
    {
        let r = ApiStore {
            folders: self.folders.clone(),
            requests: self.requests.clone(),
            globals: clone_rows(&self.globals),
            global_params: clone_rows(&self.global_params),
            global_headers: clone_rows(&self.global_headers),
            global_cookies: clone_rows(&self.global_cookies),
            environments: self.environments.clone(),
            active_environment_id: self.active_environment_id.clone(),
            history: self.history.clone(),
            response_example_autosave: self.response_example_autosave,
        };
        assert(r.folders.deep_view() =~= self.folders.deep_view());
        assert(r.requests.deep_view() =~= self.requests.deep_view());
        assert(r.environments.deep_view() =~= self.environments.deep_view());
        assert(r.history.deep_view() =~= self.history.deep_view());
        r
    }
}

impl NamedModel for StoredFolderModel {
    open spec fn name_of(self) -> Seq<char> {
        self.id
    }
}

impl Named for StoredFolder {
    fn name_text(&self) -> (r: &str) {
        self.id.as_str()
    }
}

impl NamedModel for StoredRequestModel {
    open spec fn name_of(self) -> Seq<char> {
        self.id
    }
}

impl Named for StoredRequest {
    fn name_text(&self) -> (r: &str) {
        self.id.as_str()
    }
}

impl NamedModel for ApiEnvironmentModel {
    open spec fn name_of(self) -> Seq<char> {
        self.id
    }
}

impl Named for ApiEnvironment {
    fn name_text(&self) -> (r: &str) {
        self.id.as_str()
    }
}

impl NamedModel for RequestHistoryEntryModel {
    open spec fn name_of(self) -> Seq<char> {
        self.id
    }
}

impl Named for RequestHistoryEntry {
    fn name_text(&self) -> (r: &str) {
        self.id.as_str()
    }
}

/// A folder without settings of its own.
pub open spec fn new_folder_model(
    id: Seq<char>,
    name: Seq<char>,
    parent_id: Option<Seq<char>>,
) -> StoredFolderModel {
    StoredFolderModel {
        id,
        name,
        description: Seq::empty(),
        parent_id,
        base_url: None,
        params: Seq::empty(),
        headers: Seq::empty(),
        variables: Seq::empty(),
    }
}

impl StoredFolder {
    /// A folder under the given id, without settings of its own.
    pub fn with_id(id: String, name: String, parent_id: Option<String>) -> (r: StoredFolder)
        ensures
            r.deep_view() == new_folder_model(id@, name@, parent_id.deep_view()),
    {
        let r = StoredFolder {
            id,
            name,
            description: String::new(),
            parent_id,
            base_url: None,
            params: Vec::new(),
            headers: Vec::new(),
            variables: Vec::new(),
        };
        assert(r.deep_view() =~~= new_folder_model(id@, name@, parent_id.deep_view()));
        r
    }

    /// A folder under a fresh id, without settings of its own.
    pub fn new(name: String, parent_id: Option<String>) -> (r: StoredFolder)
        ensures
            is_fresh_id(r.id@),
            r.deep_view() == new_folder_model(r.id@, name@, parent_id.deep_view()),
    {
        StoredFolder::with_id(fresh_id(), name, parent_id)
    }
}

/// A request that only has a name and a method.
pub open spec fn new_request_model(
    id: Seq<char>,
    name: Seq<char>,
    method: RequestMethod,
) -> StoredRequestModel {
    StoredRequestModel {
        id,
        name,
        description: Seq::empty(),
        method,
        protocol: Protocol::Http,
        url: Seq::empty(),
        folder_id: None,
        base_url_override: None,
        headers: Seq::empty(),
        params: Seq::empty(),
        path_vars: Seq::empty(),
        variables: Seq::empty(),
        header_rows: Seq::empty(),
        cookies: Seq::empty(),
        body: Seq::empty(),
        body_type: BodyType::NoBody,
        raw_language: RawLanguage::Json,
        body_rows: Seq::empty(),
        auth: AuthConfigModel {
            auth_type: AuthType::NoAuth,
            token: Seq::empty(),
            username: Seq::empty(),
            password: Seq::empty(),
            key: Seq::empty(),
            value: Seq::empty(),
            add_to: AuthTarget::Header,
        },
        pre_script: Seq::empty(),
        tests: Seq::empty(),
        mock: None,
        last_response: None,
        success_example: None,
        fail_examples: Seq::empty(),
    }
}

impl StoredRequest {
    /// A request under the given id that only has a name and a method.
    pub fn with_id(id: String, name: String, method: RequestMethod) -> (r: StoredRequest)
        ensures
            r.deep_view() == new_request_model(id@, name@, method),
    {
        let r = StoredRequest {
            id,
            name,
            description: String::new(),
            method,
            protocol: Protocol::Http,
            url: String::new(),
            folder_id: None,
            base_url_override: None,
            headers: String::new(),
            params: Vec::new(),
            path_vars: Vec::new(),
            variables: Vec::new(),
            header_rows: Vec::new(),
            cookies: Vec::new(),
            body: String::new(),
            body_type: BodyType::NoBody,
            raw_language: RawLanguage::Json,
            body_rows: Vec::new(),
            auth: AuthConfig {
                auth_type: AuthType::NoAuth,
                token: String::new(),
                username: String::new(),
                password: String::new(),
                key: String::new(),
                value: String::new(),
                add_to: AuthTarget::Header,
            },
            pre_script: String::new(),
            tests: String::new(),
            mock: None,
            last_response: None,
            success_example: None,
            fail_examples: Vec::new(),
        };
        assert(r.deep_view() =~~= new_request_model(id@, name@, method));
        r
    }

    /// A request under a fresh id that only has a name and a method.
    pub fn new(name: String, method: RequestMethod) -> (r: StoredRequest)
        ensures
            is_fresh_id(r.id@),
            r.deep_view() == new_request_model(r.id@, name@, method),
    {
        StoredRequest::with_id(fresh_id(), name, method)
    }
}

/// An environment that only has a name.
pub open spec fn new_environment_model(id: Seq<char>, name: Seq<char>) -> ApiEnvironmentModel {
    ApiEnvironmentModel {
        id,
        name,
        base_url: None,
        params: Seq::empty(),
        headers: Seq::empty(),
        cookies: Seq::empty(),
        variables: Seq::empty(),
    }
}

impl ApiEnvironment {
    /// An environment under the given id that only has a name.
    pub fn with_id(id: String, name: String) -> (r: ApiEnvironment)
        ensures
            r.deep_view() == new_environment_model(id@, name@),
    {
        let r = ApiEnvironment {
            id,
            name,
            base_url: None,
            params: Vec::new(),
            headers: Vec::new(),
            cookies: Vec::new(),
            variables: Vec::new(),
        };
        assert(r.deep_view() =~~= new_environment_model(id@, name@));
        r
    }

    /// An environment under a fresh id that only has a name.
    pub fn new(name: String) -> (r: ApiEnvironment)
        ensures
            is_fresh_id(r.id@),
            r.deep_view() == new_environment_model(r.id@, name@),
    {
        ApiEnvironment::with_id(fresh_id(), name)
    }
}

} // verus!
