//! Values that describe a request and its response.

use vstd::prelude::*;

verus! {

/// How a request is carried.
#[derive(Clone, Copy, PartialEq, Eq, Structural, Debug)]
pub enum Protocol {
    Http,
    Graphql,
    Sse,
    WebSocket,
    Tcp,
    GrpcWeb,
    SocketIo,
}

/// The method of an HTTP-shaped request.
#[derive(Clone, Copy, PartialEq, Eq, Structural, Debug)]
pub enum RequestMethod {
    Get,
    Post,
    Put,
    Patch,
    Delete,
    Head,
    Options,
}

/// What the body of a request is made of.
#[derive(Clone, Copy, PartialEq, Eq, Structural, Debug)]
pub enum BodyType {
    NoBody,
    FormData,
    Urlencoded,
    Raw,
}

/// The language of a raw body.
#[derive(Clone, Copy, PartialEq, Eq, Structural, Debug)]
pub enum RawLanguage {
    Json,
    Text,
    Xml,
    Html,
    JavaScript,
}

/// How a request authenticates.
#[derive(Clone, Copy, PartialEq, Eq, Structural, Debug)]
pub enum AuthType {
    NoAuth,
    Bearer,
    Basic,
    ApiKey,
}

/// Where an API key is sent.
#[derive(Clone, Copy, PartialEq, Eq, Structural, Debug)]
pub enum AuthTarget {
    Header,
    Query,
}

/// Whether a form field holds text or names a file.
#[derive(Clone, Copy, PartialEq, Eq, Structural, Debug)]
pub enum FieldType {
    Text,
    File,
}

/// One row of a key-value table.
#[derive(Debug)]
pub struct KeyValue {
    pub key: String,
    pub value: String,
    pub enabled: bool,
    pub field_type: FieldType,
    pub file_path: Option<String>,
}

/// Model of [`KeyValue`].
#[verifier::ext_equal]
pub struct KeyValueModel {
    pub key: Seq<char>,
    pub value: Seq<char>,
    pub enabled: bool,
    pub field_type: FieldType,
    pub file_path: Option<Seq<char>>,
}

impl DeepView for KeyValue {
    type V = KeyValueModel;

    open spec fn deep_view(&self) -> KeyValueModel {
        KeyValueModel {
            key: self.key@,
            value: self.value@,
            enabled: self.enabled,
            field_type: self.field_type,
            file_path: self.file_path.deep_view(),
        }
    }
}

/// An enabled text row.
pub open spec fn text_row(key: Seq<char>, value: Seq<char>) -> KeyValueModel {
    KeyValueModel { key, value, enabled: true, field_type: FieldType::Text, file_path: None }
}

impl KeyValue {
    /// An enabled text row.
    pub fn new(key: &str, value: &str) -> (r: KeyValue)
        ensures
            r.deep_view() == text_row(key@, value@),
    {
        KeyValue {
            key: key.to_owned(),
            value: value.to_owned(),
            enabled: true,
            field_type: FieldType::Text,
            file_path: None,
        }
    }
}

impl Default for KeyValue {
    fn default() -> (r: KeyValue)
        ensures
            r.deep_view() == (KeyValueModel {
                enabled: false,
                ..text_row(Seq::empty(), Seq::empty())
            }),
    {
        KeyValue {
            key: String::new(),
            value: String::new(),
            enabled: false,
            field_type: FieldType::Text,
            file_path: None,
        }
    }
}

impl Clone for KeyValue {
    fn clone(&self) -> (r: KeyValue)
        ensures
            r.deep_view() == self.deep_view(),
    {
        KeyValue {
            key: self.key.clone(),
            value: self.value.clone(),
            enabled: self.enabled,
            field_type: self.field_type,
            file_path: self.file_path.clone(),
        }
    }
}

/// A copy of a list of rows.
pub fn clone_rows(rows: &Vec<KeyValue>) -> (r: Vec<KeyValue>)
    ensures
        r.deep_view() == rows.deep_view(),
{
    let r = rows.clone();
    assert(r.deep_view() =~= rows.deep_view());
    r
}

/// How a request authenticates, with what it needs for that.
#[derive(Debug)]
pub struct AuthConfig {
    pub auth_type: AuthType,
    pub token: String,
    pub username: String,
    pub password: String,
    pub key: String,
    pub value: String,
    pub add_to: AuthTarget,
}

/// Model of [`AuthConfig`].
#[verifier::ext_equal]
pub struct AuthConfigModel {
    pub auth_type: AuthType,
    pub token: Seq<char>,
    pub username: Seq<char>,
    pub password: Seq<char>,
    pub key: Seq<char>,
    pub value: Seq<char>,
    pub add_to: AuthTarget,
}

impl DeepView for AuthConfig {
    type V = AuthConfigModel;

    open spec fn deep_view(&self) -> AuthConfigModel {
        AuthConfigModel {
            auth_type: self.auth_type,
            token: self.token@,
            username: self.username@,
            password: self.password@,
            key: self.key@,
            value: self.value@,
            add_to: self.add_to,
        }
    }
}

impl Clone for AuthConfig {
    fn clone(&self) -> (r: AuthConfig)
        ensures
            r.deep_view() == self.deep_view(),
    {
        AuthConfig {
            auth_type: self.auth_type,
            token: self.token.clone(),
            username: self.username.clone(),
            password: self.password.clone(),
            key: self.key.clone(),
            value: self.value.clone(),
            add_to: self.add_to,
        }
    }
}

/// What came back for a request.
#[derive(Debug)]
pub struct HttpResponse {
    pub status: u16,
    pub status_text: String,
    pub headers: Vec<KeyValue>,
    pub body: String,
    pub raw_body: String,
    pub time_ms: u64,
    pub size: u64,
    pub error: Option<String>,
    pub streaming: bool,
}

/// Model of [`HttpResponse`].
#[verifier::ext_equal]
pub struct HttpResponseModel {
    pub status: u16,
    pub status_text: Seq<char>,
    pub headers: Seq<KeyValueModel>,
    pub body: Seq<char>,
    pub raw_body: Seq<char>,
    pub time_ms: u64,
    pub size: u64,
    pub error: Option<Seq<char>>,
    pub streaming: bool,
}

impl DeepView for HttpResponse {
    type V = HttpResponseModel;

    open spec fn deep_view(&self) -> HttpResponseModel {
        HttpResponseModel {
            status: self.status,
            status_text: self.status_text@,
            headers: self.headers.deep_view(),
            body: self.body@,
            raw_body: self.raw_body@,
            time_ms: self.time_ms,
            size: self.size,
            error: self.error.deep_view(),
            streaming: self.streaming,
        }
    }
}

impl Clone for HttpResponse {
    fn clone(&self) -> (r: HttpResponse)
        ensures
            r.deep_view() == self.deep_view(),
    {
        HttpResponse {
            status: self.status,
            status_text: self.status_text.clone(),
            headers: clone_rows(&self.headers),
            body: self.body.clone(),
            raw_body: self.raw_body.clone(),
            time_ms: self.time_ms,
            size: self.size,
            error: self.error.clone(),
            streaming: self.streaming,
        }
    }
}

/// A request as it was sent: its readable form and its command-line form.
#[derive(Debug)]
pub struct PreparedRequest {
    pub actual_request: String,
    pub curl: String,
}

/// Model of [`PreparedRequest`].
#[verifier::ext_equal]
pub struct PreparedRequestModel {
    pub actual_request: Seq<char>,
    pub curl: Seq<char>,
}

impl DeepView for PreparedRequest {
    type V = PreparedRequestModel;

    open spec fn deep_view(&self) -> PreparedRequestModel {
        PreparedRequestModel { actual_request: self.actual_request@, curl: self.curl@ }
    }
}

} // verus!
