//! Texts in the user's language that the library puts together but does not choose.

use vstd::prelude::*;
use crate::http::{Protocol, RequestMethod};

verus! {

/// A fixed text of the interface: the key of a message in the user's language, or a
/// text that is the same in all languages.
#[derive(Clone, Copy, Debug)]
pub enum Label {
    Message(&'static str),
    Literal(&'static str),
}

/// Model of [`Label`].
#[verifier::ext_equal]
pub enum LabelModel {
    Message(Seq<char>),
    Literal(Seq<char>),
}

impl DeepView for Label {
    type V = LabelModel;

    open spec fn deep_view(&self) -> LabelModel {
        match self {
            Label::Message(key) => LabelModel::Message(key@),
            Label::Literal(text) => LabelModel::Literal(text@),
        }
    }
}

/// A text for each protocol.
#[derive(Debug)]
pub struct ProtocolTexts {
    pub http: String,
    pub graphql: String,
    pub sse: String,
    pub web_socket: String,
    pub tcp: String,
    pub grpc_web: String,
    pub socket_io: String,
}

impl ProtocolTexts {
    /// The text for `protocol`.
    pub open spec fn text(self, protocol: Protocol) -> Seq<char> {
        match protocol {
            Protocol::Http => self.http@,
            Protocol::Graphql => self.graphql@,
            Protocol::Sse => self.sse@,
            Protocol::WebSocket => self.web_socket@,
            Protocol::Tcp => self.tcp@,
            Protocol::GrpcWeb => self.grpc_web@,
            Protocol::SocketIo => self.socket_io@,
        }
    }

    /// The text for `protocol`.
    pub fn get(&self, protocol: Protocol) -> (r: &str)
        ensures
            r@ == self.text(protocol),
    {
        match protocol {
            Protocol::Http => self.http.as_str(),
            Protocol::Graphql => self.graphql.as_str(),
            Protocol::Sse => self.sse.as_str(),
            Protocol::WebSocket => self.web_socket.as_str(),
            Protocol::Tcp => self.tcp.as_str(),
            Protocol::GrpcWeb => self.grpc_web.as_str(),
            Protocol::SocketIo => self.socket_io.as_str(),
        }
    }
}

/// A text for each method.
#[derive(Debug)]
pub struct MethodTexts {
    pub get: String,
    pub post: String,
    pub put: String,
    pub patch: String,
    pub delete: String,
    pub head: String,
    pub options: String,
}

impl MethodTexts {
    /// The text for `method`.
    pub open spec fn text(self, method: RequestMethod) -> Seq<char> {
        match method {
            RequestMethod::Get => self.get@,
            RequestMethod::Post => self.post@,
            RequestMethod::Put => self.put@,
            RequestMethod::Patch => self.patch@,
            RequestMethod::Delete => self.delete@,
            RequestMethod::Head => self.head@,
            RequestMethod::Options => self.options@,
        }
    }

    /// The text for `method`.
    pub fn get(&self, method: RequestMethod) -> (r: &str)
        ensures
            r@ == self.text(method),
    {
        match method {
            RequestMethod::Get => self.get.as_str(),
            RequestMethod::Post => self.post.as_str(),
            RequestMethod::Put => self.put.as_str(),
            RequestMethod::Patch => self.patch.as_str(),
            RequestMethod::Delete => self.delete.as_str(),
            RequestMethod::Head => self.head.as_str(),
            RequestMethod::Options => self.options.as_str(),
        }
    }
}

/// What the request tree writes beside the names of folders and requests.
#[derive(Debug)]
pub struct TreeTexts {
    /// The names of the protocols, as a search finds them.
    pub protocols: ProtocolTexts,
    /// The names of the methods, as a search finds them.
    pub methods: MethodTexts,
    /// The label of a request without a name and an address.
    pub new_request: String,
    /// The label of the root.
    pub request_list: String,
    /// The label of the entry of an empty tree.
    pub empty_list: String,
}

/// Which protocols send a request with an HTTP method.
#[derive(Clone, Copy, PartialEq, Eq, Structural, Debug)]
pub struct HttpShaped {
    pub http: bool,
    pub graphql: bool,
    pub sse: bool,
    pub web_socket: bool,
    pub tcp: bool,
    pub grpc_web: bool,
    pub socket_io: bool,
}

impl HttpShaped {
    /// Whether `protocol` sends a request with an HTTP method.
    pub open spec fn holds(self, protocol: Protocol) -> bool {
        match protocol {
            Protocol::Http => self.http,
            Protocol::Graphql => self.graphql,
            Protocol::Sse => self.sse,
            Protocol::WebSocket => self.web_socket,
            Protocol::Tcp => self.tcp,
            Protocol::GrpcWeb => self.grpc_web,
            Protocol::SocketIo => self.socket_io,
        }
    }

    /// Whether `protocol` sends a request with an HTTP method.
    pub fn uses_http_method(&self, protocol: Protocol) -> (b: bool)
        ensures
            b == self.holds(protocol),
    {
        match protocol {
            Protocol::Http => self.http,
            Protocol::Graphql => self.graphql,
            Protocol::Sse => self.sse,
            Protocol::WebSocket => self.web_socket,
            Protocol::Tcp => self.tcp,
            Protocol::GrpcWeb => self.grpc_web,
            Protocol::SocketIo => self.socket_io,
        }
    }
}

} // verus!
