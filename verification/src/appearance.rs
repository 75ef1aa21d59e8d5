//! Colours, icons and texts that the view is drawn with.

use vstd::prelude::*;
use crate::http::{Protocol, RequestMethod};

verus! {

/// A colour of the theme.
#[derive(Clone, Copy, PartialEq, Eq, Structural, Debug)]
pub enum Tone {
    Danger,
    Warning,
    Success,
    Primary,
    MutedForeground,
    Foreground,
    Accent,
    Info,
    /// The colour of a method.
    Method(RequestMethod),
}

/// An icon.
#[derive(Clone, Copy, PartialEq, Eq, Structural, Debug)]
pub enum Icon {
    ChevronDown,
    ChevronLeft,
    ChevronRight,
    File,
    FolderClosed,
    FolderOpen,
    Globe,
    Network,
    Pause,
    Play,
    Query,
    Server,
    Sync,
    Terminal,
}

/// A text that is drawn: the key of a message in the user's language, or a text as it is.
#[derive(Debug)]
pub enum Caption {
    Message(&'static str),
    Text(String),
}

/// Model of [`Caption`].
#[verifier::ext_equal]
pub enum CaptionModel {
    Message(Seq<char>),
    Text(Seq<char>),
}

impl DeepView for Caption {
    type V = CaptionModel;

    open spec fn deep_view(&self) -> CaptionModel {
        match self {
            Caption::Message(key) => CaptionModel::Message(key@),
            Caption::Text(text) => CaptionModel::Text(text@),
        }
    }
}

/// The icon of a protocol.
pub open spec fn icon_of_protocol(protocol: Protocol) -> Icon {
    match protocol {
        Protocol::Http => Icon::Globe,
        Protocol::Graphql => Icon::Query,
        Protocol::Sse => Icon::Sync,
        Protocol::WebSocket => Icon::Network,
        Protocol::Tcp => Icon::Terminal,
        Protocol::GrpcWeb => Icon::Server,
        Protocol::SocketIo => Icon::Network,
    }
}

/// The icon of a protocol.
pub fn protocol_icon(protocol: Protocol) -> (r: Icon)
    ensures
        r == icon_of_protocol(protocol),
{
    match protocol {
        Protocol::Http => Icon::Globe,
        Protocol::Graphql => Icon::Query,
        Protocol::Sse => Icon::Sync,
        Protocol::WebSocket => Icon::Network,
        Protocol::Tcp => Icon::Terminal,
        Protocol::GrpcWeb => Icon::Server,
        Protocol::SocketIo => Icon::Network,
    }
}

/// The colour of a status: that of danger for an error and for a status below 200 or from
/// 500 on, that of a warning from 300 on, else that of success.
pub open spec fn status_tone_of(failed: bool, status: u16) -> Tone {
    if failed || status < 200 || status >= 500 {
        Tone::Danger
    } else if status >= 300 {
        Tone::Warning
    } else {
        Tone::Success
    }
}

/// The colour of a status.
pub fn status_tone(failed: bool, status: u16) -> (r: Tone)
    ensures
        r == status_tone_of(failed, status),
{
    if failed || status < 200 || status >= 500 {
        Tone::Danger
    } else if status >= 300 {
        Tone::Warning
    } else {
        Tone::Success
    }
}

/// The colour of a request's badge: that of its method where the protocol uses one.
pub open spec fn badge_tone_of(uses_http_method: bool, method: RequestMethod) -> Tone {
    if uses_http_method {
        Tone::Method(method)
    } else {
        Tone::Primary
    }
}

/// The colour of a request's badge.
pub fn badge_tone(uses_http_method: bool, method: RequestMethod) -> (r: Tone)
    ensures
        r == badge_tone_of(uses_http_method, method),
{
    if uses_http_method {
        Tone::Method(method)
    } else {
        Tone::Primary
    }
}

/// The text of a request's badge: that of its protocol where it has one, else that of its
/// method.
pub fn request_badge_label<'a>(protocol_badge: Option<&'a str>, method_badge: &'a str) -> (r: &'a str)
    ensures
        r@ == (match protocol_badge {
            Some(badge) => badge@,
            None => method_badge@,
        }),
{
    match protocol_badge {
        Some(badge) => badge,
        None => method_badge,
    }
}

} // verus!
