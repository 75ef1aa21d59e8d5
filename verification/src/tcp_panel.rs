//! What the pane of a TCP connection shows.

use vstd::prelude::*;
use crate::appearance::Tone;
use crate::http::Protocol;
use crate::labels::{Label, LabelModel};
use crate::text::{decimal, decimal_text, join3};
use crate::widgets::{Button, ButtonAction, ButtonModel, labelled};

verus! {

/// Where a TCP connection stands.
#[derive(Debug)]
pub enum TcpState {
    Disconnected,
    Connecting,
    Connected,
    Closing,
    Failed(String),
}

/// Where an entry of the timeline comes from.
#[derive(Clone, Copy, PartialEq, Eq, Structural, Debug)]
pub enum MessageDirection {
    Sent,
    Received,
    System,
}

/// An entry of the timeline.
#[derive(Debug)]
pub struct TimelineEntry {
    pub direction: MessageDirection,
    pub text: String,
}

/// Model of [`TimelineEntry`].
#[verifier::ext_equal]
pub struct TimelineEntryModel {
    pub direction: MessageDirection,
    pub text: Seq<char>,
}

impl DeepView for TimelineEntry {
    type V = TimelineEntryModel;

    open spec fn deep_view(&self) -> TimelineEntryModel {
        TimelineEntryModel {
            direction: self.direction,
            text: self.text@,
        }
    }
}

/// A TCP connection: its state, its peer, and what was sent and received.
#[derive(Debug)]
pub struct TcpSession {
    pub state: TcpState,
    pub peer: Option<String>,
    pub timeline: Vec<TimelineEntry>,
}

impl TcpState {
    /// Whether messages can be sent.
    pub fn is_connected(&self) -> (b: bool)
        ensures
            b == (self is Connected),
    {
        match self {
            TcpState::Connected => true,
            _ => false,
        }
    }
}

/// The text and the colour for the state of a connection.
pub open spec fn tcp_status_of(state: TcpState) -> (LabelModel, Tone) {
    match state {
        TcpState::Disconnected => (
            LabelModel::Message("ApiTest.disconnected"@),
            Tone::MutedForeground,
        ),
        TcpState::Connecting => (LabelModel::Message("ApiTest.connecting"@), Tone::Warning),
        TcpState::Connected => (LabelModel::Message("ApiTest.connected"@), Tone::Success),
        TcpState::Closing => (LabelModel::Message("ApiTest.disconnecting"@), Tone::Warning),
        TcpState::Failed(error) => (
            LabelModel::Message("ApiTest.connection_failed"@),
            Tone::Danger,
        ),
    }
}

/// The text and the colour for the state of a connection.
pub fn tcp_status(state: &TcpState) -> (r: (Label, Tone))
    ensures
        (r.0.deep_view(), r.1) == tcp_status_of(*state),
{
    match state {
        TcpState::Disconnected => (Label::Message("ApiTest.disconnected"), Tone::MutedForeground),
        TcpState::Connecting => (Label::Message("ApiTest.connecting"), Tone::Warning),
        TcpState::Connected => (Label::Message("ApiTest.connected"), Tone::Success),
        TcpState::Closing => (Label::Message("ApiTest.disconnecting"), Tone::Warning),
        TcpState::Failed(error) => (Label::Message("ApiTest.connection_failed"), Tone::Danger),
    }
}

/// What an entry of the timeline looks like.
#[derive(Clone, Copy, PartialEq, Eq, Structural, Debug)]
pub enum TcpEntryLook {
    /// A line in the middle.
    System,
    /// A message, on the right and in the accent colour.
    Sent,
    /// A message, on the left and in the colour of information.
    Received,
}

/// An entry of the timeline as it is shown. Messages carry a label.
#[derive(Debug)]
pub struct TcpEntry {
    pub index: usize,
    pub look: TcpEntryLook,
    pub tone: Tone,
    pub label: Option<Label>,
    pub text: String,
}

/// Model of [`TcpEntry`].
#[verifier::ext_equal]
pub struct TcpEntryModel {
    pub index: usize,
    pub look: TcpEntryLook,
    pub tone: Tone,
    pub label: Option<LabelModel>,
    pub text: Seq<char>,
}

impl DeepView for TcpEntry {
    type V = TcpEntryModel;

    open spec fn deep_view(&self) -> TcpEntryModel {
        TcpEntryModel {
            index: self.index,
            look: self.look,
            tone: self.tone,
            label: self.label.deep_view(),
            text: self.text@,
        }
    }
}

/// An entry of the timeline as it is shown.
pub open spec fn tcp_entry(index: usize, entry: TimelineEntryModel) -> TcpEntryModel {
    match entry.direction {
        MessageDirection::System => TcpEntryModel {
            index,
            look: TcpEntryLook::System,
            tone: Tone::MutedForeground,
            label: None,
            text: entry.text,
        },
        MessageDirection::Sent => TcpEntryModel {
            index,
            look: TcpEntryLook::Sent,
            tone: Tone::Accent,
            label: Some(LabelModel::Message("ApiTest.sent"@)),
            text: entry.text,
        },
        MessageDirection::Received => TcpEntryModel {
            index,
            look: TcpEntryLook::Received,
            tone: Tone::Info,
            label: Some(LabelModel::Message("ApiTest.received"@)),
            text: entry.text,
        },
    }
}

/// An entry of the timeline as it is shown.
pub fn render_tcp_entry(index: usize, entry: &TimelineEntry) -> (r: TcpEntry)
    ensures
        r.deep_view() == tcp_entry(index, entry.deep_view()),
{
    if entry.direction == MessageDirection::System {
        return render_tcp_system_entry(index, entry);
    }
    render_tcp_message_entry(index, entry)
}

fn render_tcp_system_entry(index: usize, entry: &TimelineEntry) -> (r: TcpEntry)
    requires
        entry.direction == MessageDirection::System,
    ensures
        r.deep_view() == tcp_entry(index, entry.deep_view()),
{
    TcpEntry {
        index,
        look: TcpEntryLook::System,
        tone: Tone::MutedForeground,
        label: None,
        text: entry.text.clone(),
    }
}

fn render_tcp_message_entry(index: usize, entry: &TimelineEntry) -> (r: TcpEntry)
    requires
        entry.direction != MessageDirection::System,
    ensures
        r.deep_view() == tcp_entry(index, entry.deep_view()),
{
    let sent = entry.direction == MessageDirection::Sent;
    TcpEntry {
        index,
        look: if sent {
            TcpEntryLook::Sent
        } else {
            TcpEntryLook::Received
        },
        tone: if sent {
            Tone::Accent
        } else {
            Tone::Info
        },
        label: Some(
            Label::Message(
                if sent {
                    "ApiTest.sent"
                } else {
                    "ApiTest.received"
                },
            ),
        ),
        text: entry.text.clone(),
    }
}

/// The pane of a TCP connection: its title, its status, its peer, how many messages there
/// are, the entries, or a text where there are none, and below them the message with the
/// button that sends it, and whether messages can be sent.
#[derive(Debug)]
pub struct TcpPane {
    pub title: Label,
    pub status: Label,
    pub tone: Tone,
    pub peer: String,
    pub count: String,
    pub entries: Vec<TcpEntry>,
    pub empty: Option<Label>,
    pub message: String,
    pub can_send: bool,
    pub send: Button,
}

/// Model of [`TcpPane`].
#[verifier::ext_equal]
pub struct TcpPaneModel {
    pub title: LabelModel,
    pub status: LabelModel,
    pub tone: Tone,
    pub peer: Seq<char>,
    pub count: Seq<char>,
    pub entries: Seq<TcpEntryModel>,
    pub empty: Option<LabelModel>,
    pub message: Seq<char>,
    pub can_send: bool,
    pub send: ButtonModel,
}

impl DeepView for TcpPane {
    type V = TcpPaneModel;

    open spec fn deep_view(&self) -> TcpPaneModel {
        TcpPaneModel {
            title: self.title.deep_view(),
            status: self.status.deep_view(),
            tone: self.tone,
            peer: self.peer@,
            count: self.count@,
            entries: self.entries.deep_view(),
            empty: self.empty.deep_view(),
            message: self.message@,
            can_send: self.can_send,
            send: self.send.deep_view(),
        }
    }
}

/// The pane of a TCP connection. An unknown peer is shown as a dash.
pub open spec fn tcp_pane(
    session: TcpSession,
    messages: Seq<char>,
    message: Seq<char>,
) -> TcpPaneModel {
    TcpPaneModel {
        title: LabelModel::Message("ApiTest.tcp_messages"@),
        status: tcp_status_of(session.state).0,
        tone: tcp_status_of(session.state).1,
        peer: match session.peer {
            Some(peer) => peer@,
            None => "—"@,
        },
        count: decimal_text(session.timeline@.len()) + " "@ + messages,
        entries: Seq::new(
            session.timeline@.len(),
            |i: int| tcp_entry(i as usize, session.timeline@[i].deep_view()),
        ),
        empty: if session.timeline@.len() == 0 {
            Some(LabelModel::Message("ApiTest.tcp_empty"@))
        } else {
            None
        },
        message,
        can_send: session.state is Connected,
        send: ButtonModel {
            enabled: session.state is Connected,
            ..labelled(
                "api-tcp-send-message"@,
                "ApiTest.send_message"@,
                ButtonAction::SendMessage(Protocol::Tcp),
            )
        },
    }
}

/// The head of the pane: status, colour, peer, and the number of messages with the text
/// for messages.
fn render_tcp_header(session: &TcpSession, messages: &str) -> (r: (Label, Tone, String, String))
    ensures
        ({
            let pane = tcp_pane(*session, messages@, Seq::empty());
            &&& r.0.deep_view() == pane.status
            &&& r.1 == pane.tone
            &&& r.2@ == pane.peer
            &&& r.3@ == pane.count
        }),
{
    let (status, tone) = tcp_status(&session.state);
    let peer = match &session.peer {
        Some(peer) => peer.clone(),
        None => "—".to_owned(),
    };
    let number = decimal(session.timeline.len() as u128);
    (status, tone, peer, join3(number.as_str(), " ", messages))
}

/// The pane of a TCP connection. `messages` is the text for messages, `message` the one that
/// is being written.
pub fn render_tcp_response(session: &TcpSession, messages: &str, message: &str) -> (r: TcpPane)
    ensures
        r.deep_view() == tcp_pane(*session, messages@, message@),
{
    let ghost model = tcp_pane(*session, messages@, message@).entries;
    let mut entries: Vec<TcpEntry> = Vec::new();
    let mut i: usize = 0;
    while i < session.timeline.len()
        invariant
            model == tcp_pane(*session, messages@, message@).entries,
            i <= session.timeline.len(),
            entries.len() == i,
            forall|k: int| 0 <= k < i ==> (#[trigger] entries@[k]).deep_view() == model[k],
        decreases session.timeline.len() - i,
    {
        entries.push(render_tcp_entry(i, &session.timeline[i]));
        i = i + 1;
    }
    assert(entries.deep_view() =~= model);
    let (status, tone, peer, count) = render_tcp_header(session, messages);
    let empty = if session.timeline.len() == 0 {
        Some(Label::Message("ApiTest.tcp_empty"))
    } else {
        None
    };
    let can_send = session.state.is_connected();
    let mut send = Button::labelled(
        "api-tcp-send-message",
        "ApiTest.send_message",
        ButtonAction::SendMessage(Protocol::Tcp),
    );
    send.enabled = can_send;
    TcpPane {
        title: Label::Message("ApiTest.tcp_messages"),
        status,
        tone,
        peer,
        count,
        entries,
        empty,
        message: message.to_owned(),
        can_send,
        send,
    }
}

} // verus!
