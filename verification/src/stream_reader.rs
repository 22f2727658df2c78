//! The inbound side of a session: what each frame from the server means,
//! which event it becomes, and when the reader task ends.

use vstd::prelude::*;

use crate::text::{push_str, str_eq, string_of};

verus! {

/// Event name for a started session.
pub const EVENT_SESSION_STARTED: &'static str = "elevenlabs://session-started";

/// Event name for partial and final transcripts.
pub const EVENT_TRANSCRIPT: &'static str = "elevenlabs://transcript";

/// Event name for errors.
pub const EVENT_ERROR: &'static str = "elevenlabs://error";

/// Event name for the end of the connection.
pub const EVENT_CONNECTION_CLOSED: &'static str = "elevenlabs://connection-closed";

/// Close code reported when the server's close frame carries none.
pub const CLOSE_NO_STATUS: u16 = 1005;

/// Close code reported when the stream ends without a close frame.
pub const CLOSE_ABNORMAL: u16 = 1006;

/// One JSON message from the server.
#[derive(Debug)]
pub struct TranscriptMessage {
    pub message_type: String,
    pub text: String,
    pub session_id: Option<String>,
}

/// The view of an optional string.
pub open spec fn optional_text(s: Option<String>) -> Option<Seq<char>> {
    match s {
        Some(s) => Some(s@),
        None => None,
    }
}

/// What a message type stands for.
#[derive(Clone, Copy, PartialEq, Eq, Debug, Structural)]
pub enum MessageKind {
    SessionStarted,
    PartialTranscript,
    CommittedTranscript,
    ServerError,
    Unknown,
}

/// The kind that the `message_type` tag names.
pub open spec fn kind_of(message_type: Seq<char>) -> MessageKind {
    if message_type == "session_started"@ {
        MessageKind::SessionStarted
    } else if message_type == "partial_transcript"@ {
        MessageKind::PartialTranscript
    } else if message_type == "committed_transcript"@ || message_type
        == "committed_transcript_with_timestamps"@ {
        MessageKind::CommittedTranscript
    } else if message_type == "error"@ || message_type == "auth_error"@ || message_type
        == "quota_exceeded_error"@ || message_type == "input_error"@ {
        MessageKind::ServerError
    } else {
        MessageKind::Unknown
    }
}

pub fn classify(message_type: &str) -> (kind: MessageKind)
    ensures
        kind == kind_of(message_type@),
{
    if str_eq(message_type, "session_started") {
        MessageKind::SessionStarted
    } else if str_eq(message_type, "partial_transcript") {
        MessageKind::PartialTranscript
    } else if str_eq(message_type, "committed_transcript") || str_eq(
        message_type,
        "committed_transcript_with_timestamps",
    ) {
        MessageKind::CommittedTranscript
    } else if str_eq(message_type, "error") || str_eq(message_type, "auth_error") || str_eq(
        message_type,
        "quota_exceeded_error",
    ) || str_eq(message_type, "input_error") {
        MessageKind::ServerError
    } else {
        MessageKind::Unknown
    }
}

/// The text that `{:?}` gives for a string: the string in double quotes,
/// with its special characters escaped.
pub uninterp spec fn debug_quoted(s: Seq<char>) -> Seq<char>;

/// `format!("{:?}", ..)` on a `str`, that is `<str as Debug>::fmt`: the
/// quoted text depends on the string alone.
#[verifier::external_body]
fn quote(s: &str) -> (quoted: String)
    ensures
        quoted@ == debug_quoted(s@),
{
    format!("{:?}", s)
}

/// How a message is written out in an error event: its three fields by
/// name, each string quoted.
pub open spec fn message_debug_text(
    message_type: Seq<char>,
    text: Seq<char>,
    session_id: Option<Seq<char>>,
) -> Seq<char> {
    message_layout(
        debug_quoted(message_type),
        debug_quoted(text),
        match session_id {
            Some(id) => Some(debug_quoted(id)),
            None => None,
        },
    )
}

/// The written-out message around fields that are quoted already.
pub open spec fn message_layout(
    message_type: Seq<char>,
    text: Seq<char>,
    session_id: Option<Seq<char>>,
) -> Seq<char> {
    "TranscriptMessage { message_type: "@ + message_type + ", text: "@ + text
        + ", session_id: "@ + match session_id {
        Some(id) => "Some("@ + id + ")"@,
        None => "None"@,
    } + " }"@
}

/// Lays out a message whose fields are quoted already.
pub fn lay_out_message(message_type: &str, text: &str, session_id: Option<&str>) -> (out: String)
    ensures
        out@ == message_layout(
            message_type@,
            text@,
            match session_id {
                Some(id) => Some(id@),
                None => None,
            },
        ),
{
    let mut out: Vec<char> = Vec::new();
    push_str(&mut out, "TranscriptMessage { message_type: ");
    push_str(&mut out, message_type);
    push_str(&mut out, ", text: ");
    push_str(&mut out, text);
    push_str(&mut out, ", session_id: ");
    match session_id {
        Some(id) => {
            push_str(&mut out, "Some(");
            push_str(&mut out, id);
            push_str(&mut out, ")");
        },
        None => {
            push_str(&mut out, "None");
        },
    }
    push_str(&mut out, " }");
    assert(out@ =~= message_layout(
        message_type@,
        text@,
        match session_id {
            Some(id) => Some(id@),
            None => None,
        },
    ));
    string_of(&out)
}

/// Writes a message out for an error event.
pub fn describe_message(message: &TranscriptMessage) -> (text: String)
    ensures
        text@ == message_debug_text(
            message.message_type@,
            message.text@,
            optional_text(message.session_id),
        ),
{
    let quoted_type = quote(message.message_type.as_str());
    let quoted_text = quote(message.text.as_str());
    match &message.session_id {
        Some(id) => {
            let quoted_id = quote(id.as_str());
            lay_out_message(
                quoted_type.as_str(),
                quoted_text.as_str(),
                Some(quoted_id.as_str()),
            )
        },
        None => lay_out_message(quoted_type.as_str(), quoted_text.as_str(), None),
    }
}

/// An event for the application.
pub enum StreamEvent {
    SessionStarted { session_id: String },
    Transcript { text: String, is_partial: bool },
    Error { error: String },
    ConnectionClosed { code: u16, reason: String },
}

/// A `StreamEvent` as plain values.
pub enum StreamEventView {
    SessionStarted { session_id: Seq<char> },
    Transcript { text: Seq<char>, is_partial: bool },
    Error { error: Seq<char> },
    ConnectionClosed { code: u16, reason: Seq<char> },
}

impl View for StreamEvent {
    type V = StreamEventView;

    open spec fn view(&self) -> StreamEventView {
        match self {
            StreamEvent::SessionStarted { session_id } => StreamEventView::SessionStarted {
                session_id: session_id@,
            },
            StreamEvent::Transcript { text, is_partial } => StreamEventView::Transcript {
                text: text@,
                is_partial: *is_partial,
            },
            StreamEvent::Error { error } => StreamEventView::Error { error: error@ },
            StreamEvent::ConnectionClosed { code, reason } => StreamEventView::ConnectionClosed {
                code: *code,
                reason: reason@,
            },
        }
    }
}

impl StreamEvent {
    pub open spec fn spec_name(self) -> Seq<char> {
        match self {
            StreamEvent::SessionStarted { .. } => EVENT_SESSION_STARTED@,
            StreamEvent::Transcript { .. } => EVENT_TRANSCRIPT@,
            StreamEvent::Error { .. } => EVENT_ERROR@,
            StreamEvent::ConnectionClosed { .. } => EVENT_CONNECTION_CLOSED@,
        }
    }

    /// The name under which the event is emitted.
    pub fn name(&self) -> (name: &'static str)
        ensures
            name@ == self.spec_name(),
    {
        match self {
            StreamEvent::SessionStarted { .. } => EVENT_SESSION_STARTED,
            StreamEvent::Transcript { .. } => EVENT_TRANSCRIPT,
            StreamEvent::Error { .. } => EVENT_ERROR,
            StreamEvent::ConnectionClosed { .. } => EVENT_CONNECTION_CLOSED,
        }
    }
}

/// The view of an optional event.
pub open spec fn optional_event(event: Option<StreamEvent>) -> Option<StreamEventView> {
    match event {
        Some(e) => Some(e@),
        None => None,
    }
}

/// The event that a server message becomes, if any.
pub open spec fn event_of_message(
    message_type: Seq<char>,
    text: Seq<char>,
    session_id: Option<Seq<char>>,
) -> Option<StreamEventView> {
    match kind_of(message_type) {
        MessageKind::SessionStarted => match session_id {
            Some(id) => Some(StreamEventView::SessionStarted { session_id: id }),
            None => None,
        },
        MessageKind::PartialTranscript => Some(
            StreamEventView::Transcript { text, is_partial: true },
        ),
        MessageKind::CommittedTranscript => Some(
            StreamEventView::Transcript { text, is_partial: false },
        ),
        MessageKind::ServerError => Some(
            StreamEventView::Error { error: message_debug_text(message_type, text, session_id) },
        ),
        MessageKind::Unknown => None,
    }
}

/// Turns one server message into the event that the application receives.
/// No message ends the connection by itself.
pub fn handle_text_message(message: TranscriptMessage) -> (event: Option<StreamEvent>)
    ensures
        optional_event(event) == event_of_message(
            message.message_type@,
            message.text@,
            optional_text(message.session_id),
        ),
{
    match classify(message.message_type.as_str()) {
        MessageKind::SessionStarted => match message.session_id {
            Some(session_id) => Some(StreamEvent::SessionStarted { session_id }),
            None => None,
        },
        MessageKind::PartialTranscript => Some(
            StreamEvent::Transcript { text: message.text, is_partial: true },
        ),
        MessageKind::CommittedTranscript => Some(
            StreamEvent::Transcript { text: message.text, is_partial: false },
        ),
        MessageKind::ServerError => {
            let error = describe_message(&message);
            Some(StreamEvent::Error { error })
        },
        MessageKind::Unknown => None,
    }
}

/// What the transport handed to the reader task.
pub enum Inbound {
    /// The cancellation token fired.
    Cancelled,
    /// A text frame that parsed as a message.
    Message(TranscriptMessage),
    /// A text frame that did not parse.
    Unparsed,
    /// A close frame, with its code and reason where it carries them.
    Close(Option<(u16, String)>),
    /// A pong, or any other frame without meaning here.
    Ignored,
    /// The transport failed with this description.
    Failed(String),
    /// The stream ended without a close frame.
    Ended,
}

/// An `Inbound` as plain values.
pub enum InboundView {
    Cancelled,
    Message { message_type: Seq<char>, text: Seq<char>, session_id: Option<Seq<char>> },
    Unparsed,
    Close(Option<(u16, Seq<char>)>),
    Ignored,
    Failed(Seq<char>),
    Ended,
}

impl View for Inbound {
    type V = InboundView;

    open spec fn view(&self) -> InboundView {
        match self {
            Inbound::Cancelled => InboundView::Cancelled,
            Inbound::Message(m) => InboundView::Message {
                message_type: m.message_type@,
                text: m.text@,
                session_id: optional_text(m.session_id),
            },
            Inbound::Unparsed => InboundView::Unparsed,
            Inbound::Close(frame) => InboundView::Close(
                match frame {
                    Some((code, reason)) => Some((*code, reason@)),
                    None => None,
                },
            ),
            Inbound::Ignored => InboundView::Ignored,
            Inbound::Failed(error) => InboundView::Failed(error@),
            Inbound::Ended => InboundView::Ended,
        }
    }
}

/// What the reader task does with one inbound item.
pub struct ReaderStep {
    /// The event to emit, if any.
    pub event: Option<StreamEvent>,
    /// Whether the commit rendezvous fires.
    pub notify_commit: bool,
    /// Whether the reader task ends: the session is then marked dead and
    /// the keep-alive task cancelled.
    pub finished: bool,
}

/// A `ReaderStep` as plain values.
pub struct ReaderStepView {
    pub event: Option<StreamEventView>,
    pub notify_commit: bool,
    pub finished: bool,
}

impl View for ReaderStep {
    type V = ReaderStepView;

    open spec fn view(&self) -> ReaderStepView {
        ReaderStepView {
            event: optional_event(self.event),
            notify_commit: self.notify_commit,
            finished: self.finished,
        }
    }
}

/// The reader's answer to each inbound item. Only a committed transcript
/// fires the commit rendezvous; only cancellation, a close frame, a
/// transport failure and the end of the stream end the task.
pub open spec fn reader_step(inbound: InboundView) -> ReaderStepView {
    match inbound {
        InboundView::Cancelled => ReaderStepView { event: None, notify_commit: false, finished: true },
        InboundView::Message { message_type, text, session_id } => ReaderStepView {
            event: event_of_message(message_type, text, session_id),
            notify_commit: kind_of(message_type) == MessageKind::CommittedTranscript,
            finished: false,
        },
        InboundView::Unparsed => ReaderStepView { event: None, notify_commit: false, finished: false },
        InboundView::Close(frame) => ReaderStepView {
            event: Some(
                match frame {
                    Some((code, reason)) => StreamEventView::ConnectionClosed { code, reason },
                    None => StreamEventView::ConnectionClosed {
                        code: CLOSE_NO_STATUS,
                        reason: ""@,
                    },
                },
            ),
            notify_commit: false,
            finished: true,
        },
        InboundView::Ignored => ReaderStepView { event: None, notify_commit: false, finished: false },
        InboundView::Failed(error) => ReaderStepView {
            event: Some(StreamEventView::Error { error }),
            notify_commit: false,
            finished: true,
        },
        InboundView::Ended => ReaderStepView {
            event: Some(
                StreamEventView::ConnectionClosed { code: CLOSE_ABNORMAL, reason: "Stream ended"@ },
            ),
            notify_commit: false,
            finished: true,
        },
    }
}

/// One turn of the reader task.
pub fn message_reader_step(inbound: Inbound) -> (step: ReaderStep)
    ensures
        step@ == reader_step(inbound@),
{
    match inbound {
        Inbound::Cancelled => ReaderStep { event: None, notify_commit: false, finished: true },
        Inbound::Message(message) => {
            let kind = classify(message.message_type.as_str());
            let event = handle_text_message(message);
            ReaderStep {
                event,
                notify_commit: kind == MessageKind::CommittedTranscript,
                finished: false,
            }
        },
        Inbound::Unparsed => ReaderStep { event: None, notify_commit: false, finished: false },
        Inbound::Close(frame) => {
            let event = match frame {
                Some((code, reason)) => StreamEvent::ConnectionClosed { code, reason },
                None => StreamEvent::ConnectionClosed {
                    code: CLOSE_NO_STATUS,
                    reason: "".to_owned(),
                },
            };
            ReaderStep { event: Some(event), notify_commit: false, finished: true }
        },
        Inbound::Ignored => ReaderStep { event: None, notify_commit: false, finished: false },
        Inbound::Failed(error) => ReaderStep {
            event: Some(StreamEvent::Error { error }),
            notify_commit: false,
            finished: true,
        },
        Inbound::Ended => ReaderStep {
            event: Some(
                StreamEvent::ConnectionClosed {
                    code: CLOSE_ABNORMAL,
                    reason: "Stream ended".to_owned(),
                },
            ),
            notify_commit: false,
            finished: true,
        },
    }
}

/// What the keep-alive task does after one tick.
#[derive(Clone, Copy, PartialEq, Eq, Debug, Structural)]
pub enum KeepaliveStep {
    /// Send an empty ping.
    Ping,
    /// Leave the task.
    Stop,
}

/// What woke the keep-alive task.
#[derive(Clone, Copy, PartialEq, Eq, Debug, Structural)]
pub enum KeepaliveWake {
    /// The cancellation token fired.
    Cancelled,
    /// The interval elapsed.
    Tick,
    /// The last ping could not be sent.
    PingFailed,
}

/// One turn of the keep-alive task: ping on every tick, leave on
/// cancellation or once a ping fails.
pub fn keepalive_step(wake: KeepaliveWake) -> (step: KeepaliveStep)
    ensures
        step == if wake == KeepaliveWake::Tick {
            KeepaliveStep::Ping
        } else {
            KeepaliveStep::Stop
        },
{
    match wake {
        KeepaliveWake::Tick => KeepaliveStep::Ping,
        KeepaliveWake::Cancelled => KeepaliveStep::Stop,
        KeepaliveWake::PingFailed => KeepaliveStep::Stop,
    }
}

} // verus!
