//! The byte connections: SSH, Telnet, serial ports and local shells. What an input asks for, and
//! what each outcome means for the session.
use crate::connection::telnet::{encode_window_size, escape, escaped, window_size, MESSAGE_LIMIT};
use crate::connection::types::{event_view, ConnectionEvent, ConnectionInput, Event, Input};
use vstd::prelude::*;

verus! {

/// What carries the bytes.
#[derive(Debug, Clone, Copy, PartialEq, Eq, Structural)]
pub enum LinkKind {
    Ssh,
    Telnet,
    Serial,
    Local,
}

/// What an input asks of a connection.
#[derive(Debug)]
pub enum LinkAction {
    Write(Vec<u8>),
    Resize { cols: u16, rows: u16 },
    Nothing,
}

/// What an input asks of a connection, as a mathematical value.
#[verifier::ext_equal]
pub enum Ask {
    Write(Seq<u8>),
    Resize { cols: u16, rows: u16 },
    Nothing,
}

impl View for LinkAction {
    type V = Ask;

    open spec fn view(&self) -> Ask {
        match *self {
            LinkAction::Write(bytes) => Ask::Write(bytes@),
            LinkAction::Resize { cols, rows } => Ask::Resize { cols, rows },
            LinkAction::Nothing => Ask::Nothing,
        }
    }
}

/// What an input asks of a connection. Telnet escapes its data and tells sizes within the stream; a
/// serial port knows no size; what is meant for remote desktops is passed over.
pub open spec fn asked(kind: LinkKind, input: Input) -> Ask {
    match input {
        Input::Data(data) => if kind == LinkKind::Telnet {
            Ask::Write(escaped(data))
        } else {
            Ask::Write(data)
        },
        Input::Resize { cols, rows } => match kind {
            LinkKind::Telnet => Ask::Write(window_size(cols, rows)),
            LinkKind::Serial => Ask::Nothing,
            _ => Ask::Resize { cols, rows },
        },
        _ => Ask::Nothing,
    }
}

/// What has come of the work on a connection.
#[derive(Debug)]
pub enum LinkOutcome {
    /// The connection stands, and takes inputs on the channel with this number.
    Opened(u64),
    /// There is no connection; the text says why.
    OpenFailed(String),
    /// The server accepted the password.
    Authenticated,
    /// The server refused the password.
    Refused,
    /// Bytes came for the terminal.
    Received(Vec<u8>),
    /// Reading failed; the text says why.
    ReadFailed(String),
    /// The other side has ended the connection.
    Closed,
    /// What an input asked for was done.
    Done,
    /// Bytes could not be sent; the text says why.
    WriteFailed(String),
    /// The size could not be told; the text says why.
    ResizeFailed(String),
    /// No more inputs can come.
    InputsClosed,
}

/// What has come of the work on a connection, as a mathematical value.
#[verifier::ext_equal]
pub enum Outcome {
    Opened(u64),
    OpenFailed(Seq<char>),
    Authenticated,
    Refused,
    Received(Seq<u8>),
    ReadFailed(Seq<char>),
    Closed,
    Done,
    WriteFailed(Seq<char>),
    ResizeFailed(Seq<char>),
    InputsClosed,
}

impl View for LinkOutcome {
    type V = Outcome;

    open spec fn view(&self) -> Outcome {
        match *self {
            LinkOutcome::Opened(channel) => Outcome::Opened(channel),
            LinkOutcome::OpenFailed(e) => Outcome::OpenFailed(e@),
            LinkOutcome::Authenticated => Outcome::Authenticated,
            LinkOutcome::Refused => Outcome::Refused,
            LinkOutcome::Received(data) => Outcome::Received(data@),
            LinkOutcome::ReadFailed(e) => Outcome::ReadFailed(e@),
            LinkOutcome::Closed => Outcome::Closed,
            LinkOutcome::Done => Outcome::Done,
            LinkOutcome::WriteFailed(e) => Outcome::WriteFailed(e@),
            LinkOutcome::ResizeFailed(e) => Outcome::ResizeFailed(e@),
            LinkOutcome::InputsClosed => Outcome::InputsClosed,
        }
    }
}

/// What becomes of a connection.
#[derive(Debug, Clone, Copy, PartialEq, Eq, Structural)]
pub enum LinkNext {
    /// It goes on.
    Open,
    /// It has to be opened anew.
    Reopen,
    /// It has ended for good.
    Finished,
}

/// What an outcome leads to: what the user interface is told, and what becomes of the connection.
#[derive(Debug)]
pub struct LinkStep {
    pub event: Option<ConnectionEvent>,
    pub next: LinkNext,
}

/// What becomes of a connection that has failed: SSH is over, and the others are opened anew.
pub open spec fn after_failure(kind: LinkKind) -> LinkNext {
    if kind == LinkKind::Ssh {
        LinkNext::Finished
    } else {
        LinkNext::Reopen
    }
}

/// What becomes of a connection that the other side has ended: SSH sessions and those on serial
/// ports are over, and the others are opened anew.
pub open spec fn after_end(kind: LinkKind) -> LinkNext {
    if kind == LinkKind::Serial {
        LinkNext::Finished
    } else {
        after_failure(kind)
    }
}

/// The words before the reason why a connection could not be opened.
pub open spec fn open_failure(kind: LinkKind) -> Seq<char> {
    match kind {
        LinkKind::Ssh => ""@,
        LinkKind::Telnet => "Telnet Connect Error: "@,
        LinkKind::Serial => "Serial Port Error: "@,
        LinkKind::Local => ""@,
    }
}

/// What the user interface is told of an outcome.
pub open spec fn told(kind: LinkKind, outcome: Outcome) -> Option<Event> {
    match outcome {
        Outcome::Opened(channel) => Some(Event::Connected(channel)),
        Outcome::OpenFailed(e) => Some(Event::Error(open_failure(kind) + e)),
        Outcome::Authenticated => Some(
            Event::Data(vstd::utf8::encode_utf8("Authenticated...\n"@)),
        ),
        Outcome::Refused => Some(Event::Error("Auth failed"@)),
        Outcome::Received(data) => if kind == LinkKind::Telnet && data.len() == 0 {
            None
        } else {
            Some(Event::Data(data))
        },
        Outcome::ReadFailed(e) => if kind == LinkKind::Serial {
            Some(Event::Error("Serial read error: "@ + e))
        } else {
            Some(Event::Disconnected)
        },
        Outcome::Closed => Some(Event::Disconnected),
        Outcome::Done => Some(Event::Data(Seq::empty())),
        Outcome::WriteFailed(e) => if kind == LinkKind::Ssh {
            Some(Event::Error("Send Error: "@ + e))
        } else {
            Some(Event::Data(Seq::empty()))
        },
        Outcome::ResizeFailed(e) => if kind == LinkKind::Ssh {
            Some(Event::Error("Resize Error: "@ + e))
        } else {
            Some(Event::Data(Seq::empty()))
        },
        Outcome::InputsClosed => if kind == LinkKind::Ssh {
            Some(Event::Disconnected)
        } else {
            None
        },
    }
}

/// What becomes of a connection after an outcome.
pub open spec fn next_of(kind: LinkKind, outcome: Outcome) -> LinkNext {
    match outcome {
        Outcome::Opened(_) => LinkNext::Open,
        Outcome::Authenticated => LinkNext::Open,
        Outcome::Received(_) => LinkNext::Open,
        Outcome::Done => LinkNext::Open,
        Outcome::Refused => LinkNext::Finished,
        Outcome::WriteFailed(_) => if kind == LinkKind::Ssh {
            LinkNext::Finished
        } else {
            LinkNext::Open
        },
        Outcome::ResizeFailed(_) => if kind == LinkKind::Ssh {
            LinkNext::Finished
        } else {
            LinkNext::Open
        },
        Outcome::InputsClosed => LinkNext::Finished,
        Outcome::OpenFailed(_) => after_failure(kind),
        Outcome::ReadFailed(_) => after_failure(kind),
        Outcome::Closed => after_end(kind),
    }
}

/// What an input asks of a connection.
pub fn link_action(kind: LinkKind, input: ConnectionInput) -> (action: LinkAction)
    ensures
        action@ == asked(kind, input@),
{
    match input {
        ConnectionInput::Data(data) => {
            if kind == LinkKind::Telnet {
                LinkAction::Write(escape(&data))
            } else {
                LinkAction::Write(data)
            }
        },
        ConnectionInput::Resize { cols, rows } => {
            match kind {
                LinkKind::Telnet => LinkAction::Write(
                    encode_window_size(MESSAGE_LIMIT, cols, rows),
                ),
                LinkKind::Serial => LinkAction::Nothing,
                _ => LinkAction::Resize { cols, rows },
            }
        },
        _ => LinkAction::Nothing,
    }
}

/// The error event with the given words before its reason.
fn error_with(words: &str, reason: &String) -> (event: ConnectionEvent)
    ensures
        event@ == Event::Error(words@ + reason@),
{
    ConnectionEvent::Error(String::from_str(words).concat(reason.as_str()))
}

/// The event that carries no bytes.
fn no_data() -> (event: ConnectionEvent)
    ensures
        event@ == Event::Data(Seq::empty()),
{
    ConnectionEvent::Data(Vec::new())
}

/// What the user interface is told of an outcome.
fn tell(kind: LinkKind, outcome: LinkOutcome) -> (event: Option<ConnectionEvent>)
    ensures
        event_view(event) == told(kind, outcome@),
{
    match outcome {
        LinkOutcome::Opened(channel) => Some(ConnectionEvent::Connected(channel)),
        LinkOutcome::OpenFailed(e) => {
            let words = match kind {
                LinkKind::Ssh => "",
                LinkKind::Telnet => "Telnet Connect Error: ",
                LinkKind::Serial => "Serial Port Error: ",
                LinkKind::Local => "",
            };
            Some(error_with(words, &e))
        },
        LinkOutcome::Authenticated => Some(
            ConnectionEvent::Data(crate::text::text_bytes("Authenticated...\n")),
        ),
        LinkOutcome::Refused => Some(ConnectionEvent::Error(String::from_str("Auth failed"))),
        LinkOutcome::Received(data) => {
            if kind == LinkKind::Telnet && data.len() == 0 {
                None
            } else {
                Some(ConnectionEvent::Data(data))
            }
        },
        LinkOutcome::ReadFailed(e) => {
            if kind == LinkKind::Serial {
                Some(error_with("Serial read error: ", &e))
            } else {
                Some(ConnectionEvent::Disconnected)
            }
        },
        LinkOutcome::Closed => Some(ConnectionEvent::Disconnected),
        LinkOutcome::Done => Some(no_data()),
        LinkOutcome::WriteFailed(e) => {
            if kind == LinkKind::Ssh {
                Some(error_with("Send Error: ", &e))
            } else {
                Some(no_data())
            }
        },
        LinkOutcome::ResizeFailed(e) => {
            if kind == LinkKind::Ssh {
                Some(error_with("Resize Error: ", &e))
            } else {
                Some(no_data())
            }
        },
        LinkOutcome::InputsClosed => {
            if kind == LinkKind::Ssh {
                Some(ConnectionEvent::Disconnected)
            } else {
                None
            }
        },
    }
}

/// What becomes of a connection after an outcome.
fn follow(kind: LinkKind, outcome: &LinkOutcome) -> (next: LinkNext)
    ensures
        next == next_of(kind, outcome@),
{
    let failed = if kind == LinkKind::Ssh {
        LinkNext::Finished
    } else {
        LinkNext::Reopen
    };
    let ended = if kind == LinkKind::Serial {
        LinkNext::Finished
    } else {
        failed
    };
    let lost = if kind == LinkKind::Ssh {
        LinkNext::Finished
    } else {
        LinkNext::Open
    };
    match outcome {
        LinkOutcome::Opened(_) => LinkNext::Open,
        LinkOutcome::Authenticated => LinkNext::Open,
        LinkOutcome::Received(_) => LinkNext::Open,
        LinkOutcome::Done => LinkNext::Open,
        LinkOutcome::Refused => LinkNext::Finished,
        LinkOutcome::WriteFailed(_) => lost,
        LinkOutcome::ResizeFailed(_) => lost,
        LinkOutcome::InputsClosed => LinkNext::Finished,
        LinkOutcome::OpenFailed(_) => failed,
        LinkOutcome::ReadFailed(_) => failed,
        LinkOutcome::Closed => ended,
    }
}

/// What an outcome leads to.
pub fn link_step(kind: LinkKind, outcome: LinkOutcome) -> (step: LinkStep)
    ensures
        event_view(step.event) == told(kind, outcome@),
        step.next == next_of(kind, outcome@),
{
    let next = follow(kind, &outcome);
    let event = tell(kind, outcome);
    LinkStep { event, next }
}

/// A serial session ends when the port has, and when no more inputs can come; the port is not opened
/// a second time.
pub proof fn serial_sessions_end(outcome: Outcome)
    requires
        outcome is Closed || outcome is InputsClosed,
    ensures
        next_of(LinkKind::Serial, outcome) == LinkNext::Finished,
        outcome is Closed ==> told(LinkKind::Serial, outcome) == Some(Event::Disconnected),
{
}

/// What is typed reaches the process unchanged, whatever carries it: directly, or as the data that
/// a Telnet receiver reads out of the stream.
pub proof fn typed_bytes_arrive(kind: LinkKind, data: Seq<u8>)
    ensures
        match asked(kind, Input::Data(data)) {
            Ask::Write(bytes) => if kind == LinkKind::Telnet {
                crate::connection::telnet::unescaped(bytes) == data
            } else {
                bytes == data
            },
            _ => false,
        },
{
    crate::connection::telnet::escaped_data_reads_back(data);
}

} // verus!
