//! The session relay: what one client connection does, as a state machine.
//!
//! The machine makes no I/O of its own. Each step takes the outcome of the
//! last action (an event) and names the next action; whoever drives the
//! session performs it and reports back.

use vstd::prelude::*;

use crate::error::RWhoisError;
use crate::query::{parse_line, routable, suffix_of, tokens};
use crate::routes::{RoutingTable, UPSTREAM_PORT};

verus! {

/// Where a session stands.
#[derive(Debug)]
pub enum Phase {
    /// Waiting for the next line from the client.
    Reading,
    /// Waiting for the upstream connection that will answer `identifier`.
    Connecting { identifier: String },
    /// Waiting for the query to be written upstream.
    Forwarding,
    /// Waiting for the next bytes from upstream.
    Relaying,
    /// Waiting for upstream bytes to be written to the client.
    Delivering,
    /// Ended: nothing more is read or written.
    Closed,
}

/// The outcome of the last action, as the driver saw it.
#[derive(Clone, Debug, PartialEq, Eq)]
pub enum Event {
    /// A line from the client, without its terminator.
    Line(String),
    /// The client's bytes could not be framed as a line.
    FramingError,
    /// The client closed its side.
    EndOfStream,
    /// The upstream connection is open.
    Connected,
    /// The upstream connection could not be opened.
    ConnectFailed,
    /// The last write went through.
    Sent,
    /// The last write failed.
    SendFailed,
    /// Bytes read from upstream.
    UpstreamData(Vec<u8>),
    /// Upstream closed its side.
    UpstreamClosed,
    /// Reading from upstream failed.
    CopyFailed,
}

/// What the driver is to do next.
#[derive(Clone, Debug, PartialEq, Eq)]
pub enum Action {
    /// Drop the upstream connection, if one is open, and read the next line
    /// from the client.
    ReadLine,
    /// Open a connection to `host` on `port`.
    Connect { host: String, port: u16 },
    /// Write these characters to the upstream connection.
    SendUpstream(String),
    /// Read the next bytes from the upstream connection.
    ReadUpstream,
    /// Write these bytes, unchanged, to the client.
    SendClient(Vec<u8>),
    /// Write `message` to the client, then end the session with `error`.
    Reject { message: String, error: RWhoisError },
    /// End the session cleanly.
    Finish,
}

/// A phase, with its text as characters.
pub enum PhaseModel {
    Reading,
    Connecting(Seq<char>),
    Forwarding,
    Relaying,
    Delivering,
    Closed,
}

/// An event, with its text as characters and its data as bytes.
pub enum EventModel {
    Line(Seq<char>),
    FramingError,
    EndOfStream,
    Connected,
    ConnectFailed,
    Sent,
    SendFailed,
    UpstreamData(Seq<u8>),
    UpstreamClosed,
    CopyFailed,
}

/// An action, with its text as characters and its data as bytes.
pub enum ActionModel {
    ReadLine,
    Connect(Seq<char>, u16),
    SendUpstream(Seq<char>),
    ReadUpstream,
    SendClient(Seq<u8>),
    Reject(Seq<char>, RWhoisError),
    Finish,
}

impl View for Phase {
    type V = PhaseModel;

    open spec fn view(&self) -> PhaseModel {
        match self {
            Phase::Reading => PhaseModel::Reading,
            Phase::Connecting { identifier } => PhaseModel::Connecting(identifier@),
            Phase::Forwarding => PhaseModel::Forwarding,
            Phase::Relaying => PhaseModel::Relaying,
            Phase::Delivering => PhaseModel::Delivering,
            Phase::Closed => PhaseModel::Closed,
        }
    }
}

impl View for Event {
    type V = EventModel;

    open spec fn view(&self) -> EventModel {
        match self {
            Event::Line(l) => EventModel::Line(l@),
            Event::FramingError => EventModel::FramingError,
            Event::EndOfStream => EventModel::EndOfStream,
            Event::Connected => EventModel::Connected,
            Event::ConnectFailed => EventModel::ConnectFailed,
            Event::Sent => EventModel::Sent,
            Event::SendFailed => EventModel::SendFailed,
            Event::UpstreamData(b) => EventModel::UpstreamData(b@),
            Event::UpstreamClosed => EventModel::UpstreamClosed,
            Event::CopyFailed => EventModel::CopyFailed,
        }
    }
}

impl View for Action {
    type V = ActionModel;

    open spec fn view(&self) -> ActionModel {
        match self {
            Action::ReadLine => ActionModel::ReadLine,
            Action::Connect { host, port } => ActionModel::Connect(host@, *port),
            Action::SendUpstream(r) => ActionModel::SendUpstream(r@),
            Action::ReadUpstream => ActionModel::ReadUpstream,
            Action::SendClient(b) => ActionModel::SendClient(b@),
            Action::Reject { message, error } => ActionModel::Reject(message@, *error),
            Action::Finish => ActionModel::Finish,
        }
    }
}

/// The text sent to a client whose query has no route.
pub open spec fn rejection() -> Seq<char> {
    "Invalid domain name"@
}

/// The line terminator of a request upstream.
pub open spec fn crlf() -> Seq<char> {
    "\r\n"@
}

/// Whether a session in phase `p` waits for an event such as `e`.
pub open spec fn awaits(p: PhaseModel, e: EventModel) -> bool {
    match p {
        PhaseModel::Reading => e is Line || e is FramingError || e is EndOfStream,
        PhaseModel::Connecting(_) => e is Connected || e is ConnectFailed,
        PhaseModel::Forwarding => e is Sent || e is SendFailed,
        PhaseModel::Relaying => e is UpstreamData || e is UpstreamClosed || e is CopyFailed,
        PhaseModel::Delivering => e is Sent || e is SendFailed,
        PhaseModel::Closed => false,
    }
}

/// What a line read in the `Reading` phase leads to: nothing for a line that
/// is no query, a connection to the routed upstream, or a rejection that ends
/// the session.
pub open spec fn on_line(t: Map<Seq<char>, Seq<char>>, l: Seq<char>) -> (PhaseModel, ActionModel) {
    if !routable(l) {
        (PhaseModel::Reading, ActionModel::ReadLine)
    } else if t.contains_key(suffix_of(l)) {
        (
            PhaseModel::Connecting(tokens(l)[0]),
            ActionModel::Connect(t[suffix_of(l)], UPSTREAM_PORT),
        )
    } else {
        (PhaseModel::Closed, ActionModel::Reject(rejection(), RWhoisError::InvalidDomainError))
    }
}

/// One step of a session over table `t`: the next phase and action after
/// event `e` in phase `p`, for the events that `p` awaits. Every failure but
/// a rejection returns the session to `Reading`.
pub open spec fn transition(t: Map<Seq<char>, Seq<char>>, p: PhaseModel, e: EventModel) -> (
    PhaseModel,
    ActionModel,
) {
    match p {
        PhaseModel::Reading => match e {
            EventModel::Line(l) => on_line(t, l),
            EventModel::EndOfStream => (PhaseModel::Closed, ActionModel::Finish),
            _ => (PhaseModel::Reading, ActionModel::ReadLine),
        },
        PhaseModel::Connecting(id) => match e {
            EventModel::Connected => (PhaseModel::Forwarding, ActionModel::SendUpstream(id + crlf())),
            _ => (PhaseModel::Reading, ActionModel::ReadLine),
        },
        PhaseModel::Forwarding => match e {
            EventModel::Sent => (PhaseModel::Relaying, ActionModel::ReadUpstream),
            _ => (PhaseModel::Reading, ActionModel::ReadLine),
        },
        PhaseModel::Relaying => match e {
            EventModel::UpstreamData(b) => (PhaseModel::Delivering, ActionModel::SendClient(b)),
            _ => (PhaseModel::Reading, ActionModel::ReadLine),
        },
        PhaseModel::Delivering => match e {
            EventModel::Sent => (PhaseModel::Relaying, ActionModel::ReadUpstream),
            _ => (PhaseModel::Reading, ActionModel::ReadLine),
        },
        PhaseModel::Closed => (PhaseModel::Closed, ActionModel::Finish),
    }
}

/// One client connection's session.
#[derive(Debug)]
pub struct Session {
    phase: Phase,
}

impl View for Session {
    type V = PhaseModel;

    closed spec fn view(&self) -> PhaseModel {
        self.phase@
    }
}

impl Session {
    /// A session that has just been accepted; its first action is to read a
    /// line.
    pub fn new() -> (r: Session)
        ensures
            r@ == PhaseModel::Reading,
    {
        Session { phase: Phase::Reading }
    }

    /// Whether the session has ended.
    pub fn is_closed(&self) -> (r: bool)
        ensures
            r == (self@ is Closed),
    {
        match self.phase {
            Phase::Closed => true,
            _ => false,
        }
    }

    /// Whether the session waits for an event such as `e`.
    pub fn awaits(&self, e: &Event) -> (r: bool)
        ensures
            r == awaits(self@, e@),
    {
        match self.phase {
            Phase::Reading => match e {
                Event::Line(_) | Event::FramingError | Event::EndOfStream => true,
                _ => false,
            },
            Phase::Connecting { .. } => match e {
                Event::Connected | Event::ConnectFailed => true,
                _ => false,
            },
            Phase::Forwarding | Phase::Delivering => match e {
                Event::Sent | Event::SendFailed => true,
                _ => false,
            },
            Phase::Relaying => match e {
                Event::UpstreamData(_) | Event::UpstreamClosed | Event::CopyFailed => true,
                _ => false,
            },
            Phase::Closed => false,
        }
    }

    /// Takes the outcome of the last action and names the next one.
    pub fn step(&mut self, table: &RoutingTable, event: Event) -> (a: Action)
        requires
            awaits(old(self)@, event@),
        ensures
            (final(self)@, a@) == transition(table@, old(self)@, event@),
    {
        match event {
            Event::Line(l) => self.on_line(table, &l),
            Event::EndOfStream => {
                self.phase = Phase::Closed;
                Action::Finish
            },
            Event::Connected => {
                let mut request = String::new();
                match &self.phase {
                    Phase::Connecting { identifier } => {
                        request = identifier.clone().concat("\r\n");
                    },
                    _ => {},
                }
                self.phase = Phase::Forwarding;
                Action::SendUpstream(request)
            },
            Event::Sent => {
                self.phase = Phase::Relaying;
                Action::ReadUpstream
            },
            Event::UpstreamData(b) => {
                self.phase = Phase::Delivering;
                Action::SendClient(b)
            },
            _ => {
                self.phase = Phase::Reading;
                Action::ReadLine
            },
        }
    }

    /// The step for a line read in the `Reading` phase.
    fn on_line(&mut self, table: &RoutingTable, line: &str) -> (a: Action)
        requires
            old(self)@ is Reading,
        ensures
            (final(self)@, a@) == on_line(table@, line@),
    {
        match parse_line(line) {
            None => Action::ReadLine,
            Some(q) => match table.resolve(&q) {
                Ok(host) => {
                    self.phase = Phase::Connecting { identifier: q.identifier };
                    Action::Connect { host, port: UPSTREAM_PORT }
                },
                Err(error) => {
                    self.phase = Phase::Closed;
                    Action::Reject { message: "Invalid domain name".to_owned(), error }
                },
            },
        }
    }
}

} // verus!
