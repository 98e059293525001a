//! The supervision of one audit: what to do with each thing that happens
//! while a capture process runs on behalf of a client.
//!
//! A [`Session`] performs nothing itself. Its owner starts the capture
//! process, reads its output, decodes messages, locates requests and talks
//! to the client; after each of these it tells the session what happened
//! ([`SessionEvent`]) and does what the session answers ([`SessionAction`]).

use vstd::prelude::*;
use crate::analyzer::{classify, domain_of, extract_domain, report};
use crate::text::{is_prefix, starts_with, trim, trimmed};
use crate::types::{GeoData, GeoDataView, NodeMessage, NodeMessageView, RawTraffic,
    RawTrafficView, TrafficUpdate, TrafficUpdateView};

verus! {

/// The command by which a client starts an audit; it carries the target URL.
pub const START_COMMAND: &'static str = "start-tracking";

/// The event by which a status text goes to the client.
pub const STATUS_EVENT: &'static str = "status";

/// The event by which an update goes to the client.
pub const TRAFFIC_EVENT: &'static str = "traffic-update";

/// Where a session stands. The last three states are final.
#[derive(Debug, Clone, Copy, PartialEq, Eq, Structural)]
pub enum SessionState {
    /// The capture process has not been started yet.
    Created,
    /// The capture process runs and its output is read.
    Running,
    /// The output of the capture process has ended.
    Completed,
    /// The capture process could not be started.
    Failed,
    /// The client left before the capture process had finished.
    Cancelled,
}

impl SessionState {
    /// The state is final: no event leads out of it.
    pub open spec fn is_final(self) -> bool {
        self == SessionState::Completed || self == SessionState::Failed || self
            == SessionState::Cancelled
    }
}

/// Something that happened to a session.
#[derive(Debug)]
pub enum SessionEvent {
    /// The capture process was started.
    Spawned,
    /// The capture process could not be started.
    SpawnFailed,
    /// The capture process wrote this line.
    Line { text: String },
    /// A line was decoded; `None` where it holds no message.
    Decoded { message: Option<NodeMessage> },
    /// The request that waited for its place has been located.
    Located { location: GeoData },
    /// The output of the capture process has ended.
    OutputEnded,
    /// The client has closed the connection.
    Disconnected,
}

/// View of a [`SessionEvent`].
pub enum SessionEventView {
    Spawned,
    SpawnFailed,
    Line { text: Seq<char> },
    Decoded { message: Option<NodeMessageView> },
    Located { location: GeoDataView },
    OutputEnded,
    Disconnected,
}

impl View for SessionEvent {
    type V = SessionEventView;

    open spec fn view(&self) -> SessionEventView {
        match self {
            SessionEvent::Spawned => SessionEventView::Spawned,
            SessionEvent::SpawnFailed => SessionEventView::SpawnFailed,
            SessionEvent::Line { text } => SessionEventView::Line { text: text@ },
            SessionEvent::Decoded { message } => SessionEventView::Decoded {
                message: match message {
                    Some(m) => Some(m@),
                    None => None,
                },
            },
            SessionEvent::Located { location } => SessionEventView::Located {
                location: location@,
            },
            SessionEvent::OutputEnded => SessionEventView::OutputEnded,
            SessionEvent::Disconnected => SessionEventView::Disconnected,
        }
    }
}

/// What the owner of a session is to do next.
#[derive(Debug)]
pub enum SessionAction {
    /// Start the capture process with the target URL as its only argument,
    /// then report `Spawned` or `SpawnFailed`.
    Spawn,
    /// Read the next line of the capture process, then report `Line`, or
    /// `OutputEnded` where there is none.
    ReadLine,
    /// Decode this line as a message, then report `Decoded`.
    Decode { line: String },
    /// Find the place of this URL, then report `Located`.
    Locate { url: String },
    /// Send this text to the client as a [`STATUS_EVENT`], then read on.
    EmitStatus { text: String },
    /// Send this update to the client as a [`TRAFFIC_EVENT`], then read on.
    EmitTraffic { update: TrafficUpdate },
    /// Wait for the capture process to exit, whatever its exit code; the
    /// session has ended normally.
    AwaitExit,
    /// Kill the capture process and release it; the session is cancelled.
    Terminate,
    /// Report to the caller that the session could not be set up.
    Abort,
    /// Nothing is left to do.
    Stop,
}

/// View of a [`SessionAction`].
pub enum SessionActionView {
    Spawn,
    ReadLine,
    Decode { line: Seq<char> },
    Locate { url: Seq<char> },
    EmitStatus { text: Seq<char> },
    EmitTraffic { update: TrafficUpdateView },
    AwaitExit,
    Terminate,
    Abort,
    Stop,
}

impl View for SessionAction {
    type V = SessionActionView;

    open spec fn view(&self) -> SessionActionView {
        match self {
            SessionAction::Spawn => SessionActionView::Spawn,
            SessionAction::ReadLine => SessionActionView::ReadLine,
            SessionAction::Decode { line } => SessionActionView::Decode { line: line@ },
            SessionAction::Locate { url } => SessionActionView::Locate { url: url@ },
            SessionAction::EmitStatus { text } => SessionActionView::EmitStatus { text: text@ },
            SessionAction::EmitTraffic { update } => SessionActionView::EmitTraffic {
                update: update@,
            },
            SessionAction::AwaitExit => SessionActionView::AwaitExit,
            SessionAction::Terminate => SessionActionView::Terminate,
            SessionAction::Abort => SessionActionView::Abort,
            SessionAction::Stop => SessionActionView::Stop,
        }
    }
}

/// One audit of one target URL.
#[derive(Debug)]
pub struct Session {
    /// The URL that is audited.
    pub target_url: String,
    /// The domain of the target URL, fixed when the session is made.
    pub main_domain: String,
    /// Where the session stands.
    pub state: SessionState,
    /// A request that has been received and waits for its place.
    pub pending: Option<RawTraffic>,
}

/// View of a [`Session`].
pub struct SessionView {
    pub target_url: Seq<char>,
    pub main_domain: Seq<char>,
    pub state: SessionState,
    pub pending: Option<RawTrafficView>,
}

impl View for Session {
    type V = SessionView;

    open spec fn view(&self) -> SessionView {
        SessionView {
            target_url: self.target_url@,
            main_domain: self.main_domain@,
            state: self.state,
            pending: match self.pending {
                Some(data) => Some(data@),
                None => None,
            },
        }
    }
}

impl SessionView {
    /// The main domain is the domain of the target URL, and a request waits
    /// for its place only while the session runs.
    pub open spec fn wf(self) -> bool {
        &&& self.main_domain == domain_of(self.target_url)
        &&& self.pending is Some ==> self.state == SessionState::Running
    }

    /// The same session in another state, with nothing pending.
    pub open spec fn settled(self, state: SessionState) -> SessionView {
        SessionView { state: state, pending: None, ..self }
    }
}

/// A line of the capture process belongs to the protocol: without the white
/// space around it, it begins with an opening brace.
pub open spec fn is_protocol_line(line: Seq<char>) -> bool {
    is_prefix("{"@, trimmed(line))
}

/// The status text by which an error of the capture process is reported.
pub open spec fn error_status(message: Seq<char>) -> Seq<char> {
    "Error: "@ + message
}

/// A session as it is made for `target_url`.
pub open spec fn initial(target_url: Seq<char>) -> SessionView {
    SessionView {
        target_url: target_url,
        main_domain: domain_of(target_url),
        state: SessionState::Created,
        pending: None,
    }
}

/// What a running session with nothing pending makes of an event.
pub open spec fn on_idle(s: SessionView, e: SessionEventView) -> (SessionView, SessionActionView) {
    match e {
        SessionEventView::Line { text } => if is_protocol_line(text) {
            (s, SessionActionView::Decode { line: text })
        } else {
            (s, SessionActionView::ReadLine)
        },
        SessionEventView::Decoded { message: Some(NodeMessageView::Status { message }) } => (
            s,
            SessionActionView::EmitStatus { text: message },
        ),
        SessionEventView::Decoded { message: Some(NodeMessageView::Error { message }) } => (
            s,
            SessionActionView::EmitStatus { text: error_status(message) },
        ),
        SessionEventView::Decoded { message: Some(NodeMessageView::Traffic { data }) } => (
            SessionView { pending: Some(data), ..s },
            SessionActionView::Locate { url: data.url },
        ),
        _ => (s, SessionActionView::ReadLine),
    }
}

/// The state that follows `s` on event `e`, and the action that is due.
///
/// A session that has been made waits for its process; once this runs, lines
/// are read one by one. A line outside the protocol, or one that cannot be
/// decoded, is passed over. A status message is sent on as it is, an error
/// message as a status that begins with `Error: `. A request waits until its
/// place is known and is then classified and sent on. The end of the output
/// completes the session, the client's leaving cancels it, and a final state
/// is never left. An event that the session does not wait for changes
/// nothing and is answered by the action that is still due.
pub open spec fn transition(s: SessionView, e: SessionEventView) -> (
    SessionView,
    SessionActionView,
) {
    match s.state {
        SessionState::Created => match e {
            SessionEventView::Spawned => (
                SessionView { state: SessionState::Running, ..s },
                SessionActionView::ReadLine,
            ),
            SessionEventView::SpawnFailed => (
                SessionView { state: SessionState::Failed, ..s },
                SessionActionView::Abort,
            ),
            SessionEventView::Disconnected => (
                SessionView { state: SessionState::Cancelled, ..s },
                SessionActionView::Stop,
            ),
            _ => (s, SessionActionView::Spawn),
        },
        SessionState::Running => match e {
            SessionEventView::OutputEnded => (
                s.settled(SessionState::Completed),
                SessionActionView::AwaitExit,
            ),
            SessionEventView::Disconnected => (
                s.settled(SessionState::Cancelled),
                SessionActionView::Terminate,
            ),
            _ => match s.pending {
                Some(data) => match e {
                    SessionEventView::Located { location } => (
                        SessionView { pending: None, ..s },
                        SessionActionView::EmitTraffic {
                            update: report(data, s.main_domain, location),
                        },
                    ),
                    _ => (s, SessionActionView::Locate { url: data.url }),
                },
                None => on_idle(s, e),
            },
        },
        _ => (s, SessionActionView::Stop),
    }
}

/// Whether `line` belongs to the protocol of the capture process.
pub fn accepts_line(line: &str) -> (accepted: bool)
    ensures
        accepted == is_protocol_line(line@),
{
    starts_with(trim(line), "{")
}

/// The status text for an error that the capture process reports.
pub fn error_text(message: &str) -> (text: String)
    ensures
        text@ == error_status(message@),
{
    let mut text = "Error: ".to_string();
    text.append(message);
    text
}

impl Session {
    /// A session for `target_url`, not yet started. The main domain is
    /// taken from the target URL here and stays as it is.
    pub fn new(target_url: String) -> (session: Session)
        ensures
            session@ == initial(target_url@),
            session@.wf(),
    {
        let main_domain = extract_domain(target_url.as_str());
        Session { target_url, main_domain, state: SessionState::Created, pending: None }
    }

    /// Takes note of `event` and says what is to be done next.
    pub fn step(&mut self, event: SessionEvent) -> (action: SessionAction)
        ensures
            (final(self)@, action@) == transition(old(self)@, event@),
            old(self)@.wf() ==> final(self)@.wf(),
    {
        match self.state {
            SessionState::Created => match event {
                SessionEvent::Spawned => {
                    self.state = SessionState::Running;
                    SessionAction::ReadLine
                },
                SessionEvent::SpawnFailed => {
                    self.state = SessionState::Failed;
                    SessionAction::Abort
                },
                SessionEvent::Disconnected => {
                    self.state = SessionState::Cancelled;
                    SessionAction::Stop
                },
                _ => SessionAction::Spawn,
            },
            SessionState::Running => match event {
                SessionEvent::OutputEnded => {
                    self.state = SessionState::Completed;
                    self.pending = None;
                    SessionAction::AwaitExit
                },
                SessionEvent::Disconnected => {
                    self.state = SessionState::Cancelled;
                    self.pending = None;
                    SessionAction::Terminate
                },
                other => match self.pending.take() {
                    Some(data) => match other {
                        SessionEvent::Located { location } => SessionAction::EmitTraffic {
                            update: classify(&data, self.main_domain.as_str(), location),
                        },
                        _ => {
                            let url = data.url.clone();
                            self.pending = Some(data);
                            SessionAction::Locate { url }
                        },
                    },
                    None => match other {
                        SessionEvent::Line { text } => if accepts_line(text.as_str()) {
                            SessionAction::Decode { line: text }
                        } else {
                            SessionAction::ReadLine
                        },
                        SessionEvent::Decoded { message: Some(NodeMessage::Status { message }) } => {
                            SessionAction::EmitStatus { text: message }
                        },
                        SessionEvent::Decoded { message: Some(NodeMessage::Error { message }) } => {
                            SessionAction::EmitStatus { text: error_text(message.as_str()) }
                        },
                        SessionEvent::Decoded { message: Some(NodeMessage::Traffic { data }) } => {
                            let url = data.url.clone();
                            self.pending = Some(data);
                            SessionAction::Locate { url }
                        },
                        _ => SessionAction::ReadLine,
                    },
                },
            },
            _ => SessionAction::Stop,
        }
    }
}

/// A final state is never left, and in it nothing is left to do.
pub proof fn lemma_final_states_absorb(s: SessionView, e: SessionEventView)
    requires
        s.state.is_final(),
    ensures
        transition(s, e) == (s, SessionActionView::Stop),
{
}

/// The target URL and the main domain of a session never change.
pub proof fn lemma_main_domain_is_fixed(s: SessionView, e: SessionEventView)
    ensures
        transition(s, e).0.target_url == s.target_url,
        transition(s, e).0.main_domain == s.main_domain,
{
}

/// Every transition keeps a session well formed.
pub proof fn lemma_transition_keeps_wf(s: SessionView, e: SessionEventView)
    requires
        s.wf(),
    ensures
        transition(s, e).0.wf(),
{
}

/// A session moves forward only: from `Created` to `Running`, `Failed` or
/// `Cancelled`, and from `Running` to `Completed` or `Cancelled`.
pub proof fn lemma_states_move_forward(s: SessionView, e: SessionEventView)
    ensures
        ({
            let next = transition(s, e).0.state;
            ||| next == s.state
            ||| s.state == SessionState::Created && (next == SessionState::Running || next
                == SessionState::Failed || next == SessionState::Cancelled)
            ||| s.state == SessionState::Running && (next == SessionState::Completed || next
                == SessionState::Cancelled)
        }),
{
}

/// A request that a running session receives is answered by exactly one
/// update, whatever the checks find: the session asks for the place of the
/// request, and once it has it, sends the report and waits for lines again.
pub proof fn lemma_request_is_reported(
    s: SessionView,
    data: RawTrafficView,
    location: GeoDataView,
)
    requires
        s.state == SessionState::Running,
        s.pending is None,
    ensures
        ({
            let received = SessionEventView::Decoded {
                message: Some(NodeMessageView::Traffic { data }),
            };
            let (waiting, first) = transition(s, received);
            let (after, second) = transition(waiting, SessionEventView::Located { location });
            &&& first == SessionActionView::Locate { url: data.url }
            &&& second == SessionActionView::EmitTraffic {
                update: report(data, s.main_domain, location),
            }
            &&& after == s
        }),
{
}

/// An update is sent only for a request that waited for its place, and the
/// request waits no longer afterwards.
pub proof fn lemma_update_answers_request(s: SessionView, e: SessionEventView)
    requires
        transition(s, e).1 is EmitTraffic,
    ensures
        s.state == SessionState::Running,
        e is Located,
        s.pending is Some,
        transition(s, e).0.pending is None,
        transition(s, e).1 == (SessionActionView::EmitTraffic {
            update: report(s.pending->0, s.main_domain, e->location),
        }),
{
}

/// A line outside the protocol, or one that holds no message, is passed
/// over: the session stays as it is and the next line is read.
pub proof fn lemma_bad_lines_are_skipped(s: SessionView, text: Seq<char>)
    requires
        s.state == SessionState::Running,
        s.pending is None,
    ensures
        !is_protocol_line(text) ==> transition(s, SessionEventView::Line { text }) == (
            s,
            SessionActionView::ReadLine,
        ),
        transition(s, SessionEventView::Decoded { message: None }) == (
            s,
            SessionActionView::ReadLine,
        ),
{
}

/// When the client leaves a running session, the session is cancelled and
/// its capture process is to be killed, whatever the session waited for.
pub proof fn lemma_disconnect_terminates(s: SessionView)
    requires
        s.state == SessionState::Running,
    ensures
        transition(s, SessionEventView::Disconnected) == (
            s.settled(SessionState::Cancelled),
            SessionActionView::Terminate,
        ),
{
}

} // verus!
