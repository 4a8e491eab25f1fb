//! One external MCP server: its requests in progress, and when it ends.
//!
//! The process itself is run by the caller, who tells what happened and is told what
//! to do. A request is known by a ticket, a number that the caller chose for it.

use crate::string_map::StringMap;
use crate::text::{self, join, trim};
use crate::worker::{self, StdioBusWorker};
use std::collections::VecDeque;
use vstd::prelude::*;
use vstd::utf8;

verus! {

/// What can go wrong between the proxy and a server.
#[derive(Debug)]
pub enum McpProxyError {
    /// Reading or writing failed.
    Io(String),
    /// JSON could not be read or written.
    Json(String),
    /// A session identifier does not name a server.
    InvalidSessionId(String),
    /// There is no such server.
    ServerNotFound(String),
    /// The command could not be started, and why.
    SpawnFailed(String, String),
    /// The exchange with the server failed.
    ServerCommunication(String),
    /// The process of the server ended.
    ProcessExited,
    /// The server did not answer in time.
    Timeout,
    /// The server is being shut down.
    Shutdown,
}

/// What an [`McpProxyError`] holds.
#[verifier::ext_equal]
pub enum McpProxyErrorView {
    Io(Seq<char>),
    Json(Seq<char>),
    InvalidSessionId(Seq<char>),
    ServerNotFound(Seq<char>),
    SpawnFailed(Seq<char>, Seq<char>),
    ServerCommunication(Seq<char>),
    ProcessExited,
    Timeout,
    Shutdown,
}

impl View for McpProxyError {
    type V = McpProxyErrorView;

    open spec fn view(&self) -> McpProxyErrorView {
        match self {
            McpProxyError::Io(text) => McpProxyErrorView::Io(text@),
            McpProxyError::Json(text) => McpProxyErrorView::Json(text@),
            McpProxyError::InvalidSessionId(text) => McpProxyErrorView::InvalidSessionId(text@),
            McpProxyError::ServerNotFound(text) => McpProxyErrorView::ServerNotFound(text@),
            McpProxyError::SpawnFailed(command, text) => McpProxyErrorView::SpawnFailed(
                command@,
                text@,
            ),
            McpProxyError::ServerCommunication(text) => McpProxyErrorView::ServerCommunication(
                text@,
            ),
            McpProxyError::ProcessExited => McpProxyErrorView::ProcessExited,
            McpProxyError::Timeout => McpProxyErrorView::Timeout,
            McpProxyError::Shutdown => McpProxyErrorView::Shutdown,
        }
    }
}

impl McpProxyErrorView {
    /// The text that tells the error to a reader.
    pub open spec fn text(self) -> Seq<char> {
        match self {
            McpProxyErrorView::Io(text) => "I/O error: "@ + text,
            McpProxyErrorView::Json(text) => "JSON error: "@ + text,
            McpProxyErrorView::InvalidSessionId(text) => "Invalid session ID format: "@ + text,
            McpProxyErrorView::ServerNotFound(text) => "Server not found: "@ + text,
            McpProxyErrorView::SpawnFailed(command, text) => "Failed to spawn server '"@ + command
                + "': "@ + text,
            McpProxyErrorView::ServerCommunication(text) => "Server communication error: "@ + text,
            McpProxyErrorView::ProcessExited => "Server process exited"@,
            McpProxyErrorView::Timeout => "Request timeout"@,
            McpProxyErrorView::Shutdown => "Shutdown requested"@,
        }
    }
}

impl McpProxyError {
    /// The text that tells the error to a reader.
    pub fn to_string(&self) -> (r: String)
        ensures
            r@ == self@.text(),
    {
        match self {
            McpProxyError::Io(text) => join("I/O error: ", text.as_str()),
            McpProxyError::Json(text) => join("JSON error: ", text.as_str()),
            McpProxyError::InvalidSessionId(text) => join(
                "Invalid session ID format: ",
                text.as_str(),
            ),
            McpProxyError::ServerNotFound(text) => join("Server not found: ", text.as_str()),
            McpProxyError::SpawnFailed(command, text) => {
                let mut out: String = join("Failed to spawn server '", command.as_str());
                out.append("': ");
                out.append(text.as_str());
                out
            },
            McpProxyError::ServerCommunication(text) => join(
                "Server communication error: ",
                text.as_str(),
            ),
            McpProxyError::ProcessExited => "Server process exited".to_owned(),
            McpProxyError::Timeout => "Request timeout".to_owned(),
            McpProxyError::Shutdown => "Shutdown requested".to_owned(),
        }
    }
}

/// How an external MCP server is started.
#[derive(Debug)]
pub struct ServerConfig {
    /// The command to run.
    pub command: String,
    /// The arguments of the command.
    pub args: Vec<String>,
    /// The environment of the command.
    pub env: StringMap<String>,
    /// The directory in which the command is run.
    pub cwd: Option<String>,
}

/// The reply to a request: the answer of the server, or why there is none.
pub type Reply = Result<Vec<u8>, McpProxyError>;

/// What a [`Reply`] holds.
pub open spec fn reply_view(reply: Reply) -> Result<Seq<u8>, McpProxyErrorView> {
    match reply {
        Ok(answer) => Ok(answer@),
        Err(error) => Err(error@),
    }
}

/// What a list of replies holds.
pub open spec fn replies_view(replies: Seq<(u64, Reply)>) -> Seq<
    (u64, Result<Seq<u8>, McpProxyErrorView>),
> {
    replies.map_values(|entry: (u64, Reply)| (entry.0, reply_view(entry.1)))
}

/// How starting the process went.
#[derive(Debug)]
pub enum SpawnOutcome {
    /// The process could not be started.
    Failed(String),
    /// The process was started, with or without its three pipes.
    Started { stdin: bool, stdout: bool, stderr: bool },
}

/// What the loop of a server is waiting for.
#[derive(Debug, Clone, Copy, PartialEq, Eq, Structural)]
pub enum IoPhase {
    /// The next round.
    Starting,
    /// A request or a line.
    Waiting,
    /// A request having been written.
    Writing(u64),
    /// Nothing any more.
    Stopped,
}

/// What happened to a server.
#[derive(Debug)]
pub enum IoEvent {
    /// A round begins, also because the server was told to end.
    Round,
    /// A request came in, with its ticket and its text.
    Request(u64, Vec<u8>),
    /// The request was written, or could not be.
    Written(Result<(), String>),
    /// The server wrote a line.
    Line(String),
    /// The output of the server ended.
    Closed,
    /// Reading failed.
    Failed(String),
}

/// What an [`IoEvent`] holds.
#[verifier::ext_equal]
pub enum IoEventView {
    Round,
    Request(u64, Seq<u8>),
    Written(Result<(), Seq<char>>),
    Line(Seq<char>),
    Closed,
    Failed(Seq<char>),
}

impl View for IoEvent {
    type V = IoEventView;

    open spec fn view(&self) -> IoEventView {
        match self {
            IoEvent::Round => IoEventView::Round,
            IoEvent::Request(ticket, request) => IoEventView::Request(*ticket, request@),
            IoEvent::Written(Ok(_)) => IoEventView::Written(Ok(())),
            IoEvent::Written(Err(text)) => IoEventView::Written(Err(text@)),
            IoEvent::Line(line) => IoEventView::Line(line@),
            IoEvent::Closed => IoEventView::Closed,
            IoEvent::Failed(text) => IoEventView::Failed(text@),
        }
    }
}

/// What to do next for a server.
#[derive(Debug)]
pub enum IoAction {
    /// Wait for a request or a line.
    Wait,
    /// Write these bytes for the request, and flush: its text on a line.
    Write(u64, Vec<u8>),
    /// Give the replies, and begin the next round.
    Reply(Vec<(u64, Reply)>),
    /// Give the replies, close the input of the server and stop.
    Stop(Vec<(u64, Reply)>),
    /// Stop, with the requests in progress left without a reply.
    Abandon,
}

/// What an [`IoAction`] holds.
#[verifier::ext_equal]
pub enum IoActionView {
    Wait,
    Write(u64, Seq<u8>),
    Reply(Seq<(u64, Result<Seq<u8>, McpProxyErrorView>)>),
    Stop(Seq<(u64, Result<Seq<u8>, McpProxyErrorView>)>),
    Abandon,
}

impl View for IoAction {
    type V = IoActionView;

    open spec fn view(&self) -> IoActionView {
        match self {
            IoAction::Wait => IoActionView::Wait,
            IoAction::Write(ticket, bytes) => IoActionView::Write(*ticket, bytes@),
            IoAction::Reply(replies) => IoActionView::Reply(replies_view(replies@)),
            IoAction::Stop(replies) => IoActionView::Stop(replies_view(replies@)),
            IoAction::Abandon => IoActionView::Abandon,
        }
    }
}

/// The state of a server.
#[verifier::ext_equal]
pub struct ManagedServerView {
    pub healthy: bool,
    pub shutdown_requested: bool,
    pub pending: Seq<u64>,
    pub phase: IoPhase,
}

/// The same error for each of some requests.
pub open spec fn refusals(tickets: Seq<u64>, error: McpProxyErrorView) -> Seq<
    (u64, Result<Seq<u8>, McpProxyErrorView>),
> {
    tickets.map_values(|ticket: u64| (ticket, Err::<Seq<u8>, McpProxyErrorView>(error)))
}

impl ManagedServerView {
    /// A server that was just started.
    pub open spec fn start() -> ManagedServerView {
        ManagedServerView {
            healthy: true,
            shutdown_requested: false,
            pending: Seq::empty(),
            phase: IoPhase::Starting,
        }
    }

    /// Whether the loop is waiting for an event of this sort. A loop that waits for a
    /// request or a line may begin the next round once shutdown was requested.
    pub open spec fn expects(self, event: IoEventView) -> bool {
        match self.phase {
            IoPhase::Starting => event is Round,
            IoPhase::Waiting => event is Request || event is Line || event is Closed
                || event is Failed || (event is Round && self.shutdown_requested),
            IoPhase::Writing(_) => event is Written,
            IoPhase::Stopped => false,
        }
    }

    /// The requests that leave the queue at an event, in the order in which they are
    /// answered or abandoned.
    pub open spec fn released(self, event: IoEventView) -> Seq<u64> {
        match event {
            IoEventView::Round => if self.shutdown_requested {
                self.pending
            } else {
                Seq::empty()
            },
            IoEventView::Line(_) => if self.pending.len() > 0 {
                seq![self.pending[0]]
            } else {
                Seq::empty()
            },
            IoEventView::Closed => self.pending,
            IoEventView::Failed(_) => self.pending,
            _ => Seq::empty(),
        }
    }

    /// The requests that join the queue at an event.
    pub open spec fn joined(self, event: IoEventView) -> Seq<u64> {
        match (self.phase, event) {
            (IoPhase::Writing(ticket), IoEventView::Written(Ok(_))) => seq![ticket],
            _ => Seq::empty(),
        }
    }

    /// What the loop waits for after an event.
    pub open spec fn next_phase(self, event: IoEventView) -> IoPhase {
        match event {
            IoEventView::Round => if self.shutdown_requested {
                IoPhase::Stopped
            } else {
                IoPhase::Waiting
            },
            IoEventView::Request(ticket, _) => if self.shutdown_requested {
                IoPhase::Starting
            } else {
                IoPhase::Writing(ticket)
            },
            IoEventView::Written(_) => IoPhase::Starting,
            IoEventView::Line(_) => IoPhase::Starting,
            IoEventView::Closed => IoPhase::Stopped,
            IoEventView::Failed(_) => IoPhase::Stopped,
        }
    }

    /// The state after an event.
    pub open spec fn next(self, event: IoEventView) -> ManagedServerView {
        ManagedServerView {
            healthy: self.healthy && !(event is Closed) && !(event is Failed),
            pending: self.pending.skip(self.released(event).len() as int) + self.joined(event),
            phase: self.next_phase(event),
            ..self
        }
    }

    /// What the loop asks for after an event.
    pub open spec fn action(self, event: IoEventView) -> IoActionView {
        match event {
            IoEventView::Round => if self.shutdown_requested {
                IoActionView::Stop(refusals(self.pending, McpProxyErrorView::Shutdown))
            } else {
                IoActionView::Wait
            },
            IoEventView::Request(ticket, request) => if self.shutdown_requested {
                IoActionView::Reply(refusals(seq![ticket], McpProxyErrorView::Shutdown))
            } else {
                IoActionView::Write(ticket, worker::frame(request))
            },
            IoEventView::Written(Ok(_)) => IoActionView::Reply(Seq::empty()),
            IoEventView::Written(Err(text)) => match self.phase {
                IoPhase::Writing(ticket) => IoActionView::Reply(
                    refusals(seq![ticket], McpProxyErrorView::Io(text)),
                ),
                _ => IoActionView::Reply(Seq::empty()),
            },
            IoEventView::Line(line) => if self.pending.len() > 0 {
                IoActionView::Reply(
                    seq![(self.pending[0], Ok(utf8::encode_utf8(text::trimmed(line))))],
                )
            } else {
                IoActionView::Reply(Seq::empty())
            },
            IoEventView::Closed => IoActionView::Stop(
                refusals(self.pending, McpProxyErrorView::ProcessExited),
            ),
            IoEventView::Failed(_) => IoActionView::Abandon,
        }
    }

    /// The state once the server is told to end.
    pub open spec fn terminated(self) -> ManagedServerView {
        ManagedServerView { healthy: false, shutdown_requested: true, ..self }
    }
}

/// What comes of starting a server: the server, or why it could not be started. The
/// pipes are looked at in order.
pub open spec fn spawn_failure(outcome: SpawnOutcome) -> Option<Seq<char>> {
    match outcome {
        SpawnOutcome::Failed(text) => Some(text@),
        SpawnOutcome::Started { stdin, stdout, stderr } => if !stdin {
            Some("stdin not available"@)
        } else if !stdout {
            Some("stdout not available"@)
        } else if !stderr {
            Some("stderr not available"@)
        } else {
            None
        },
    }
}

/// A server that is running.
#[derive(Debug)]
pub struct ManagedServer {
    healthy: bool,
    shutdown_requested: bool,
    pending: VecDeque<u64>,
    phase: IoPhase,
}

impl View for ManagedServer {
    type V = ManagedServerView;

    closed spec fn view(&self) -> ManagedServerView {
        ManagedServerView {
            healthy: self.healthy,
            shutdown_requested: self.shutdown_requested,
            pending: self.pending@,
            phase: self.phase,
        }
    }
}

impl ManagedServer {
    /// The server whose process was started, or the error where it was not.
    pub fn spawn(config: &ServerConfig, outcome: SpawnOutcome) -> (r: Result<Self, McpProxyError>)
        ensures
            match spawn_failure(outcome) {
                Some(text) => r matches Err(error) && error@ == McpProxyErrorView::SpawnFailed(
                    config.command@,
                    text,
                ),
                None => r matches Ok(server) && server@ == ManagedServerView::start(),
            },
    {
        let failure: Option<String> = match outcome {
            SpawnOutcome::Failed(text) => Some(text),
            SpawnOutcome::Started { stdin, stdout, stderr } => if !stdin {
                Some("stdin not available".to_owned())
            } else if !stdout {
                Some("stdout not available".to_owned())
            } else if !stderr {
                Some("stderr not available".to_owned())
            } else {
                None
            },
        };
        match failure {
            Some(text) => Err(McpProxyError::SpawnFailed(config.command.clone(), text)),
            None => {
                let pending: VecDeque<u64> = VecDeque::new();
                Ok(
                    ManagedServer {
                        healthy: true,
                        shutdown_requested: false,
                        pending,
                        phase: IoPhase::Starting,
                    },
                )
            },
        }
    }

    /// Takes every request out of the queue and refuses it.
    fn refuse_pending(&mut self, exited: bool) -> (r: Vec<(u64, Reply)>)
        ensures
            replies_view(r@) == refusals(
                old(self)@.pending,
                if exited {
                    McpProxyErrorView::ProcessExited
                } else {
                    McpProxyErrorView::Shutdown
                },
            ),
            final(self)@ == (ManagedServerView { pending: Seq::empty(), ..old(self)@ }),
    {
        let ghost all = self.pending@;
        let ghost error = if exited {
            McpProxyErrorView::ProcessExited
        } else {
            McpProxyErrorView::Shutdown
        };
        let mut replies: Vec<(u64, Reply)> = Vec::new();
        while self.pending.len() > 0
            invariant
                self.healthy == old(self).healthy,
                self.shutdown_requested == old(self).shutdown_requested,
                self.phase == old(self).phase,
                replies@.len() + self.pending@.len() == all.len(),
                self.pending@ == all.skip(replies@.len() as int),
                replies_view(replies@) == refusals(all.take(replies@.len() as int), error),
                error == (if exited {
                    McpProxyErrorView::ProcessExited
                } else {
                    McpProxyErrorView::Shutdown
                }),
            decreases self.pending@.len(),
        {
            let ghost done = replies@.len() as int;
            if let Some(ticket) = self.pending.pop_front() {
                assert(ticket == all[done]);
                let reason: McpProxyError = if exited {
                    McpProxyError::ProcessExited
                } else {
                    McpProxyError::Shutdown
                };
                let ghost given = replies@;
                replies.push((ticket, Err(reason)));
                assert(all.take(done + 1) =~= all.take(done).push(ticket));
                assert(replies_view(replies@) =~= replies_view(given).push((ticket, Err(error))));
                assert(refusals(all.take(done + 1), error) =~= refusals(all.take(done), error).push(
                    (ticket, Err(error)),
                ));
                assert(self.pending@ =~= all.skip(done + 1));
            }
        }
        assert(all.take(replies@.len() as int) =~= all);
        assert(self@.pending =~= Seq::empty());
        replies
    }

    /// Whether the loop is waiting for an event of this sort.
    pub fn awaits(&self, event: &IoEvent) -> (r: bool)
        ensures
            r == self@.expects(event@),
    {
        match (self.phase, event) {
            (IoPhase::Starting, IoEvent::Round) => true,
            (IoPhase::Waiting, IoEvent::Request(_, _)) => true,
            (IoPhase::Waiting, IoEvent::Line(_)) => true,
            (IoPhase::Waiting, IoEvent::Closed) => true,
            (IoPhase::Waiting, IoEvent::Failed(_)) => true,
            (IoPhase::Waiting, IoEvent::Round) => self.shutdown_requested,
            (IoPhase::Writing(_), IoEvent::Written(_)) => true,
            _ => false,
        }
    }

    /// Tells the loop what happened, and what to do next.
    ///
    /// Requests are written as they come and answered in that order, one line each.
    /// A request that cannot be written is refused at once. When the server ends,
    /// the requests in progress are refused, and so they are at the next round once
    /// shutdown was requested.
    pub fn io_loop(&mut self, event: IoEvent) -> (r: IoAction)
        requires
            old(self)@.expects(event@),
        ensures
            final(self)@ == old(self)@.next(event@),
            r@ == old(self)@.action(event@),
    {
        let ghost before = self@;
        match event {
            IoEvent::Round => if self.shutdown_requested {
                let replies: Vec<(u64, Reply)> = self.refuse_pending(false);
                self.phase = IoPhase::Stopped;
                assert(before.next(event@).pending =~= Seq::empty());
                IoAction::Stop(replies)
            } else {
                self.phase = IoPhase::Waiting;
                assert(before.next(event@).pending =~= self@.pending);
                IoAction::Wait
            },
            IoEvent::Request(ticket, request) => {
                assert(before.next(event@).pending =~= self@.pending);
                if self.shutdown_requested {
                    self.phase = IoPhase::Starting;
                    let mut replies: Vec<(u64, Reply)> = Vec::new();
                    replies.push((ticket, Err(McpProxyError::Shutdown)));
                    assert(replies_view(replies@) =~= refusals(
                        seq![ticket],
                        McpProxyErrorView::Shutdown,
                    ));
                    IoAction::Reply(replies)
                } else {
                    self.phase = IoPhase::Writing(ticket);
                    IoAction::Write(ticket, StdioBusWorker::send(request.as_slice()))
                }
            },
            IoEvent::Written(outcome) => {
                let mut replies: Vec<(u64, Reply)> = Vec::new();
                if let IoPhase::Writing(ticket) = self.phase {
                    match outcome {
                        Ok(_) => {
                            self.pending.push_back(ticket);
                            assert(replies_view(replies@) =~= Seq::empty());
                        },
                        Err(text) => {
                            replies.push((ticket, Err(McpProxyError::Io(text))));
                            assert(replies_view(replies@) =~= refusals(
                                seq![ticket],
                                McpProxyErrorView::Io(text@),
                            ));
                        },
                    }
                }
                self.phase = IoPhase::Starting;
                assert(before.next(event@).pending =~= self@.pending);
                IoAction::Reply(replies)
            },
            IoEvent::Line(line) => {
                let mut replies: Vec<(u64, Reply)> = Vec::new();
                if let Some(ticket) = self.pending.pop_front() {
                    replies.push((ticket, Ok(trim(line.as_str()).as_bytes_vec())));
                }
                self.phase = IoPhase::Starting;
                assert(before.next(event@).pending =~= self@.pending);
                assert(IoAction::Reply(replies)@ =~~= before.action(event@));
                IoAction::Reply(replies)
            },
            IoEvent::Closed => {
                self.healthy = false;
                let replies: Vec<(u64, Reply)> = self.refuse_pending(true);
                self.phase = IoPhase::Stopped;
                assert(before.next(event@).pending =~= Seq::empty());
                IoAction::Stop(replies)
            },
            IoEvent::Failed(_) => {
                self.healthy = false;
                self.pending.clear();
                self.phase = IoPhase::Stopped;
                assert(before.next(event@).pending =~= Seq::empty());
                IoAction::Abandon
            },
        }
    }

    /// Whether requests may be sent to the server.
    pub fn is_healthy(&self) -> (r: bool)
        ensures
            r == self@.healthy,
    {
        self.healthy
    }

    /// What comes of a request: the reply. A request that could not be queued, or was
    /// abandoned, means that the process ended.
    pub fn forward_request(queued: bool, reply: Option<Reply>) -> (r: Reply)
        ensures
            reply_view(r) == (match (queued, reply) {
                (true, Some(reply)) => reply_view(reply),
                _ => Err::<Seq<u8>, McpProxyErrorView>(McpProxyErrorView::ProcessExited),
            }),
    {
        if !queued {
            return Err(McpProxyError::ProcessExited);
        }
        match reply {
            Some(reply) => reply,
            None => Err(McpProxyError::ProcessExited),
        }
    }

    /// Tells the server to end. It takes no more requests, and the loop refuses those
    /// in progress.
    pub fn terminate(&mut self)
        ensures
            final(self)@ == old(self)@.terminated(),
    {
        self.shutdown_requested = true;
        self.healthy = false;
    }

    /// Whether the server was told to end.
    pub fn is_shutdown_requested(&self) -> (r: bool)
        ensures
            r == self@.shutdown_requested,
    {
        self.shutdown_requested
    }
}

/// What is done to a server: it is told to end, or something happens to it.
#[verifier::ext_equal]
pub enum IoInput {
    Terminate,
    Event(IoEventView),
}

impl ManagedServerView {
    /// The state after one input.
    pub open spec fn step(self, input: IoInput) -> ManagedServerView {
        match input {
            IoInput::Terminate => self.terminated(),
            IoInput::Event(event) => self.next(event),
        }
    }

    /// The state after a number of inputs.
    pub open spec fn after(self, inputs: Seq<IoInput>) -> ManagedServerView
        decreases inputs.len(),
    {
        if inputs.len() == 0 {
            self
        } else {
            self.after(inputs.drop_last()).step(inputs.last())
        }
    }

    /// Whether each event came when the loop was waiting for it.
    pub open spec fn accepts(self, inputs: Seq<IoInput>) -> bool
        decreases inputs.len(),
    {
        inputs.len() > 0 ==> self.accepts(inputs.drop_last()) && match inputs.last() {
            IoInput::Terminate => true,
            IoInput::Event(event) => self.after(inputs.drop_last()).expects(event),
        }
    }

    /// The requests that were written to the server, in order.
    pub open spec fn written(self, inputs: Seq<IoInput>) -> Seq<u64>
        decreases inputs.len(),
    {
        if inputs.len() == 0 {
            Seq::empty()
        } else {
            let joined = match inputs.last() {
                IoInput::Terminate => Seq::empty(),
                IoInput::Event(event) => self.after(inputs.drop_last()).joined(event),
            };
            self.written(inputs.drop_last()) + joined
        }
    }

    /// The requests that were answered or abandoned after they had been written, in
    /// order.
    pub open spec fn settled(self, inputs: Seq<IoInput>) -> Seq<u64>
        decreases inputs.len(),
    {
        if inputs.len() == 0 {
            Seq::empty()
        } else {
            let released = match inputs.last() {
                IoInput::Terminate => Seq::empty(),
                IoInput::Event(event) => self.after(inputs.drop_last()).released(event),
            };
            self.settled(inputs.drop_last()) + released
        }
    }
}

/// Requests are answered in the order in which they were written, each at most once
/// and none left out: those that were settled, followed by those in progress, are
/// those that were written.
pub proof fn law_requests_are_answered_in_order(inputs: Seq<IoInput>)
    requires
        ManagedServerView::start().accepts(inputs),
    ensures
        ManagedServerView::start().settled(inputs) + ManagedServerView::start().after(
            inputs,
        ).pending == ManagedServerView::start().written(inputs),
    decreases inputs.len(),
{
    let start = ManagedServerView::start();
    if inputs.len() > 0 {
        let earlier = inputs.drop_last();
        law_requests_are_answered_in_order(earlier);
        let before = start.after(earlier);
        if let IoInput::Event(event) = inputs.last() {
            let released = before.released(event);
            assert(released + before.pending.skip(released.len() as int) =~= before.pending);
            assert((start.settled(earlier) + released) + (before.pending.skip(released.len() as int)
                + before.joined(event)) =~= start.settled(earlier) + (released
                + before.pending.skip(released.len() as int)) + before.joined(event));
        } else {
            assert(start.settled(inputs) =~= start.settled(earlier));
            assert(start.written(inputs) =~= start.written(earlier));
        }
    } else {
        assert(start.settled(inputs) + start.after(inputs).pending =~= start.written(inputs));
    }
}

/// When the loop stops, every request that was written has been settled.
pub proof fn law_stop_leaves_nothing(inputs: Seq<IoInput>)
    requires
        ManagedServerView::start().accepts(inputs),
        ManagedServerView::start().after(inputs).phase == IoPhase::Stopped,
    ensures
        ManagedServerView::start().after(inputs).pending.len() == 0,
        ManagedServerView::start().settled(inputs) == ManagedServerView::start().written(inputs),
{
    law_requests_are_answered_in_order(inputs);
    lemma_stopped_is_empty(inputs);
    let start = ManagedServerView::start();
    assert(start.settled(inputs) + start.after(inputs).pending =~= start.settled(inputs));
}

proof fn lemma_stopped_is_empty(inputs: Seq<IoInput>)
    requires
        ManagedServerView::start().accepts(inputs),
        ManagedServerView::start().after(inputs).phase == IoPhase::Stopped,
    ensures
        ManagedServerView::start().after(inputs).pending.len() == 0,
    decreases inputs.len(),
{
    let earlier = inputs.drop_last();
    if inputs.last() is Terminate {
        lemma_stopped_is_empty(earlier);
    }
}

/// The queue changes by what leaves it and what joins it, and the replies that are
/// given when a request leaves the queue are for that request.
pub proof fn law_replies_match_requests(server: ManagedServerView, event: IoEventView)
    requires
        server.expects(event),
        server.released(event).len() > 0,
    ensures
        match server.action(event) {
            IoActionView::Reply(replies) => replies.map_values(
                |entry: (u64, Result<Seq<u8>, McpProxyErrorView>)| entry.0,
            ) == server.released(event),
            IoActionView::Stop(replies) => replies.map_values(
                |entry: (u64, Result<Seq<u8>, McpProxyErrorView>)| entry.0,
            ) == server.released(event),
            IoActionView::Abandon => true,
            _ => false,
        },
{
    match server.action(event) {
        IoActionView::Reply(replies) => {
            assert(replies.map_values(
                |entry: (u64, Result<Seq<u8>, McpProxyErrorView>)| entry.0,
            ) =~= server.released(event));
        },
        IoActionView::Stop(replies) => {
            assert(replies.map_values(
                |entry: (u64, Result<Seq<u8>, McpProxyErrorView>)| entry.0,
            ) =~= server.released(event));
        },
        _ => {},
    }
}

/// A server that is told to end while its loop waits can be ended at once, with every
/// request in progress refused.
pub proof fn law_termination_drains_the_waiting(server: ManagedServerView)
    requires
        server.phase is Waiting,
    ensures
        server.terminated().expects(IoEventView::Round),
        server.terminated().action(IoEventView::Round) == IoActionView::Stop(
            refusals(server.pending, McpProxyErrorView::Shutdown),
        ),
        server.terminated().next(IoEventView::Round).pending.len() == 0,
        server.terminated().next(IoEventView::Round).phase is Stopped,
{
}

/// A server that was told to end, or whose process ended, does not become healthy
/// again, and one that was told to end writes no further request.
pub proof fn law_ended_server_stays_ended(server: ManagedServerView, input: IoInput)
    ensures
        !server.healthy ==> !server.step(input).healthy,
        server.shutdown_requested ==> server.step(input).shutdown_requested,
        server.shutdown_requested ==> (input matches IoInput::Event(event) ==> !(server.action(
            event,
        ) is Write) && (event is Round ==> server.action(event) is Stop)),
{
}

/// A request goes to the server as it is, with one line feed behind it: without that it
/// is the request again, and different requests are written differently. Until it is
/// written it is not in progress.
pub proof fn law_request_is_written_as_it_is(
    server: ManagedServerView,
    ticket: u64,
    request: Seq<u8>,
    other: Seq<u8>,
)
    requires
        server.phase is Waiting,
        !server.shutdown_requested,
    ensures
        ({
            let event = IoEventView::Request(ticket, request);
            &&& server.expects(event)
            &&& server.action(event) matches IoActionView::Write(given, bytes)
            &&& given == ticket
            &&& bytes.len() == request.len() + 1
            &&& bytes.last() == 10
            &&& bytes.drop_last() == request
            &&& request != other ==> server.action(event) != server.action(
                IoEventView::Request(ticket, other),
            )
            &&& server.next(event).phase == IoPhase::Writing(ticket)
            &&& server.next(event).pending == server.pending
            &&& server.next(event).healthy == server.healthy
        }),
{
    let event = IoEventView::Request(ticket, request);
    worker::law_line_holds_the_message(request, other);
    worker::law_line_holds_the_message(other, request);
    assert(server.next(event).pending =~= server.pending);
}

/// A request that was written is the last in progress. One that could not be written is
/// refused with the reason, and the others stay in progress.
pub proof fn law_written_request_is_in_progress(
    server: ManagedServerView,
    ticket: u64,
    reason: Seq<char>,
)
    requires
        server.phase == IoPhase::Writing(ticket),
    ensures
        ({
            let good = IoEventView::Written(Ok(()));
            let bad = IoEventView::Written(Err(reason));
            &&& server.expects(good) && server.expects(bad)
            &&& server.action(good) == IoActionView::Reply(Seq::empty())
            &&& server.next(good).pending == server.pending.push(ticket)
            &&& server.action(bad) == IoActionView::Reply(
                seq![(ticket, Err::<Seq<u8>, McpProxyErrorView>(McpProxyErrorView::Io(reason)))],
            )
            &&& server.next(bad).pending == server.pending
            &&& server.next(good).phase is Starting && server.next(bad).phase is Starting
            &&& server.next(good).healthy == server.healthy && server.next(bad).healthy
                == server.healthy
        }),
{
    let good = IoEventView::Written(Ok(()));
    let bad = IoEventView::Written(Err(reason));
    assert(server.next(good).pending =~= server.pending.push(ticket));
    assert(server.next(bad).pending =~= server.pending);
    assert(server.action(bad) =~~= IoActionView::Reply(
        seq![(ticket, Err::<Seq<u8>, McpProxyErrorView>(McpProxyErrorView::Io(reason)))],
    ));
}

/// A line of the server answers the oldest request in progress, and that one alone, with
/// the text of the line without the blanks around it. Without a request in progress it
/// answers none.
pub proof fn law_line_answers_the_oldest_request(
    server: ManagedServerView,
    before: Seq<char>,
    text: Seq<char>,
    after: Seq<char>,
)
    requires
        server.phase is Waiting,
        text::all_blank(before),
        text::all_blank(after),
        text.len() > 0 ==> !text::is_blank(text[0]) && !text::is_blank(text.last()),
    ensures
        ({
            let line = IoEventView::Line(before + text + after);
            &&& server.expects(line)
            &&& server.action(line) matches IoActionView::Reply(replies)
            &&& if server.pending.len() > 0 {
                &&& replies.len() == 1
                &&& replies[0].0 == server.pending[0]
                &&& replies[0].1 == Ok::<Seq<u8>, McpProxyErrorView>(utf8::encode_utf8(text))
                &&& server.next(line).pending == server.pending.skip(1)
            } else {
                replies.len() == 0 && server.next(line).pending == server.pending
            }
            &&& server.next(line).phase is Starting
            &&& server.next(line).healthy == server.healthy
        }),
{
    let line = IoEventView::Line(before + text + after);
    text::law_text_is_left_between_blanks(before, text, after);
    if server.pending.len() > 0 {
        assert(server.next(line).pending =~= server.pending.skip(1));
    } else {
        assert(server.next(line).pending =~= server.pending);
    }
}

/// When the process ends, each request in progress is told so, in order; when the server
/// was told to end, each is told that at the next round. A read error leaves them without
/// a reply. In each case nothing is in progress any more and the loop is over.
pub proof fn law_end_of_the_server_is_told(server: ManagedServerView, text: Seq<char>, i: int)
    requires
        0 <= i < server.pending.len(),
    ensures
        server.action(IoEventView::Closed) matches IoActionView::Stop(replies) && replies.len()
            == server.pending.len() && replies[i].0 == server.pending[i] && replies[i].1 == Err::<
            Seq<u8>,
            McpProxyErrorView,
        >(McpProxyErrorView::ProcessExited),
        server.shutdown_requested ==> (server.action(IoEventView::Round) matches IoActionView::Stop(
            replies,
        ) && replies.len() == server.pending.len() && replies[i].0 == server.pending[i]
            && replies[i].1 == Err::<Seq<u8>, McpProxyErrorView>(McpProxyErrorView::Shutdown)),
        server.action(IoEventView::Failed(text)) is Abandon,
{
}

/// The loop goes on after a round, a request and a line, and it is over after the end of
/// the process, a read error and a round once shutdown was requested. It is healthy until
/// the process ends or fails, and no event requests a shutdown.
pub proof fn law_server_loop_goes_on_or_stops(
    server: ManagedServerView,
    event: IoEventView,
    text: Seq<char>,
    ticket: u64,
    request: Seq<u8>,
)
    ensures
        server.expects(event) <==> match server.phase {
            IoPhase::Starting => event is Round,
            IoPhase::Waiting => event is Request || event is Line || event is Closed || event
                is Failed || (event is Round && server.shutdown_requested),
            IoPhase::Writing(_) => event is Written,
            IoPhase::Stopped => false,
        },
        server.next(event).shutdown_requested == server.shutdown_requested,
        server.next(event).healthy == (server.healthy && !(event is Closed) && !(event is Failed)),
        server.next(IoEventView::Closed).phase is Stopped,
        server.next(IoEventView::Closed).pending.len() == 0,
        server.next(IoEventView::Failed(text)).phase is Stopped,
        server.next(IoEventView::Failed(text)).pending.len() == 0,
        server.shutdown_requested ==> server.next(IoEventView::Round).phase is Stopped
            && server.next(IoEventView::Round).pending.len() == 0,
        !server.shutdown_requested ==> server.action(IoEventView::Round) is Wait && server.next(
            IoEventView::Round,
        ).phase is Waiting && server.next(IoEventView::Round).pending == server.pending,
        server.shutdown_requested ==> server.action(IoEventView::Request(ticket, request))
            == IoActionView::Reply(
            seq![(ticket, Err::<Seq<u8>, McpProxyErrorView>(McpProxyErrorView::Shutdown))],
        ),
        server.shutdown_requested ==> server.next(IoEventView::Request(ticket, request)).phase
            is Starting,
        server.next(IoEventView::Request(ticket, request)).pending == server.pending,
        server.pending.len() == 0 ==> server.action(IoEventView::Closed) == IoActionView::Stop(
            Seq::empty(),
        ),
        ManagedServerView::start().phase is Starting,
        ManagedServerView::start().healthy,
        !ManagedServerView::start().shutdown_requested,
        ManagedServerView::start().pending.len() == 0,
        server.terminated().shutdown_requested,
        !server.terminated().healthy,
        server.terminated().pending == server.pending,
        server.terminated().phase == server.phase,
{
    assert(server.next(IoEventView::Round).pending =~= if server.shutdown_requested {
        Seq::empty()
    } else {
        server.pending
    });
    assert(server.next(IoEventView::Request(ticket, request)).pending =~= server.pending);
    assert(refusals(seq![ticket], McpProxyErrorView::Shutdown) =~= seq![
        (ticket, Err::<Seq<u8>, McpProxyErrorView>(McpProxyErrorView::Shutdown)),
    ]);
    if server.pending.len() == 0 {
        assert(refusals(server.pending, McpProxyErrorView::ProcessExited) =~= Seq::empty());
    }
}

/// A process that could not be started is told with the reason, and one without a pipe
/// with the first pipe that is missing. With all three pipes nothing is wrong.
pub proof fn law_missing_pipes_are_told(text: String, stdin: bool, stdout: bool, stderr: bool)
    ensures
        spawn_failure(SpawnOutcome::Failed(text)) == Some(text@),
        ({
            let failure = spawn_failure(SpawnOutcome::Started { stdin, stdout, stderr });
            &&& failure is None <==> stdin && stdout && stderr
            &&& !stdin ==> failure == Some("stdin not available"@)
            &&& stdin && !stdout ==> failure == Some("stdout not available"@)
            &&& stdin && stdout && !stderr ==> failure == Some("stderr not available"@)
        }),
{
}

/// An error is told by its sort and then by the whole of its text.
pub proof fn law_proxy_errors_are_told_in_full(text: Seq<char>, command: Seq<char>)
    ensures
        McpProxyErrorView::Io(text).text() == "I/O error: "@ + text,
        McpProxyErrorView::Json(text).text() == "JSON error: "@ + text,
        McpProxyErrorView::InvalidSessionId(text).text() == "Invalid session ID format: "@ + text,
        McpProxyErrorView::ServerNotFound(text).text() == "Server not found: "@ + text,
        McpProxyErrorView::SpawnFailed(command, text).text() == "Failed to spawn server '"@ + command
            + "': "@ + text,
        McpProxyErrorView::ServerCommunication(text).text() == "Server communication error: "@
            + text,
        McpProxyErrorView::ProcessExited.text() == "Server process exited"@,
        McpProxyErrorView::Timeout.text() == "Request timeout"@,
        McpProxyErrorView::Shutdown.text() == "Shutdown requested"@,
{
}

/// What is said of events, actions and replies is said of what they hold.
pub proof fn law_server_values_are_what_they_hold(
    ticket: u64,
    bytes: Vec<u8>,
    text: String,
    error: McpProxyError,
    replies: Vec<(u64, Reply)>,
    i: int,
)
    ensures
        IoEvent::Request(ticket, bytes)@ == IoEventView::Request(ticket, bytes@),
        IoEvent::Line(text)@ == IoEventView::Line(text@),
        IoEvent::Failed(text)@ == IoEventView::Failed(text@),
        IoEvent::Written(Ok(()))@ == IoEventView::Written(Ok(())),
        IoEvent::Written(Err(text))@ == IoEventView::Written(Err(text@)),
        IoEvent::Round@ is Round,
        IoEvent::Closed@ is Closed,
        IoAction::Write(ticket, bytes)@ == IoActionView::Write(ticket, bytes@),
        IoAction::Reply(replies)@ == IoActionView::Reply(replies_view(replies@)),
        IoAction::Stop(replies)@ == IoActionView::Stop(replies_view(replies@)),
        IoAction::Wait@ is Wait,
        IoAction::Abandon@ is Abandon,
        replies_view(replies@).len() == replies@.len(),
        0 <= i < replies@.len() ==> replies_view(replies@)[i].0 == replies@[i].0 && replies_view(
            replies@,
        )[i].1 == reply_view(replies@[i].1),
        reply_view(Ok(bytes)) == Ok::<Seq<u8>, McpProxyErrorView>(bytes@),
        reply_view(Err(error)) == Err::<Seq<u8>, McpProxyErrorView>(error@),
        match (error@, error) {
            (McpProxyErrorView::Io(seen), McpProxyError::Io(held)) => seen == held@,
            (McpProxyErrorView::Json(seen), McpProxyError::Json(held)) => seen == held@,
            (
                McpProxyErrorView::InvalidSessionId(seen),
                McpProxyError::InvalidSessionId(held),
            ) => seen == held@,
            (McpProxyErrorView::ServerNotFound(seen), McpProxyError::ServerNotFound(held)) => seen
                == held@,
            (
                McpProxyErrorView::SpawnFailed(command, seen),
                McpProxyError::SpawnFailed(started, held),
            ) => command == started@ && seen == held@,
            (
                McpProxyErrorView::ServerCommunication(seen),
                McpProxyError::ServerCommunication(held),
            ) => seen == held@,
            (McpProxyErrorView::ProcessExited, McpProxyError::ProcessExited) => true,
            (McpProxyErrorView::Timeout, McpProxyError::Timeout) => true,
            (McpProxyErrorView::Shutdown, McpProxyError::Shutdown) => true,
            _ => false,
        },
{
}

} // verus!
