//! The worker: reading requests line by line, answering them, and stopping.
//!
//! The worker does no input or output of its own. It is told what happened (an
//! event) and answers with what to do next (an action).

use crate::json::{self, error_text, parse_value, set_field, text_value, write_value, Json};
use crate::message::{self, clone_text, Message, MessageView, RoutingView};
use crate::routing::{self, parse_message, MAX_SESSION_ID_LEN};
use crate::text::{self, join, trim_end};
use vstd::prelude::*;
use vstd::utf8;

verus! {

/// What kind of input or output error occurred.
#[derive(Debug, Clone, Copy, PartialEq, Eq, Structural)]
pub enum IoErrorKind {
    /// The input ended.
    UnexpectedEof,
    /// Anything else.
    Other,
}

/// An input or output error.
#[derive(Debug)]
pub struct IoError {
    pub kind: IoErrorKind,
    pub message: String,
}

/// Why the worker could not go on.
#[derive(Debug)]
pub enum WorkerError {
    /// Reading or writing failed.
    Io(IoError),
    /// JSON could not be read or written.
    Json(String),
    /// The handler of a message failed.
    Handler(String),
    /// Shutdown was requested.
    Shutdown,
}

/// What a [`WorkerError`] holds.
#[verifier::ext_equal]
pub enum WorkerErrorView {
    Io(IoErrorKind, Seq<char>),
    Json(Seq<char>),
    Handler(Seq<char>),
    Shutdown,
}

impl View for WorkerError {
    type V = WorkerErrorView;

    open spec fn view(&self) -> WorkerErrorView {
        match self {
            WorkerError::Io(error) => WorkerErrorView::Io(error.kind, error.message@),
            WorkerError::Json(text) => WorkerErrorView::Json(text@),
            WorkerError::Handler(text) => WorkerErrorView::Handler(text@),
            WorkerError::Shutdown => WorkerErrorView::Shutdown,
        }
    }
}

impl WorkerErrorView {
    /// The text that tells the error to a reader.
    pub open spec fn text(self) -> Seq<char> {
        match self {
            WorkerErrorView::Io(_, text) => "I/O error: "@ + text,
            WorkerErrorView::Json(text) => "JSON serialization error: "@ + text,
            WorkerErrorView::Handler(text) => "Handler error: "@ + text,
            WorkerErrorView::Shutdown => "Shutdown requested"@,
        }
    }
}

impl WorkerError {
    /// The text that tells the error to a reader.
    pub fn to_string(&self) -> (r: String)
        ensures
            r@ == self@.text(),
    {
        match self {
            WorkerError::Io(error) => join("I/O error: ", error.message.as_str()),
            WorkerError::Json(text) => join("JSON serialization error: ", text.as_str()),
            WorkerError::Handler(text) => join("Handler error: ", text.as_str()),
            WorkerError::Shutdown => "Shutdown requested".to_owned(),
        }
    }
}

/// What a handler of a message gives back: the response, if there is one.
pub type Handled = Result<Option<Vec<u8>>, WorkerError>;

/// What a [`Handled`] holds.
pub open spec fn handled_view(handled: Handled) -> Result<Option<Seq<u8>>, WorkerErrorView> {
    match handled {
        Ok(Some(response)) => Ok(Some(response@)),
        Ok(None) => Ok(None),
        Err(error) => Err(error@),
    }
}

/// What happened while the worker was waiting for a line.
#[derive(Debug)]
pub enum ReadEvent {
    /// The shutdown flag was written.
    ShutdownChanged,
    /// A line was read.
    Line(String),
    /// The input ended.
    Closed,
    /// Reading failed.
    Failed(IoError),
}

/// What a [`ReadEvent`] holds.
#[verifier::ext_equal]
pub enum ReadEventView {
    ShutdownChanged,
    Line(Seq<char>),
    Closed,
    Failed(IoErrorKind, Seq<char>),
}

impl View for ReadEvent {
    type V = ReadEventView;

    open spec fn view(&self) -> ReadEventView {
        match self {
            ReadEvent::ShutdownChanged => ReadEventView::ShutdownChanged,
            ReadEvent::Line(text) => ReadEventView::Line(text@),
            ReadEvent::Closed => ReadEventView::Closed,
            ReadEvent::Failed(error) => ReadEventView::Failed(error.kind, error.message@),
        }
    }
}

/// The message that a line spells: its text without the blanks at the end.
pub open spec fn line_message(line: Seq<char>) -> MessageView {
    let raw = utf8::encode_utf8(text::trimmed_end(line));
    MessageView { raw, routing: RoutingView::of(raw) }
}

/// What the worker makes of an event while it waits for a line: a message, an
/// error, or nothing, and then it goes on waiting. Once shutdown was requested, that
/// comes before anything else.
pub open spec fn received(event: ReadEventView, shutdown: bool) -> Option<
    Result<MessageView, WorkerErrorView>,
> {
    if shutdown {
        Some(Err(WorkerErrorView::Shutdown))
    } else {
        match event {
            ReadEventView::ShutdownChanged => None,
            ReadEventView::Line(line) => if text::trimmed_end(line).len() == 0 {
                None
            } else {
                Some(Ok(line_message(line)))
            },
            ReadEventView::Closed => Some(
                Err(WorkerErrorView::Io(IoErrorKind::UnexpectedEof, "stdin closed"@)),
            ),
            ReadEventView::Failed(kind, text) => Some(Err(WorkerErrorView::Io(kind, text))),
        }
    }
}

/// What is received may be a message, an error or nothing.
pub open spec fn received_view(received: Option<Result<Message, WorkerError>>) -> Option<
    Result<MessageView, WorkerErrorView>,
> {
    match received {
        Some(Ok(message)) => Some(Ok(message@)),
        Some(Err(error)) => Some(Err(error@)),
        None => None,
    }
}

/// A message as it is written: one line.
pub open spec fn frame(message: Seq<u8>) -> Seq<u8> {
    message.push(10u8)
}

/// Whether bytes are one line: a line feed stands at the end and nowhere else.
pub open spec fn is_one_line(bytes: Seq<u8>) -> bool {
    bytes.len() > 0 && bytes.last() == 10 && forall|i: int|
        0 <= i < bytes.len() - 1 ==> #[trigger] bytes[i] != 10
}

/// A response with the session identifier of its request, or the response as it is
/// where it is no JSON.
pub open spec fn injected(response: Seq<u8>, session_id: Seq<char>) -> Seq<u8> {
    match json::parse_result(response) {
        Ok(document) => json::printed(
            document.with_field("sessionId"@, Json::Text(session_id)),
        ),
        Err(_) => response,
    }
}

/// Whether a message with a session identifier set is read back as what was written:
/// that identifier, and everything else as it was, with each float as it comes back once
/// it is written.
pub open spec fn injection_is_read_back(message: Seq<u8>, session_id: Seq<char>) -> bool {
    match json::parse_result(message) {
        Ok(document) => {
            &&& json::parse_result(injected(message, session_id)) matches Ok(back)
            &&& document.with_field("sessionId"@, Json::Text(session_id)).reads_back_as(
                back,
                json::MAX_DEPTH as nat,
            )
        },
        Err(_) => true,
    }
}

/// Sets the session identifier of a JSON object. Any other JSON is left alone.
pub fn set_session_id(value: &mut serde_json::Value, session_id: &str)
    ensures
        json::content(*final(value)) == json::content(*old(value)).with_field(
            "sessionId"@,
            Json::Text(session_id@),
        ),
{
    if value.is_object() {
        set_field(value, "sessionId", text_value(session_id));
    }
}

/// What the worker is waiting for.
#[derive(Debug)]
pub enum WorkerPhase {
    /// A line of input.
    Receiving,
    /// The response to a request, which belongs to a session or to none.
    Handling(Option<String>),
    /// The response having been written.
    Sending,
    /// The handler having shut down.
    Draining,
    /// Nothing any more.
    Stopped,
}

/// What a [`WorkerPhase`] holds.
#[verifier::ext_equal]
pub enum WorkerPhaseView {
    Receiving,
    Handling(Option<Seq<char>>),
    Sending,
    Draining,
    Stopped,
}

impl View for WorkerPhase {
    type V = WorkerPhaseView;

    open spec fn view(&self) -> WorkerPhaseView {
        match self {
            WorkerPhase::Receiving => WorkerPhaseView::Receiving,
            WorkerPhase::Handling(session_id) => WorkerPhaseView::Handling(
                message::text_view(*session_id),
            ),
            WorkerPhase::Sending => WorkerPhaseView::Sending,
            WorkerPhase::Draining => WorkerPhaseView::Draining,
            WorkerPhase::Stopped => WorkerPhaseView::Stopped,
        }
    }
}

/// What happened.
#[derive(Debug)]
pub enum WorkerEvent {
    /// Something came in.
    Read(ReadEvent),
    /// The handler is done with a message.
    Handled(Handled),
    /// The response was written, or could not be.
    Sent(Result<(), WorkerError>),
    /// The handler has shut down.
    Drained,
}

/// What a [`WorkerEvent`] holds.
#[verifier::ext_equal]
pub enum WorkerEventView {
    Read(ReadEventView),
    Handled(Result<Option<Seq<u8>>, WorkerErrorView>),
    Sent(bool),
    Drained,
}

impl View for WorkerEvent {
    type V = WorkerEventView;

    open spec fn view(&self) -> WorkerEventView {
        match self {
            WorkerEvent::Read(event) => WorkerEventView::Read(event@),
            WorkerEvent::Handled(handled) => WorkerEventView::Handled(handled_view(*handled)),
            WorkerEvent::Sent(outcome) => WorkerEventView::Sent(outcome is Ok),
            WorkerEvent::Drained => WorkerEventView::Drained,
        }
    }
}

/// What to do next.
#[derive(Debug)]
pub enum WorkerAction {
    /// Wait for a line or for the shutdown flag to be written, the flag first.
    Read,
    /// Hand the message to the handler.
    Handle(Message),
    /// Write the bytes and flush.
    Send(Vec<u8>),
    /// Tell the handler to shut down.
    NotifyShutdown,
    /// Stop.
    Stop,
}

/// What a [`WorkerAction`] holds.
#[verifier::ext_equal]
pub enum WorkerActionView {
    Read,
    Handle(MessageView),
    Send(Seq<u8>),
    NotifyShutdown,
    Stop,
}

impl View for WorkerAction {
    type V = WorkerActionView;

    open spec fn view(&self) -> WorkerActionView {
        match self {
            WorkerAction::Read => WorkerActionView::Read,
            WorkerAction::Handle(message) => WorkerActionView::Handle(message@),
            WorkerAction::Send(bytes) => WorkerActionView::Send(bytes@),
            WorkerAction::NotifyShutdown => WorkerActionView::NotifyShutdown,
            WorkerAction::Stop => WorkerActionView::Stop,
        }
    }
}

/// The state of a worker.
#[verifier::ext_equal]
pub struct WorkerView {
    pub phase: WorkerPhaseView,
    pub shutdown: bool,
}

impl WorkerView {
    /// A worker that has just started.
    pub open spec fn start() -> WorkerView {
        WorkerView { phase: WorkerPhaseView::Receiving, shutdown: false }
    }

    /// Whether the worker is waiting for an event of this sort.
    pub open spec fn expects(self, event: WorkerEventView) -> bool {
        match self.phase {
            WorkerPhaseView::Receiving => event is Read,
            WorkerPhaseView::Handling(_) => event is Handled,
            WorkerPhaseView::Sending => event is Sent,
            WorkerPhaseView::Draining => event is Drained,
            WorkerPhaseView::Stopped => false,
        }
    }

    /// What the worker waits for after an event.
    pub open spec fn next_phase(self, event: WorkerEventView) -> WorkerPhaseView {
        match event {
            WorkerEventView::Read(read) => match received(read, self.shutdown) {
                None => WorkerPhaseView::Receiving,
                Some(Ok(message)) => WorkerPhaseView::Handling(message.routing.session_id),
                Some(Err(WorkerErrorView::Shutdown)) => WorkerPhaseView::Draining,
                Some(Err(_)) => WorkerPhaseView::Stopped,
            },
            WorkerEventView::Handled(Ok(Some(_))) => WorkerPhaseView::Sending,
            WorkerEventView::Handled(_) => WorkerPhaseView::Receiving,
            WorkerEventView::Sent(_) => WorkerPhaseView::Receiving,
            WorkerEventView::Drained => WorkerPhaseView::Stopped,
        }
    }

    /// The state after an event.
    pub open spec fn next(self, event: WorkerEventView) -> WorkerView {
        WorkerView { phase: self.next_phase(event), ..self }
    }

    /// What the worker asks for after an event.
    pub open spec fn action(self, event: WorkerEventView) -> WorkerActionView {
        match event {
            WorkerEventView::Read(read) => match received(read, self.shutdown) {
                None => WorkerActionView::Read,
                Some(Ok(message)) => WorkerActionView::Handle(message),
                Some(Err(WorkerErrorView::Shutdown)) => WorkerActionView::NotifyShutdown,
                Some(Err(_)) => WorkerActionView::Stop,
            },
            WorkerEventView::Handled(Ok(Some(response))) => WorkerActionView::Send(
                frame(self.reply(response)),
            ),
            WorkerEventView::Handled(_) => WorkerActionView::Read,
            WorkerEventView::Sent(_) => WorkerActionView::Read,
            WorkerEventView::Drained => WorkerActionView::Stop,
        }
    }

    /// What is sent for a response: with the session identifier of the request,
    /// where that has one.
    pub open spec fn reply(self, response: Seq<u8>) -> Seq<u8> {
        match self.phase {
            WorkerPhaseView::Handling(Some(session_id)) => injected(response, session_id),
            _ => response,
        }
    }
}

impl WorkerView {
    /// Whether what is sent for a response is one line and belongs to the session
    /// of the request, with its other routing fields kept and everything else as it
    /// comes back once it is written. This speaks of a request with a session and a
    /// response that is a JSON object.
    pub open spec fn reply_keeps_session(self, response: Seq<u8>) -> bool {
        match (self.phase, json::parse_result(response)) {
            (WorkerPhaseView::Handling(Some(session_id)), Ok(document)) => document is Object ==> {
                &&& json::is_json_text(self.reply(response))
                &&& is_one_line(frame(self.reply(response)))
                &&& injection_is_read_back(response, session_id)
                &&& RoutingView::of(self.reply(response)) == (RoutingView {
                    session_id: if utf8::encode_utf8(session_id).len() <= MAX_SESSION_ID_LEN {
                        Some(session_id)
                    } else {
                        None
                    },
                    ..RoutingView::of(response)
                })
            },
            _ => true,
        }
    }
}

/// What is done to a worker: a request to shut down, or an event.
#[verifier::ext_equal]
pub enum WorkerInput {
    RequestShutdown,
    Event(WorkerEventView),
}

impl WorkerView {
    /// Whether each event came when the worker was waiting for it.
    pub open spec fn accepts(self, inputs: Seq<WorkerInput>) -> bool
        decreases inputs.len(),
    {
        inputs.len() > 0 ==> self.accepts(inputs.drop_last()) && match inputs.last() {
            WorkerInput::RequestShutdown => true,
            WorkerInput::Event(event) => self.after(inputs.drop_last()).expects(event),
        }
    }

    /// The state after a number of inputs.
    pub open spec fn after(self, inputs: Seq<WorkerInput>) -> WorkerView
        decreases inputs.len(),
    {
        if inputs.len() == 0 {
            self
        } else {
            match inputs.last() {
                WorkerInput::RequestShutdown => WorkerView {
                    shutdown: true,
                    ..self.after(inputs.drop_last())
                },
                WorkerInput::Event(event) => self.after(inputs.drop_last()).next(event),
            }
        }
    }

    /// How many requests were handed to the handler.
    pub open spec fn requests(self, inputs: Seq<WorkerInput>) -> nat
        decreases inputs.len(),
    {
        if inputs.len() == 0 {
            0
        } else {
            let last: nat = match inputs.last() {
                WorkerInput::Event(event) => if self.after(inputs.drop_last()).action(
                    event,
                ) is Handle {
                    1
                } else {
                    0
                },
                _ => 0,
            };
            self.requests(inputs.drop_last()) + last
        }
    }

    /// How many responses were sent.
    pub open spec fn responses(self, inputs: Seq<WorkerInput>) -> nat
        decreases inputs.len(),
    {
        if inputs.len() == 0 {
            0
        } else {
            let last: nat = match inputs.last() {
                WorkerInput::Event(event) => if self.after(inputs.drop_last()).action(
                    event,
                ) is Send {
                    1
                } else {
                    0
                },
                _ => 0,
            };
            self.responses(inputs.drop_last()) + last
        }
    }

    /// How often the handler was told to shut down.
    pub open spec fn told(self, inputs: Seq<WorkerInput>) -> nat
        decreases inputs.len(),
    {
        if inputs.len() == 0 {
            0
        } else {
            let last: nat = match inputs.last() {
                WorkerInput::Event(event) => if self.after(inputs.drop_last()).action(
                    event,
                ) is NotifyShutdown {
                    1
                } else {
                    0
                },
                _ => 0,
            };
            self.told(inputs.drop_last()) + last
        }
    }
}

/// The worker.
#[derive(Debug)]
pub struct StdioBusWorker {
    phase: WorkerPhase,
    shutdown: bool,
}

impl View for StdioBusWorker {
    type V = WorkerView;

    closed spec fn view(&self) -> WorkerView {
        WorkerView { phase: self.phase@, shutdown: self.shutdown }
    }
}

impl StdioBusWorker {
    /// A worker that waits for its first line.
    pub fn new() -> (r: Self)
        ensures
            r@ == WorkerView::start(),
    {
        StdioBusWorker { phase: WorkerPhase::Receiving, shutdown: false }
    }

    /// Requests shutdown. The worker acts on it when it waits for a line.
    pub fn request_shutdown(&mut self)
        ensures
            final(self)@ == (WorkerView { shutdown: true, ..old(self)@ }),
    {
        self.shutdown = true;
    }

    /// Makes a message, an error or nothing of what happened while the worker
    /// waited for a line. Lines without text are skipped. Once shutdown was requested,
    /// no line is taken any more.
    pub fn recv(&self, event: ReadEvent) -> (r: Option<Result<Message, WorkerError>>)
        ensures
            received_view(r) == received(event@, self@.shutdown),
    {
        if self.shutdown {
            return Some(Err(WorkerError::Shutdown));
        }
        match event {
            ReadEvent::ShutdownChanged => None,
            ReadEvent::Closed => Some(
                Err(
                    WorkerError::Io(
                        IoError {
                            kind: IoErrorKind::UnexpectedEof,
                            message: "stdin closed".to_owned(),
                        },
                    ),
                ),
            ),
            ReadEvent::Line(line) => {
                let trimmed: &str = trim_end(line.as_str());
                if trimmed.is_empty() {
                    None
                } else {
                    Some(Ok(parse_message(trimmed.as_bytes_vec())))
                }
            },
            ReadEvent::Failed(error) => Some(Err(WorkerError::Io(error))),
        }
    }

    /// The bytes that are written for a message.
    pub fn send(msg: &[u8]) -> (r: Vec<u8>)
        ensures
            r@ == frame(msg@),
    {
        let mut bytes: Vec<u8> = vstd::slice::slice_to_vec(msg);
        bytes.push(10);
        bytes
    }

    /// Sets the session identifier of a JSON message.
    ///
    /// Any JSON that is no object is written anew as it is. What is no JSON is left
    /// alone, and the error is given back.
    pub fn inject_session_id(msg: &mut Vec<u8>, session_id: &str) -> (r: Result<(), WorkerError>)
        ensures
            final(msg)@ == injected(old(msg)@, session_id@),
            match json::parse_result(old(msg)@) {
                Ok(_) => r is Ok,
                Err(text) => r matches Err(error) && error@ == WorkerErrorView::Json(text),
            },
            json::parse_result(old(msg)@) is Ok ==> json::is_json_text(final(msg)@) && is_one_line(
                frame(final(msg)@),
            ),
            injection_is_read_back(old(msg)@, session_id@),
            json::parse_result(old(msg)@) matches Ok(document) ==> document.exact(
                json::MAX_DEPTH as nat,
            ) ==> json::parse_result(final(msg)@) == Ok::<Json, Seq<char>>(
                document.with_field("sessionId"@, Json::Text(session_id@)),
            ),
            json::parse_result(old(msg)@) matches Ok(document) ==> document is Object
                ==> RoutingView::of(final(msg)@) == (RoutingView {
                session_id: if utf8::encode_utf8(session_id@).len() <= MAX_SESSION_ID_LEN {
                    Some(session_id@)
                } else {
                    None
                },
                ..RoutingView::of(old(msg)@)
            }),
    {
        let mut value: serde_json::Value = match parse_value(msg.as_slice()) {
            Ok(value) => value,
            Err(error) => {
                return Err(WorkerError::Json(error_text(&error)));
            },
        };
        let ghost document = json::content(value);
        let ghost sid = session_id@;
        set_session_id(&mut value, session_id);
        proof {
            json::lemma_text_field_reparses(document, "sessionId"@, sid);
        }
        match write_value(&value) {
            Ok(bytes) => {
                proof {
                    let back = json::parse_result(bytes@)->Ok_0;
                    let set = document.with_field("sessionId"@, Json::Text(sid));
                    if document.exact(json::MAX_DEPTH as nat) {
                        json::lemma_text_field_is_exact(
                            document,
                            "sessionId"@,
                            sid,
                            json::MAX_DEPTH as nat,
                        );
                        json::law_exact_documents_are_kept(set, back, json::MAX_DEPTH as nat);
                    }
                    json::lemma_read_back_agrees(set, back, json::MAX_DEPTH as nat);
                    routing::lemma_agreeing_routing(set, back, json::MAX_DEPTH as nat);
                    if document is Object {
                        routing::law_session_id_is_set(document, sid);
                    }
                }
                *msg = bytes;
                Ok(())
            },
            Err(error) => Err(WorkerError::Json(error_text(&error))),
        }
    }

    /// Whether the worker is waiting for an event of this sort.
    pub fn awaits(&self, event: &WorkerEvent) -> (r: bool)
        ensures
            r == self@.expects(event@),
    {
        match (&self.phase, event) {
            (WorkerPhase::Receiving, WorkerEvent::Read(_)) => true,
            (WorkerPhase::Handling(_), WorkerEvent::Handled(_)) => true,
            (WorkerPhase::Sending, WorkerEvent::Sent(_)) => true,
            (WorkerPhase::Draining, WorkerEvent::Drained) => true,
            _ => false,
        }
    }

    /// Tells the worker what happened, and what to do next.
    ///
    /// A request is handed to the handler, its response is sent with the session
    /// identifier of the request, and then the next line is read. A handler that
    /// fails or has no response, and a response that cannot be sent, do not stop
    /// the worker. The end of the input and a read error do. On shutdown the
    /// handler is told before the worker stops.
    pub fn run(&mut self, event: WorkerEvent) -> (r: WorkerAction)
        requires
            old(self)@.expects(event@),
        ensures
            final(self)@ == old(self)@.next(event@),
            r@ == old(self)@.action(event@),
            event@ matches WorkerEventView::Handled(Ok(Some(response))) ==> old(
                self,
            )@.reply_keeps_session(response),
    {
        match event {
            WorkerEvent::Read(event) => match self.recv(event) {
                Some(Ok(message)) => {
                    self.phase = WorkerPhase::Handling(clone_text(&message.routing.session_id));
                    WorkerAction::Handle(message)
                },
                Some(Err(WorkerError::Shutdown)) => {
                    self.phase = WorkerPhase::Draining;
                    WorkerAction::NotifyShutdown
                },
                Some(Err(_)) => {
                    self.phase = WorkerPhase::Stopped;
                    WorkerAction::Stop
                },
                None => WorkerAction::Read,
            },
            WorkerEvent::Handled(Ok(Some(response))) => {
                let mut reply: Vec<u8> = response;
                if let WorkerPhase::Handling(Some(session_id)) = &self.phase {
                    let _ = StdioBusWorker::inject_session_id(&mut reply, session_id.as_str());
                }
                let bytes: Vec<u8> = StdioBusWorker::send(reply.as_slice());
                self.phase = WorkerPhase::Sending;
                WorkerAction::Send(bytes)
            },
            WorkerEvent::Handled(_) => {
                self.phase = WorkerPhase::Receiving;
                WorkerAction::Read
            },
            WorkerEvent::Sent(_) => {
                self.phase = WorkerPhase::Receiving;
                WorkerAction::Read
            },
            WorkerEvent::Drained => {
                self.phase = WorkerPhase::Stopped;
                WorkerAction::Stop
            },
        }
    }
}

impl Default for StdioBusWorker {
    fn default() -> (r: Self)
        ensures
            r@ == WorkerView::start(),
    {
        StdioBusWorker::new()
    }
}

/// What is written for a message is read back as that message: its line, without the
/// line feed, is the same bytes, and so it has the same routing fields.
pub proof fn law_written_line_is_read_back(bytes: Seq<u8>)
    requires
        json::is_json_text(bytes),
    ensures
        utf8::valid_utf8(frame(bytes)),
        received(ReadEventView::Line(utf8::decode_utf8(frame(bytes))), false) == Some(
            Ok::<MessageView, WorkerErrorView>(
                MessageView { raw: bytes, routing: RoutingView::of(bytes) },
            ),
        ),
{
    let n = bytes.len() as int;
    let line_feed = seq![10u8];
    let text = utf8::decode_utf8(bytes);
    lemma_ascii_is_decoded(10);
    assert(frame(bytes) =~= bytes + line_feed);
    utf8::valid_utf8_concat(bytes, line_feed);
    utf8::is_char_boundary_iff_not_is_continuation_byte(frame(bytes), n);
    utf8::decode_utf8_split(frame(bytes), n);
    assert(frame(bytes).subrange(0, n) =~= bytes);
    assert(frame(bytes).subrange(n, n + 1) =~= line_feed);
    let line = utf8::decode_utf8(frame(bytes));
    assert(line =~= text.push('\n'));
    assert(line.drop_last() =~= text);
    utf8::is_char_boundary_iff_not_is_continuation_byte(bytes, n - 1);
    utf8::decode_utf8_split(bytes, n - 1);
    lemma_ascii_is_decoded(bytes.last());
    assert(bytes.subrange(n - 1, n) =~= seq![bytes.last()]);
    assert(text.last() == bytes.last() as char);
    assert(!text::is_blank(text.last()));
    assert(text::trimmed_end(line) == text::trimmed_end(text));
    assert(text::trimmed_end(text) == text);
    utf8::decode_utf8_encode_utf8(bytes);
}

/// An ASCII byte stands for the character of its number.
proof fn lemma_ascii_is_decoded(byte: u8)
    requires
        byte < 0x80,
    ensures
        utf8::valid_utf8(seq![byte]),
        utf8::decode_utf8(seq![byte]) == seq![byte as char],
{
    let bytes = seq![byte];
    assert((byte & 0x7F) as u32 == byte as u32) by (bit_vector)
        requires
            byte < 0x80,
    ;
    assert(utf8::pop_first_scalar(bytes) =~= Seq::empty());
    assert(utf8::valid_utf8(utf8::pop_first_scalar(bytes)));
    assert(utf8::decode_utf8(utf8::pop_first_scalar(bytes)) =~= Seq::empty());
    assert(utf8::decode_utf8(bytes) =~= seq![byte as char]);
}

/// While no shutdown is requested, a line without text is skipped, and no other is.
pub proof fn law_only_blank_lines_are_skipped(line: Seq<char>)
    ensures
        received(ReadEventView::Line(line), false) is None <==> forall|i: int|
            0 <= i < line.len() ==> text::is_blank(#[trigger] line[i]),
{
    text::law_blanks_at_the_end_are_cut(line);
}

/// Setting the session identifier of an object keeps every other field: none is added,
/// none goes, and a field is read back as it was, with each float as it comes back.
pub proof fn law_injection_keeps_other_fields(
    message: Seq<u8>,
    session_id: Seq<char>,
    key: Seq<char>,
)
    requires
        injection_is_read_back(message, session_id),
        json::parse_result(message) matches Ok(document) && document is Object,
        key != "sessionId"@,
    ensures
        ({
            let depth = (json::MAX_DEPTH - 1) as nat;
            let document = json::parse_result(message)->Ok_0;
            let back = json::parse_result(injected(message, session_id))->Ok_0;
            &&& back is Object
            &&& back.field("sessionId"@) == Some(Json::Text(session_id))
            &&& match (document.field(key), back.field(key)) {
                (Some(before), Some(after)) => before.reads_back_as(after, depth) && (before.exact(
                    depth,
                ) ==> after == before),
                (None, None) => true,
                _ => false,
            }
        }),
{
    let depth = (json::MAX_DEPTH - 1) as nat;
    let document = json::parse_result(message)->Ok_0;
    let back = json::parse_result(injected(message, session_id))->Ok_0;
    let set = document.with_field("sessionId"@, Json::Text(session_id));
    reveal_with_fuel(Json::reads_back_as, 2);
    if let (Json::Object(xs), Json::Object(ys)) = (set, back) {
        assert(xs.contains_key("sessionId"@));
        assert(xs.dom().contains("sessionId"@) <==> ys.dom().contains("sessionId"@));
        assert(xs.dom().contains(key) <==> ys.dom().contains(key));
        if xs.contains_key(key) && xs[key].exact(depth) {
            json::law_exact_documents_are_kept(xs[key], ys[key], depth);
        }
    }
}

/// JSON that is no object is read back as it was, with each float as it comes back.
pub proof fn law_injection_keeps_other_json(message: Seq<u8>, session_id: Seq<char>)
    requires
        injection_is_read_back(message, session_id),
        json::parse_result(message) matches Ok(document) && !(document is Object),
    ensures
        ({
            let document = json::parse_result(message)->Ok_0;
            let back = json::parse_result(injected(message, session_id))->Ok_0;
            &&& document.reads_back_as(back, json::MAX_DEPTH as nat)
            &&& document.exact(json::MAX_DEPTH as nat) ==> back == document
        }),
{
    let document = json::parse_result(message)->Ok_0;
    let back = json::parse_result(injected(message, session_id))->Ok_0;
    if document.exact(json::MAX_DEPTH as nat) {
        json::law_exact_documents_are_kept(document, back, json::MAX_DEPTH as nat);
    }
}

/// Setting the session identifier twice is setting the last one, byte for byte. This
/// speaks of a message whose floats are read back exactly, as every one without floats.
pub proof fn law_last_injection_counts(message: Seq<u8>, first: Seq<char>, last: Seq<char>)
    requires
        injection_is_read_back(message, first),
        json::parse_result(message) matches Ok(document) ==> document.exact(
            json::MAX_DEPTH as nat,
        ),
    ensures
        injected(injected(message, first), last) == injected(message, last),
{
    if let Ok(document) = json::parse_result(message) {
        json::lemma_text_field_is_exact(
            document,
            "sessionId"@,
            first,
            json::MAX_DEPTH as nat,
        );
        json::law_exact_documents_are_kept(
            document.with_field("sessionId"@, Json::Text(first)),
            json::parse_result(injected(message, first))->Ok_0,
            json::MAX_DEPTH as nat,
        );
        routing::law_last_session_id_stays(document, first, last);
    }
}

/// Setting the session identifier twice is setting the last one, up to the values of
/// floats, for every message.
pub proof fn law_last_injection_counts_up_to_floats(
    message: Seq<u8>,
    first: Seq<char>,
    last: Seq<char>,
)
    requires
        injection_is_read_back(message, first),
        injection_is_read_back(message, last),
        injection_is_read_back(injected(message, first), last),
    ensures
        match (
            json::parse_result(injected(message, last)),
            json::parse_result(injected(injected(message, first), last)),
        ) {
            (Ok(once), Ok(twice)) => once.agrees(twice, json::MAX_DEPTH as nat),
            (once, twice) => once == twice,
        },
{
    if let Ok(document) = json::parse_result(message) {
        let depth = json::MAX_DEPTH as nat;
        let set_first = document.with_field("sessionId"@, Json::Text(first));
        let set_last = document.with_field("sessionId"@, Json::Text(last));
        let between = json::parse_result(injected(message, first))->Ok_0;
        let set_again = between.with_field("sessionId"@, Json::Text(last));
        let once = json::parse_result(injected(message, last))->Ok_0;
        let twice = json::parse_result(injected(injected(message, first), last))->Ok_0;
        json::lemma_read_back_agrees(set_first, between, depth);
        json::lemma_read_back_agrees(set_last, once, depth);
        json::lemma_read_back_agrees(set_again, twice, depth);
        routing::law_last_session_id_stays(document, first, last);
        json::lemma_text_field_agrees(set_first, between, "sessionId"@, last, depth);
        json::lemma_agreement_joins(set_last, set_again, once, depth);
        json::lemma_agreement_joins(set_again, once, twice, depth);
    }
}

/// A request gets at most one response, and one request is handled at a time: while
/// a response is not awaited, no more responses were sent than requests handled,
/// and while one is awaited, fewer.
pub proof fn law_one_response_per_request(inputs: Seq<WorkerInput>)
    requires
        WorkerView::start().accepts(inputs),
    ensures
        WorkerView::start().responses(inputs) <= WorkerView::start().requests(inputs),
        WorkerView::start().after(inputs).phase is Handling ==> WorkerView::start().responses(
            inputs,
        ) < WorkerView::start().requests(inputs),
    decreases inputs.len(),
{
    if inputs.len() > 0 {
        law_one_response_per_request(inputs.drop_last());
    }
}

/// The session to which a response is awaited has an identifier within the limit.
pub proof fn law_awaited_session_is_bounded(inputs: Seq<WorkerInput>)
    requires
        WorkerView::start().accepts(inputs),
    ensures
        WorkerView::start().after(inputs).phase matches WorkerPhaseView::Handling(Some(session_id))
            ==> utf8::encode_utf8(session_id).len() <= MAX_SESSION_ID_LEN,
    decreases inputs.len(),
{
    if inputs.len() > 0 {
        law_awaited_session_is_bounded(inputs.drop_last());
    }
}

/// Once shutdown was requested, it stays requested.
pub proof fn law_shutdown_stays_requested(worker: WorkerView, inputs: Seq<WorkerInput>)
    requires
        worker.shutdown,
    ensures
        worker.after(inputs).shutdown,
    decreases inputs.len(),
{
    if inputs.len() > 0 {
        law_shutdown_stays_requested(worker, inputs.drop_last());
    }
}

/// Once shutdown was requested, a worker that waits for a line has the handler shut down,
/// whatever comes in: no line is taken any more.
pub proof fn law_shutdown_comes_first(worker: WorkerView, event: WorkerEventView)
    requires
        worker.shutdown,
        worker.phase is Receiving,
        worker.expects(event),
    ensures
        worker.action(event) is NotifyShutdown,
        worker.next(event).phase is Draining,
{
}

/// Once shutdown was requested, no further request is handed to the handler, whatever
/// happens then.
pub proof fn law_no_request_after_shutdown(worker: WorkerView, inputs: Seq<WorkerInput>)
    requires
        worker.shutdown,
    ensures
        worker.requests(inputs) == 0,
    decreases inputs.len(),
{
    if inputs.len() > 0 {
        law_no_request_after_shutdown(worker, inputs.drop_last());
        law_shutdown_stays_requested(worker, inputs.drop_last());
    }
}

/// A request in progress when shutdown is requested is completed: its response is sent,
/// and the worker waits for a line once more, to find the shutdown.
pub proof fn law_shutdown_lets_a_request_finish(
    worker: WorkerView,
    response: Seq<u8>,
    sent: bool,
)
    requires
        worker.shutdown,
        worker.phase is Handling,
    ensures
        ({
            let handled = WorkerEventView::Handled(Ok(Some(response)));
            let sending = worker.next(handled);
            &&& worker.action(handled) == WorkerActionView::Send(frame(worker.reply(response)))
            &&& sending.expects(WorkerEventView::Sent(sent))
            &&& sending.next(WorkerEventView::Sent(sent)).phase is Receiving
            &&& sending.next(WorkerEventView::Sent(sent)).shutdown
        }),
{
}

/// A worker whose handler is shutting down stops after that, and then for good.
pub proof fn law_shutdown_ends_the_worker(
    worker: WorkerView,
    event: WorkerEventView,
    any: WorkerEventView,
)
    requires
        worker.phase is Draining,
        worker.expects(event),
    ensures
        worker.action(event) is Stop,
        !worker.next(event).expects(any),
{
}

/// The handler is told to shut down at most once, and never before shutdown was
/// requested.
pub proof fn law_handler_is_told_once(inputs: Seq<WorkerInput>)
    requires
        WorkerView::start().accepts(inputs),
    ensures
        WorkerView::start().told(inputs) <= 1,
        WorkerView::start().told(inputs) > 0 ==> WorkerView::start().after(inputs).shutdown,
        WorkerView::start().told(inputs) > 0 ==> WorkerView::start().after(inputs).phase is Draining
            || WorkerView::start().after(inputs).phase is Stopped,
    decreases inputs.len(),
{
    if inputs.len() > 0 {
        law_handler_is_told_once(inputs.drop_last());
    }
}

/// A handler that fails, a message without a response and a response that cannot be
/// written leave the worker waiting for the next line.
pub proof fn law_failures_do_not_stop_the_worker(worker: WorkerView, event: WorkerEventView)
    requires
        worker.expects(event),
        worker.phase is Handling || worker.phase is Sending,
    ensures
        worker.next(event).phase is Receiving || worker.next(event).phase is Sending,
        !(worker.action(event) is Stop),
{
}

/// A message on a line is the message and one line feed behind it: without that it is
/// the message again, and different messages are on different lines. A line holds no other
/// line feed.
pub proof fn law_line_holds_the_message(message: Seq<u8>, other: Seq<u8>)
    ensures
        frame(message).len() == message.len() + 1,
        frame(message).last() == 10,
        frame(message).drop_last() == message,
        frame(message) == frame(other) ==> message == other,
        is_one_line(frame(message)) <==> forall|i: int|
            0 <= i < message.len() ==> #[trigger] message[i] != 10,
{
    assert(frame(message).drop_last() =~= message);
    assert(frame(other).drop_last() =~= other);
    if is_one_line(frame(message)) {
        assert forall|i: int| 0 <= i < message.len() implies #[trigger] message[i] != 10 by {
            assert(frame(message)[i] == message[i]);
        }
    } else {
        let i = choose|i: int|
            0 <= i < frame(message).len() - 1 && #[trigger] frame(message)[i] == 10;
        assert(message[i] == 10);
    }
}

/// A line is taken as the message that its text spells, without the blanks behind it. A
/// line of blanks is none.
pub proof fn law_line_is_taken_as_its_text(text: Seq<char>, blanks: Seq<char>)
    requires
        text.len() > 0 ==> !text::is_blank(text.last()),
        text::all_blank(blanks),
    ensures
        ({
            let taken = received(ReadEventView::Line(text + blanks), false);
            if text.len() == 0 {
                taken is None
            } else {
                taken matches Some(Ok(message)) && message.raw == utf8::encode_utf8(text)
                    && message.routing == RoutingView::of(utf8::encode_utf8(text))
            }
        }),
{
    text::law_text_is_left_of_its_blanks(text, blanks);
}

/// The end of the input and a read error are told as such, a change of the flag that
/// requests no shutdown is nothing, and a requested shutdown is told whatever else comes.
pub proof fn law_other_events_are_told(kind: IoErrorKind, text: Seq<char>, event: ReadEventView)
    ensures
        received(ReadEventView::Closed, false) == Some(
            Err::<MessageView, WorkerErrorView>(
                WorkerErrorView::Io(IoErrorKind::UnexpectedEof, "stdin closed"@),
            ),
        ),
        received(ReadEventView::Failed(kind, text), false) == Some(
            Err::<MessageView, WorkerErrorView>(WorkerErrorView::Io(kind, text)),
        ),
        received(ReadEventView::ShutdownChanged, false) is None,
        received(event, true) == Some(
            Err::<MessageView, WorkerErrorView>(WorkerErrorView::Shutdown),
        ),
{
}

/// A line that is no blank is handed to the handler as it stands, and then the worker
/// awaits the response for the session that the line names.
pub proof fn law_line_is_handed_over(worker: WorkerView, text: Seq<char>, blanks: Seq<char>)
    requires
        worker.phase is Receiving,
        !worker.shutdown,
        text.len() > 0,
        !text::is_blank(text.last()),
        text::all_blank(blanks),
    ensures
        ({
            let line = WorkerEventView::Read(ReadEventView::Line(text + blanks));
            let raw = utf8::encode_utf8(text);
            &&& worker.expects(line)
            &&& worker.action(line) == WorkerActionView::Handle(
                MessageView { raw, routing: RoutingView::of(raw) },
            )
            &&& worker.next(line).phase == WorkerPhaseView::Handling(RoutingView::of(raw).session_id)
            &&& !worker.next(line).shutdown
        }),
{
    text::law_text_is_left_of_its_blanks(text, blanks);
}

/// From the line that is read to the bytes that are sent: where a line is an object with
/// a session identifier within the limit, and the response to it is an object, the worker
/// sends that object with the same session identifier, on one line. Once it is read back,
/// it belongs to the session of the line, and its other routing fields are those of the
/// response.
pub proof fn law_response_goes_to_the_session_of_its_line(
    worker: WorkerView,
    text: Seq<char>,
    blanks: Seq<char>,
    request: Map<Seq<char>, Json>,
    session_id: Seq<char>,
    response: Seq<u8>,
    answer: Map<Seq<char>, Json>,
)
    requires
        worker.phase is Receiving,
        !worker.shutdown,
        text.len() > 0,
        !text::is_blank(text.last()),
        text::all_blank(blanks),
        json::parse_result(utf8::encode_utf8(text)) == Ok::<Json, Seq<char>>(Json::Object(request)),
        request.contains_key("sessionId"@),
        request["sessionId"@] == Json::Text(session_id),
        utf8::encode_utf8(session_id).len() <= 256,
        json::parse_result(response) == Ok::<Json, Seq<char>>(Json::Object(answer)),
    ensures
        ({
            let waiting = worker.next(WorkerEventView::Read(ReadEventView::Line(text + blanks)));
            let done = WorkerEventView::Handled(Ok(Some(response)));
            let sent = json::printed(
                Json::Object(answer.insert("sessionId"@, Json::Text(session_id))),
            );
            &&& waiting.phase == WorkerPhaseView::Handling(Some(session_id))
            &&& waiting.expects(done)
            &&& waiting.action(done) == WorkerActionView::Send(sent.push(10))
            &&& waiting.next(done).phase is Sending
            &&& waiting.reply_keeps_session(response) ==> {
                &&& RoutingView::of(sent).session_id == Some(session_id)
                &&& RoutingView::of(sent).id == RoutingView::of(response).id
                &&& RoutingView::of(sent).method == RoutingView::of(response).method
                &&& RoutingView::of(sent).is_response == RoutingView::of(response).is_response
                &&& RoutingView::of(sent).is_error == RoutingView::of(response).is_error
                &&& forall|i: int| 0 <= i < sent.len() ==> #[trigger] sent[i] != 10
            }
        }),
{
    law_line_is_handed_over(worker, text, blanks);
    routing::law_session_id_is_the_string_in_its_field(
        utf8::encode_utf8(text),
        request,
        session_id,
    );
    let waiting = worker.next(WorkerEventView::Read(ReadEventView::Line(text + blanks)));
    law_line_holds_the_message(waiting.reply(response), response);
}

/// A response is sent as it is, on a line, where the line that was read names no session
/// or the response is no JSON. JSON that is no object is printed anew.
pub proof fn law_other_responses_are_sent_as_they_are(
    worker: WorkerView,
    text: Seq<char>,
    blanks: Seq<char>,
    response: Seq<u8>,
)
    requires
        worker.phase is Receiving,
        !worker.shutdown,
        text.len() > 0,
        !text::is_blank(text.last()),
        text::all_blank(blanks),
    ensures
        ({
            let waiting = worker.next(WorkerEventView::Read(ReadEventView::Line(text + blanks)));
            let done = WorkerEventView::Handled(Ok(Some(response)));
            &&& RoutingView::of(utf8::encode_utf8(text)).session_id is None || json::parse_result(
                response,
            ) is Err ==> waiting.action(done) == WorkerActionView::Send(response.push(10))
            &&& RoutingView::of(utf8::encode_utf8(text)).session_id is Some ==> (json::parse_result(
                response,
            ) matches Ok(document) ==> !(document is Object) ==> waiting.action(done)
                == WorkerActionView::Send(json::printed(document).push(10)))
            &&& waiting.next(done).phase is Sending
        }),
{
    law_line_is_handed_over(worker, text, blanks);
}

/// Setting the session identifier of an object adds that field or replaces it, and prints
/// the object. Other JSON is printed as it is, and what is no JSON is left alone.
pub proof fn law_injection_sets_one_field(
    message: Seq<u8>,
    session_id: Seq<char>,
    fields: Map<Seq<char>, Json>,
)
    ensures
        json::parse_result(message) == Ok::<Json, Seq<char>>(Json::Object(fields)) ==> injected(
            message,
            session_id,
        ) == json::printed(Json::Object(fields.insert("sessionId"@, Json::Text(session_id)))),
        json::parse_result(message) matches Ok(document) ==> !(document is Object) ==> injected(
            message,
            session_id,
        ) == json::printed(document),
        json::parse_result(message) is Err ==> injected(message, session_id) == message,
{
}

/// After each event the worker does one thing and waits for one thing: it reads on after
/// a handler that had no response or failed, after a response was sent or could not be,
/// and after a change that requests no shutdown. It stops when the input ends or fails and
/// when the handler has shut down, and then it waits for nothing. No event requests a
/// shutdown.
pub proof fn law_worker_goes_on_or_stops(worker: WorkerView, event: WorkerEventView)
    ensures
        worker.expects(event) <==> match worker.phase {
            WorkerPhaseView::Receiving => event is Read,
            WorkerPhaseView::Handling(_) => event is Handled,
            WorkerPhaseView::Sending => event is Sent,
            WorkerPhaseView::Draining => event is Drained,
            WorkerPhaseView::Stopped => false,
        },
        worker.next(event).shutdown == worker.shutdown,
        event matches WorkerEventView::Handled(Ok(None)) ==> worker.action(event) is Read
            && worker.next(event).phase is Receiving,
        event matches WorkerEventView::Handled(Err(_)) ==> worker.action(event) is Read
            && worker.next(event).phase is Receiving,
        event is Sent ==> worker.action(event) is Read && worker.next(event).phase is Receiving,
        event is Drained ==> worker.action(event) is Stop && worker.next(event).phase is Stopped,
        !worker.shutdown && event == WorkerEventView::Read(ReadEventView::ShutdownChanged)
            ==> worker.action(event) is Read && worker.next(event).phase is Receiving,
        !worker.shutdown && event == WorkerEventView::Read(ReadEventView::Closed) ==> worker.action(
            event,
        ) is Stop && worker.next(event).phase is Stopped,
        !worker.shutdown ==> (event matches WorkerEventView::Read(ReadEventView::Failed(_, _))
            ==> worker.action(event) is Stop && worker.next(event).phase is Stopped),
        worker.shutdown && event is Read ==> worker.action(event) is NotifyShutdown
            && worker.next(event).phase is Draining,
        WorkerView::start().phase is Receiving,
        !WorkerView::start().shutdown,
{
}

/// A line of blanks is skipped: the worker reads on as if it had not come.
pub proof fn law_blank_line_changes_nothing(worker: WorkerView, blanks: Seq<char>)
    requires
        worker.phase is Receiving,
        !worker.shutdown,
        text::all_blank(blanks),
    ensures
        worker.action(WorkerEventView::Read(ReadEventView::Line(blanks))) is Read,
        worker.next(WorkerEventView::Read(ReadEventView::Line(blanks))) == worker,
{
    law_only_blank_lines_are_skipped(blanks);
}

/// An error is told by its sort and then by the whole of its text.
pub proof fn law_worker_errors_are_told_in_full(kind: IoErrorKind, text: Seq<char>)
    ensures
        WorkerErrorView::Io(kind, text).text() == "I/O error: "@ + text,
        WorkerErrorView::Json(text).text() == "JSON serialization error: "@ + text,
        WorkerErrorView::Handler(text).text() == "Handler error: "@ + text,
        WorkerErrorView::Shutdown.text() == "Shutdown requested"@,
{
}

/// What is said of errors, events and actions is said of what they hold.
pub proof fn law_worker_values_are_what_they_hold(
    error: WorkerError,
    bytes: Vec<u8>,
    message: Message,
    line: String,
    failure: IoError,
    handled: Handled,
    read: ReadEvent,
    outcome: Result<(), WorkerError>,
)
    ensures
        match (error@, error) {
            (WorkerErrorView::Io(kind, text), WorkerError::Io(held)) => kind == held.kind && text
                == held.message@,
            (WorkerErrorView::Json(text), WorkerError::Json(held)) => text == held@,
            (WorkerErrorView::Handler(text), WorkerError::Handler(held)) => text == held@,
            (WorkerErrorView::Shutdown, WorkerError::Shutdown) => true,
            _ => false,
        },
        handled_view(Ok(Some(bytes))) == Ok::<Option<Seq<u8>>, WorkerErrorView>(Some(bytes@)),
        handled_view(Ok(None)) == Ok::<Option<Seq<u8>>, WorkerErrorView>(None),
        handled_view(Err(error)) == Err::<Option<Seq<u8>>, WorkerErrorView>(error@),
        received_view(Some(Ok(message))) == Some(Ok::<MessageView, WorkerErrorView>(message@)),
        received_view(Some(Err(error))) == Some(Err::<MessageView, WorkerErrorView>(error@)),
        received_view(None) is None,
        ReadEvent::Line(line)@ == ReadEventView::Line(line@),
        ReadEvent::Failed(failure)@ == ReadEventView::Failed(failure.kind, failure.message@),
        ReadEvent::Closed@ is Closed,
        ReadEvent::ShutdownChanged@ is ShutdownChanged,
        WorkerEvent::Read(read)@ == WorkerEventView::Read(read@),
        WorkerEvent::Handled(handled)@ == WorkerEventView::Handled(handled_view(handled)),
        WorkerEvent::Sent(outcome)@ is Sent,
        WorkerEvent::Drained@ is Drained,
        WorkerAction::Send(bytes)@ == WorkerActionView::Send(bytes@),
        WorkerAction::Handle(message)@ == WorkerActionView::Handle(message@),
        WorkerAction::Read@ is Read,
        WorkerAction::NotifyShutdown@ is NotifyShutdown,
        WorkerAction::Stop@ is Stop,
{
}

} // verus!
