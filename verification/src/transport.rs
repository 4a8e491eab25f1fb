//! Two ways to exchange messages: plain lines, and lines that belong to sessions.

use crate::json::{self, Json};
use crate::message::{self, clone_text, Message, MessageView, RoutingView};
use crate::routing::parse_message;
use crate::text::{self, trim_end};
use crate::worker::{
    self, IoError, IoErrorKind, ReadEvent, ReadEventView, StdioBusWorker, WorkerError,
    WorkerErrorView,
};
use vstd::prelude::*;
use vstd::utf8;

verus! {

/// A way to exchange messages.
pub trait Transport {
    /// Whether messages belong to sessions.
    spec fn spec_worker_mode(&self) -> bool;

    /// The session of the last message.
    spec fn spec_session_id(&self) -> Option<Seq<char>>;

    /// What is made of an event while a line is awaited.
    spec fn spec_received(&self, event: ReadEventView) -> Option<
        Result<MessageView, WorkerErrorView>,
    >;

    /// What is written for a message.
    spec fn spec_sent(&self, msg: Seq<u8>) -> Result<Seq<u8>, WorkerErrorView>;

    /// Makes a message, an error or nothing of what happened while a line was
    /// awaited.
    fn recv(&mut self, event: ReadEvent) -> (r: Option<Result<Message, WorkerError>>)
        ensures
            worker::received_view(r) == old(self).spec_received(event@),
            final(self).spec_worker_mode() == old(self).spec_worker_mode(),
            forall|e: ReadEventView| #[trigger]
                final(self).spec_received(e) == old(self).spec_received(e),
            final(self).spec_session_id() == (match worker::received_view(r) {
                Some(Ok(message)) => if old(self).spec_worker_mode() {
                    message.routing.session_id
                } else {
                    old(self).spec_session_id()
                },
                _ => old(self).spec_session_id(),
            }),
    ;

    /// The bytes that are written for a message.
    fn send(&self, msg: &[u8]) -> (r: Result<Vec<u8>, WorkerError>)
        ensures
            match self.spec_sent(msg@) {
                Ok(bytes) => r matches Ok(given) && given@ == bytes,
                Err(error) => r matches Err(given) && given@ == error,
            },
    ;

    /// Whether messages belong to sessions.
    fn is_worker_mode(&self) -> (r: bool)
        ensures
            r == self.spec_worker_mode(),
    ;

    /// The session of the last message.
    fn current_session_id(&self) -> (r: Option<&str>)
        ensures
            match self.spec_session_id() {
                Some(text) => r matches Some(found) && found@ == text,
                None => r is None,
            },
    ;
}

/// Plain lines, without sessions.
#[derive(Debug)]
pub struct DirectStdioTransport {}

impl DirectStdioTransport {
    /// A transport of plain lines.
    pub fn new() -> (r: Self)
        ensures
            !r.spec_worker_mode(),
            r.spec_session_id() is None,
    {
        DirectStdioTransport {  }
    }
}

impl Default for DirectStdioTransport {
    fn default() -> (r: Self)
        ensures
            !r.spec_worker_mode(),
            r.spec_session_id() is None,
    {
        DirectStdioTransport::new()
    }
}

/// What plain lines are taken for: every line is a message, also one without text.
pub open spec fn direct_received(event: ReadEventView) -> Option<
    Result<MessageView, WorkerErrorView>,
> {
    match event {
        ReadEventView::ShutdownChanged => None,
        ReadEventView::Line(line) => Some(Ok(worker::line_message(line))),
        _ => worker::received(event, false),
    }
}

impl Transport for DirectStdioTransport {
    open spec fn spec_worker_mode(&self) -> bool {
        false
    }

    open spec fn spec_session_id(&self) -> Option<Seq<char>> {
        None
    }

    open spec fn spec_received(&self, event: ReadEventView) -> Option<
        Result<MessageView, WorkerErrorView>,
    > {
        direct_received(event)
    }

    open spec fn spec_sent(&self, msg: Seq<u8>) -> Result<Seq<u8>, WorkerErrorView> {
        Ok(worker::frame(msg))
    }

    fn recv(&mut self, event: ReadEvent) -> (r: Option<Result<Message, WorkerError>>) {
        match event {
            ReadEvent::ShutdownChanged => None,
            ReadEvent::Line(line) => Some(
                Ok(parse_message(trim_end(line.as_str()).as_bytes_vec())),
            ),
            ReadEvent::Closed => Some(
                Err(
                    WorkerError::Io(
                        IoError {
                            kind: IoErrorKind::UnexpectedEof,
                            message: "stdin closed".to_owned(),
                        },
                    ),
                ),
            ),
            ReadEvent::Failed(error) => Some(Err(WorkerError::Io(error))),
        }
    }

    fn send(&self, msg: &[u8]) -> (r: Result<Vec<u8>, WorkerError>) {
        Ok(StdioBusWorker::send(msg))
    }

    fn is_worker_mode(&self) -> (r: bool) {
        false
    }

    fn current_session_id(&self) -> (r: Option<&str>) {
        None
    }
}

/// Lines that belong to sessions: what is sent belongs to the session of the last
/// message that was received.
#[derive(Debug)]
pub struct StdioBusWorkerTransport {
    inner: StdioBusWorker,
    current_session_id: Option<String>,
}

impl StdioBusWorkerTransport {
    /// A transport that is in no session yet.
    pub fn new() -> (r: Self)
        ensures
            r.spec_worker_mode(),
            r.spec_session_id() is None,
            !r.shutdown_requested(),
    {
        StdioBusWorkerTransport { inner: StdioBusWorker::new(), current_session_id: None }
    }

    /// Whether shutdown was requested.
    pub closed spec fn shutdown_requested(&self) -> bool {
        self.inner@.shutdown
    }
}

impl Default for StdioBusWorkerTransport {
    fn default() -> (r: Self)
        ensures
            r.spec_worker_mode(),
            r.spec_session_id() is None,
            !r.shutdown_requested(),
    {
        StdioBusWorkerTransport::new()
    }
}

/// What is written for a message in a session, or in none.
pub open spec fn session_sent(session_id: Option<Seq<char>>, msg: Seq<u8>) -> Result<
    Seq<u8>,
    WorkerErrorView,
> {
    match session_id {
        None => Ok(worker::frame(msg)),
        Some(session_id) => match json::parse_result(msg) {
            Ok(_) => Ok(worker::frame(worker::injected(msg, session_id))),
            Err(text) => Err(WorkerErrorView::Json(text)),
        },
    }
}

impl Transport for StdioBusWorkerTransport {
    open spec fn spec_worker_mode(&self) -> bool {
        true
    }

    closed spec fn spec_session_id(&self) -> Option<Seq<char>> {
        message::text_view(self.current_session_id)
    }

    open spec fn spec_received(&self, event: ReadEventView) -> Option<
        Result<MessageView, WorkerErrorView>,
    > {
        worker::received(event, self.shutdown_requested())
    }

    open spec fn spec_sent(&self, msg: Seq<u8>) -> Result<Seq<u8>, WorkerErrorView> {
        session_sent(self.spec_session_id(), msg)
    }

    fn recv(&mut self, event: ReadEvent) -> (r: Option<Result<Message, WorkerError>>) {
        let received = self.inner.recv(event);
        if let Some(Ok(message)) = &received {
            self.current_session_id = clone_text(&message.routing.session_id);
        }
        received
    }

    fn send(&self, msg: &[u8]) -> (r: Result<Vec<u8>, WorkerError>) {
        let mut bytes: Vec<u8> = vstd::slice::slice_to_vec(msg);
        if let Some(session_id) = &self.current_session_id {
            if let Err(error) = StdioBusWorker::inject_session_id(&mut bytes, session_id.as_str()) {
                return Err(error);
            }
        }
        Ok(StdioBusWorker::send(bytes.as_slice()))
    }

    fn is_worker_mode(&self) -> (r: bool) {
        true
    }

    fn current_session_id(&self) -> (r: Option<&str>) {
        match &self.current_session_id {
            Some(session_id) => Some(session_id.as_str()),
            None => None,
        }
    }
}

/// One of the two transports.
#[derive(Debug)]
pub enum StdioTransport {
    Direct(DirectStdioTransport),
    Worker(StdioBusWorkerTransport),
}

impl Transport for StdioTransport {
    open spec fn spec_worker_mode(&self) -> bool {
        self is Worker
    }

    open spec fn spec_session_id(&self) -> Option<Seq<char>> {
        match self {
            StdioTransport::Direct(transport) => transport.spec_session_id(),
            StdioTransport::Worker(transport) => transport.spec_session_id(),
        }
    }

    open spec fn spec_received(&self, event: ReadEventView) -> Option<
        Result<MessageView, WorkerErrorView>,
    > {
        match self {
            StdioTransport::Direct(transport) => transport.spec_received(event),
            StdioTransport::Worker(transport) => transport.spec_received(event),
        }
    }

    open spec fn spec_sent(&self, msg: Seq<u8>) -> Result<Seq<u8>, WorkerErrorView> {
        match self {
            StdioTransport::Direct(transport) => transport.spec_sent(msg),
            StdioTransport::Worker(transport) => transport.spec_sent(msg),
        }
    }

    fn recv(&mut self, event: ReadEvent) -> (r: Option<Result<Message, WorkerError>>) {
        match self {
            StdioTransport::Direct(transport) => transport.recv(event),
            StdioTransport::Worker(transport) => transport.recv(event),
        }
    }

    fn send(&self, msg: &[u8]) -> (r: Result<Vec<u8>, WorkerError>) {
        match self {
            StdioTransport::Direct(transport) => transport.send(msg),
            StdioTransport::Worker(transport) => transport.send(msg),
        }
    }

    fn is_worker_mode(&self) -> (r: bool) {
        match self {
            StdioTransport::Direct(transport) => transport.is_worker_mode(),
            StdioTransport::Worker(transport) => transport.is_worker_mode(),
        }
    }

    fn current_session_id(&self) -> (r: Option<&str>) {
        match self {
            StdioTransport::Direct(transport) => transport.current_session_id(),
            StdioTransport::Worker(transport) => transport.current_session_id(),
        }
    }
}

/// The transport for worker mode, or the one for plain lines.
pub fn create_transport(worker_mode: bool) -> (r: StdioTransport)
    ensures
        r.spec_worker_mode() == worker_mode,
        r.spec_session_id() is None,
        r matches StdioTransport::Worker(transport) ==> !transport.shutdown_requested(),
{
    if worker_mode {
        StdioTransport::Worker(StdioBusWorkerTransport::new())
    } else {
        StdioTransport::Direct(DirectStdioTransport::new())
    }
}

/// A plain transport is never in a session, and what it sends is the message as it is,
/// on a line.
pub proof fn law_direct_transport_has_no_sessions(transport: DirectStdioTransport, msg: Seq<u8>)
    ensures
        transport.spec_session_id() is None,
        transport.spec_sent(msg) == Ok::<Seq<u8>, WorkerErrorView>(worker::frame(msg)),
{
}

/// On plain lines every line is a message, without the blanks behind it, and the flag of
/// the shutdown is not looked at.
pub proof fn law_direct_transport_takes_every_line(
    transport: DirectStdioTransport,
    text: Seq<char>,
    blanks: Seq<char>,
    kind: IoErrorKind,
    failure: Seq<char>,
)
    requires
        text.len() > 0 ==> !text::is_blank(text.last()),
        text::all_blank(blanks),
    ensures
        transport.spec_received(ReadEventView::Line(text + blanks)) matches Some(Ok(message))
            && message.raw == utf8::encode_utf8(text) && message.routing == RoutingView::of(
            utf8::encode_utf8(text),
        ),
        transport.spec_received(ReadEventView::ShutdownChanged) is None,
        transport.spec_received(ReadEventView::Closed) == Some(
            Err::<MessageView, WorkerErrorView>(
                WorkerErrorView::Io(IoErrorKind::UnexpectedEof, "stdin closed"@),
            ),
        ),
        transport.spec_received(ReadEventView::Failed(kind, failure)) == Some(
            Err::<MessageView, WorkerErrorView>(WorkerErrorView::Io(kind, failure)),
        ),
        !transport.spec_worker_mode(),
{
    text::law_text_is_left_of_its_blanks(text, blanks);
}

/// A transport of the bus sends an object with the session identifier that it is in, on a
/// line. In no session a message is sent as it is, and in one what is no JSON is refused.
/// It receives as a worker does.
pub proof fn law_worker_transport_sends_in_its_session(
    transport: StdioBusWorkerTransport,
    msg: Seq<u8>,
    session_id: Seq<char>,
    fields: Map<Seq<char>, Json>,
    event: ReadEventView,
)
    ensures
        transport.spec_worker_mode(),
        transport.spec_session_id() is None ==> transport.spec_sent(msg) == Ok::<
            Seq<u8>,
            WorkerErrorView,
        >(msg.push(10)),
        transport.spec_session_id() == Some(session_id) && json::parse_result(msg) == Ok::<
            Json,
            Seq<char>,
        >(Json::Object(fields)) ==> transport.spec_sent(msg) == Ok::<Seq<u8>, WorkerErrorView>(
            json::printed(
                Json::Object(fields.insert("sessionId"@, Json::Text(session_id))),
            ).push(10),
        ),
        transport.spec_session_id() is Some ==> (json::parse_result(msg) matches Ok(document)
            ==> !(document is Object) ==> transport.spec_sent(msg) == Ok::<
            Seq<u8>,
            WorkerErrorView,
        >(json::printed(document).push(10))),
        transport.spec_session_id() is Some ==> (json::parse_result(msg) matches Err(text)
            ==> transport.spec_sent(msg) == Err::<Seq<u8>, WorkerErrorView>(
            WorkerErrorView::Json(text),
        )),
        transport.spec_received(event) == worker::received(event, transport.shutdown_requested()),
{
}

/// Either transport does as the one that it is.
pub proof fn law_either_transport_does_as_it_is(
    direct: DirectStdioTransport,
    bus: StdioBusWorkerTransport,
    event: ReadEventView,
    msg: Seq<u8>,
)
    ensures
        ({
            let a = StdioTransport::Direct(direct);
            let b = StdioTransport::Worker(bus);
            &&& !a.spec_worker_mode() && b.spec_worker_mode()
            &&& a.spec_session_id() == direct.spec_session_id()
            &&& b.spec_session_id() == bus.spec_session_id()
            &&& a.spec_received(event) == direct.spec_received(event)
            &&& b.spec_received(event) == bus.spec_received(event)
            &&& a.spec_sent(msg) == direct.spec_sent(msg)
            &&& b.spec_sent(msg) == bus.spec_sent(msg)
        }),
{
}

} // verus!
