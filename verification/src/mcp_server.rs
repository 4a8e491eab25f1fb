//! The MCP server as a worker: sessions, requests and graceful shutdown.

use crate::json::{self, empty_object, error_text, set_field, Json};
use crate::mcp_model::{
    self, initialize_result_value, parse_incoming, InitializeResult, InitializeResultView,
    McpIncoming, McpIncomingView, McpRequest, McpRequestView,
};
use crate::message::{self, session_key, Message, RequestId, RequestIdView, RoutingView};
use crate::rpc::{
    self, error_value, response_value, to_bytes, RpcError, RpcErrorView,
    INVALID_REQUEST_ERROR_CODE, METHOD_NOT_FOUND_ERROR_CODE,
};
use crate::routing::{self, MAX_SESSION_ID_LEN};
use crate::session::{extract_thread_id, THREAD_PREFIX};
use crate::string_map::StringMap;
use crate::text::{self, debug_text, join};
use crate::worker::{
    self, Handled, WorkerError, WorkerErrorView, WorkerPhaseView, WorkerView,
};
use rmcp::model::Implementation;
use serde_json::Value;
use vstd::prelude::*;
use vstd::utf8;

verus! {

/// How long a shutdown waits for requests in progress, in seconds.
pub const DEFAULT_DRAIN_TIMEOUT_SEC: u64 = 30;

/// One session of the MCP server.
#[derive(Debug)]
pub struct McpWorkerSession {
    /// The identifier of the session.
    pub session_id: String,
    /// The thread that the identifier stands for.
    pub thread_id: Option<String>,
    /// Whether the client has started the session.
    pub initialized: bool,
    /// How the client named itself when it started the session.
    pub client_info: Option<Implementation>,
}

/// What an [`McpWorkerSession`] holds.
#[verifier::ext_equal]
pub struct McpSessionView {
    pub session_id: Seq<char>,
    pub thread_id: Option<Seq<char>>,
    pub initialized: bool,
    pub client_info: Option<Implementation>,
}

impl View for McpWorkerSession {
    type V = McpSessionView;

    open spec fn view(&self) -> McpSessionView {
        McpSessionView {
            session_id: self.session_id@,
            thread_id: message::text_view(self.thread_id),
            initialized: self.initialized,
            client_info: self.client_info,
        }
    }
}

impl McpSessionView {
    /// A session that was not started yet.
    pub open spec fn fresh(session_id: Seq<char>) -> McpSessionView {
        McpSessionView {
            session_id,
            thread_id: text::stripped(session_id, THREAD_PREFIX@),
            initialized: false,
            client_info: None,
        }
    }

    /// The session once the client has started it.
    pub open spec fn started(self, client_info: Option<Implementation>) -> McpSessionView {
        McpSessionView { initialized: true, client_info, ..self }
    }
}

impl McpWorkerSession {
    /// A session that was not started yet.
    pub fn new(session_id: String) -> (r: Self)
        ensures
            r@ == McpSessionView::fresh(session_id@),
    {
        let thread_id: Option<String> = match extract_thread_id(session_id.as_str()) {
            Some(thread_id) => Some(thread_id.to_owned()),
            None => None,
        };
        McpWorkerSession { session_id, thread_id, initialized: false, client_info: None }
    }
}

/// The state of the MCP server.
#[verifier::ext_equal]
pub struct McpServerView {
    pub sessions: Map<Seq<char>, McpSessionView>,
    pub pending: usize,
    pub drain_timeout_sec: u64,
    pub server_version: Seq<char>,
    pub tools: Json,
}

/// The debug form of a method that may be absent.
pub open spec fn method_debug(method: Option<Seq<char>>) -> Seq<char> {
    match method {
        Some(method) => "Some("@ + text::debug_form(method) + ")"@,
        None => "None"@,
    }
}

impl McpServerView {
    /// The session of this name, as it is or as it would be made.
    pub open spec fn session(self, session_id: Seq<char>) -> McpSessionView {
        if self.sessions.contains_key(session_id) {
            self.sessions[session_id]
        } else {
            McpSessionView::fresh(session_id)
        }
    }

    /// The state with the session of this name made, if it was not there.
    pub open spec fn with_session(self, session_id: Seq<char>) -> McpServerView {
        McpServerView {
            sessions: self.sessions.insert(session_id, self.session(session_id)),
            ..self
        }
    }

    /// The state with the session of this name started, if it is there.
    pub open spec fn with_started(
        self,
        session_id: Seq<char>,
        client_info: Option<Implementation>,
    ) -> McpServerView {
        if self.sessions.contains_key(session_id) {
            McpServerView {
                sessions: self.sessions.insert(
                    session_id,
                    self.sessions[session_id].started(client_info),
                ),
                ..self
            }
        } else {
            self
        }
    }

    /// The state without sessions.
    pub open spec fn cleaned_up(self) -> McpServerView {
        McpServerView { sessions: Map::empty(), ..self }
    }

    /// What the server answers to the start of a session.
    pub open spec fn initialize_result(self, protocol_version: Seq<char>) -> InitializeResultView {
        InitializeResultView {
            protocol_version,
            tools_list_changed: true,
            server_name: "codex-mcp-server"@,
            server_title: "Codex"@,
            server_version: self.server_version,
        }
    }

    /// The list of the tools.
    pub open spec fn tools_result(self) -> Json {
        rpc::no_fields().with_field("tools"@, self.tools)
    }

    /// The response to a request.
    pub open spec fn response(
        self,
        routing: RoutingView,
        id: RequestIdView,
        request: McpRequestView,
    ) -> Json {
        let started = self.session(routing.session_key()).initialized;
        match request {
            McpRequestView::Initialize { protocol_version, .. } => if started {
                rpc::error_json(
                    id.json(),
                    RpcErrorView::plain(
                        INVALID_REQUEST_ERROR_CODE,
                        "Session already initialized"@,
                    ),
                )
            } else {
                rpc::response_json(id.json(), self.initialize_result(protocol_version).json())
            },
            McpRequestView::Ping => rpc::response_json(id.json(), rpc::no_fields()),
            McpRequestView::ListTools => rpc::response_json(id.json(), self.tools_result()),
            McpRequestView::Other => if started {
                rpc::error_json(
                    id.json(),
                    RpcErrorView::plain(
                        METHOD_NOT_FOUND_ERROR_CODE,
                        "Method not yet implemented in worker mode: "@ + method_debug(
                            routing.method,
                        ),
                    ),
                )
            } else {
                rpc::error_json(
                    id.json(),
                    RpcErrorView::plain(INVALID_REQUEST_ERROR_CODE, "Session not initialized"@),
                )
            },
        }
    }

    /// The response to a message: requests have one, and nothing else has.
    pub open spec fn reply(self, routing: RoutingView, incoming: McpIncomingView) -> Option<Json> {
        match incoming {
            McpIncomingView::Request { id, request } => Some(self.response(routing, id, request)),
            _ => None,
        }
    }

    /// The state after a message: a request has its session made, and starts it if
    /// it is to start it and was the first to do so.
    pub open spec fn next(self, routing: RoutingView, incoming: McpIncomingView) -> McpServerView {
        let key = routing.session_key();
        match incoming {
            McpIncomingView::Request {
                request: McpRequestView::Initialize { client_info, .. },
                ..
            } => if self.session(key).initialized {
                self.with_session(key)
            } else {
                self.with_session(key).with_started(key, Some(client_info))
            },
            McpIncomingView::Request { .. } => self.with_session(key),
            _ => self,
        }
    }
}

/// Whether what a handler gave back is this document, written, or nothing.
pub open spec fn gives(handled: Handled, reply: Option<Json>) -> bool {
    match reply {
        Some(document) => handled matches Ok(Some(bytes)) && rpc::written(bytes@, document),
        None => handled matches Ok(None),
    }
}

/// What to do next while the server shuts down.
#[derive(Debug, Clone, Copy, PartialEq, Eq, Structural)]
pub enum DrainAction {
    /// Wait until a request ends, but no longer in all than this many seconds.
    Wait { timeout_sec: u64 },
    /// The requests are done, or there were none, and the sessions, as many as this,
    /// are cleaned up.
    CleanUp { sessions: usize },
    /// The time is over with requests still in progress, and the sessions are cleaned
    /// up all the same.
    GiveUp { sessions: usize, remaining: usize },
}

/// What happened while the server shuts down.
#[derive(Debug, Clone, Copy, PartialEq, Eq, Structural)]
pub enum DrainEvent {
    /// Shutdown was requested.
    Begin,
    /// A request ended.
    RequestEnded,
    /// The time is over.
    TimedOut,
}

/// The MCP server. It carries a configuration for its owner.
#[verifier::reject_recursive_types(C)]
pub struct McpServerWorkerHandler<C> {
    config: C,
    sessions: StringMap<McpWorkerSession>,
    pending_requests: usize,
    drain_timeout_sec: u64,
    server_version: String,
    tools: Value,
}

impl<C> View for McpServerWorkerHandler<C> {
    type V = McpServerView;

    closed spec fn view(&self) -> McpServerView {
        McpServerView {
            sessions: self.sessions@.map_values(|session: McpWorkerSession| session@),
            pending: self.pending_requests,
            drain_timeout_sec: self.drain_timeout_sec,
            server_version: self.server_version@,
            tools: json::content(self.tools),
        }
    }
}

impl<C> McpServerWorkerHandler<C> {
    /// The configuration that the server carries.
    pub closed spec fn spec_config(&self) -> C {
        self.config
    }

    /// A server without sessions, with the usual time limit on shutdown. It tells
    /// clients its version and its tools.
    pub fn new(config: C, server_version: &str, tools: Value) -> (r: Self)
        ensures
            r.spec_config() == config,
            r@ == (McpServerView {
                sessions: Map::empty(),
                pending: 0,
                drain_timeout_sec: DEFAULT_DRAIN_TIMEOUT_SEC,
                server_version: server_version@,
                tools: json::content(tools),
            }),
    {
        McpServerWorkerHandler::with_drain_timeout(
            config,
            server_version,
            tools,
            DEFAULT_DRAIN_TIMEOUT_SEC,
        )
    }

    /// A server without sessions, with a time limit on shutdown of its own.
    pub fn with_drain_timeout(
        config: C,
        server_version: &str,
        tools: Value,
        drain_timeout_sec: u64,
    ) -> (r: Self)
        ensures
            r.spec_config() == config,
            r@ == (McpServerView {
                sessions: Map::empty(),
                pending: 0,
                drain_timeout_sec,
                server_version: server_version@,
                tools: json::content(tools),
            }),
    {
        let r = McpServerWorkerHandler {
            config,
            sessions: StringMap::new(),
            pending_requests: 0,
            drain_timeout_sec,
            server_version: server_version.to_owned(),
            tools,
        };
        assert(r@.sessions =~= Map::<Seq<char>, McpSessionView>::empty());
        r
    }

    /// Counts a request that begins.
    pub fn increment_pending(&mut self)
        ensures
            final(self)@ == (McpServerView {
                pending: old(self)@.pending.wrapping_add(1),
                ..old(self)@
            }),
            final(self).spec_config() == old(self).spec_config(),
    {
        self.pending_requests = self.pending_requests.wrapping_add(1);
    }

    /// Counts a request that ends, and tells whether it was the last.
    pub fn decrement_pending(&mut self) -> (r: bool)
        ensures
            final(self)@ == (McpServerView {
                pending: old(self)@.pending.wrapping_sub(1),
                ..old(self)@
            }),
            final(self).spec_config() == old(self).spec_config(),
            r == (old(self)@.pending == 1),
    {
        let before: usize = self.pending_requests;
        self.pending_requests = before.wrapping_sub(1);
        before == 1
    }

    /// The number of requests in progress.
    pub fn pending_count(&self) -> (r: usize)
        ensures
            r == self@.pending,
    {
        self.pending_requests
    }

    /// The configuration that the server carries.
    pub fn config(&self) -> (r: &C)
        ensures
            *r == self.spec_config(),
    {
        &self.config
    }

    /// The session of this name, which is made if it is not there.
    pub fn get_or_create_session(&mut self, session_id: &str) -> (r: &McpWorkerSession)
        ensures
            final(self)@ == old(self)@.with_session(session_id@),
            final(self).spec_config() == old(self).spec_config(),
            r@ == old(self)@.session(session_id@),
    {
        if !self.sessions.contains_key(session_id) {
            let session: McpWorkerSession = McpWorkerSession::new(session_id.to_owned());
            self.sessions.insert(session_id, session);
        }
        proof {
            assert(self@.sessions =~= old(self)@.with_session(session_id@).sessions);
        }
        self.sessions.get(session_id).unwrap()
    }

    /// Marks a session as started, if it is there.
    pub fn mark_session_initialized(
        &mut self,
        session_id: &str,
        client_info: Option<Implementation>,
    )
        ensures
            final(self)@ == old(self)@.with_started(session_id@, client_info),
            final(self).spec_config() == old(self).spec_config(),
    {
        match self.sessions.remove(session_id) {
            Some(session) => {
                let mut session: McpWorkerSession = session;
                session.initialized = true;
                session.client_info = client_info;
                self.sessions.insert(session_id, session);
            },
            None => {},
        }
        proof {
            assert(self@.sessions =~= old(self)@.with_started(session_id@, client_info).sessions);
        }
    }

    /// What the server answers to the start of a session that was or was not started
    /// before. A session is started once.
    pub fn handle_initialize(
        &self,
        initialized: bool,
        protocol_version: &str,
    ) -> (r: Result<InitializeResult, RpcError>)
        ensures
            match r {
                Ok(result) => !initialized && result@ == self@.initialize_result(protocol_version@),
                Err(error) => initialized && error@ == RpcErrorView::plain(
                    INVALID_REQUEST_ERROR_CODE,
                    "Session already initialized"@,
                ),
            },
    {
        if initialized {
            return Err(
                RpcError {
                    code: INVALID_REQUEST_ERROR_CODE,
                    message: "Session already initialized".to_owned(),
                    data: None,
                },
            );
        }
        Ok(
            InitializeResult {
                protocol_version: protocol_version.to_owned(),
                tools_list_changed: true,
                server_name: "codex-mcp-server".to_owned(),
                server_title: "Codex".to_owned(),
                server_version: self.server_version.clone(),
            },
        )
    }

    /// What the server answers to a sign of life: an object without fields.
    pub fn handle_ping(&self) -> (r: Value)
        ensures
            json::content(r) == rpc::no_fields(),
    {
        empty_object()
    }

    /// The list of the tools.
    pub fn handle_list_tools(&self) -> (r: Value)
        ensures
            json::content(r) == self@.tools_result(),
    {
        let mut result: Value = empty_object();
        set_field(&mut result, "tools", self.tools.clone());
        result
    }

    /// The response with a result.
    pub fn build_response(request_id: &RequestId, result: Value) -> (r: Value)
        ensures
            json::content(r) == rpc::response_json(request_id@.json(), json::content(result)),
    {
        response_value(request_id.to_value(), result)
    }

    /// The response with an error.
    pub fn build_error_response(request_id: &RequestId, error: RpcError) -> (r: Value)
        ensures
            json::content(r) == rpc::error_json(request_id@.json(), error@),
    {
        error_value(request_id.to_value(), error)
    }

    /// The response to a request that the server does not serve.
    fn refuse(request_id: &RequestId, initialized: bool, method: &Option<String>) -> (r: Value)
        ensures
            json::content(r) == rpc::error_json(
                request_id@.json(),
                if initialized {
                    RpcErrorView::plain(
                        METHOD_NOT_FOUND_ERROR_CODE,
                        "Method not yet implemented in worker mode: "@ + method_debug(
                            message::text_view(*method),
                        ),
                    )
                } else {
                    RpcErrorView::plain(INVALID_REQUEST_ERROR_CODE, "Session not initialized"@)
                },
            ),
    {
        let error: RpcError = if !initialized {
            RpcError {
                code: INVALID_REQUEST_ERROR_CODE,
                message: "Session not initialized".to_owned(),
                data: None,
            }
        } else {
            let shown: String = match method {
                Some(method) => join(
                    join("Some(", debug_text(method.as_str()).as_str()).as_str(),
                    ")",
                ),
                None => "None".to_owned(),
            };
            RpcError {
                code: METHOD_NOT_FOUND_ERROR_CODE,
                message: join("Method not yet implemented in worker mode: ", shown.as_str()),
                data: None,
            }
        };
        McpServerWorkerHandler::<C>::build_error_response(request_id, error)
    }

    /// Answers a message that was read. Requests are answered, and nothing else is.
    pub fn answer(
        &mut self,
        session_id: &Option<String>,
        method: &Option<String>,
        incoming: McpIncoming,
    ) -> (r: Handled)
        ensures
            ({
                let routing = RoutingView {
                    session_id: message::text_view(*session_id),
                    method: message::text_view(*method),
                    ..RoutingView::none()
                };
                &&& final(self)@ == old(self)@.next(routing, incoming@)
                &&& gives(r, old(self)@.reply(routing, incoming@))
            }),
            final(self).spec_config() == old(self).spec_config(),
    {
        let (request_id, request) = match incoming {
            McpIncoming::Request { id, request } => (id, request),
            _ => {
                return Ok(None);
            },
        };
        let key: String = session_key(session_id);
        self.increment_pending();
        let initialized: bool = self.get_or_create_session(key.as_str()).initialized;
        let response: Value = match request {
            McpRequest::Initialize { protocol_version, client_info } => {
                match self.handle_initialize(initialized, protocol_version.as_str()) {
                    Ok(result) => {
                        self.mark_session_initialized(key.as_str(), Some(client_info));
                        match initialize_result_value(result) {
                            Ok(value) => McpServerWorkerHandler::<C>::build_response(
                                &request_id,
                                value,
                            ),
                            Err(error) => {
                                return Err(
                                    WorkerError::Handler(
                                        join(
                                            "Failed to serialize initialize result: ",
                                            error_text(&error).as_str(),
                                        ),
                                    ),
                                );
                            },
                        }
                    },
                    Err(error) => McpServerWorkerHandler::<C>::build_error_response(
                        &request_id,
                        error,
                    ),
                }
            },
            McpRequest::Ping => McpServerWorkerHandler::<C>::build_response(
                &request_id,
                self.handle_ping(),
            ),
            McpRequest::ListTools => McpServerWorkerHandler::<C>::build_response(
                &request_id,
                self.handle_list_tools(),
            ),
            McpRequest::Other => McpServerWorkerHandler::<C>::refuse(
                &request_id,
                initialized,
                method,
            ),
        };
        match to_bytes(&response) {
            Ok(bytes) => {
                self.decrement_pending();
                Ok(Some(bytes))
            },
            Err(text) => Err(
                WorkerError::Handler(join("Failed to serialize response: ", text.as_str())),
            ),
        }
    }

    /// Handles a message: reads it and answers it. A response is ignored, and what is
    /// no MCP message is an error.
    pub fn handle(&mut self, msg: Message) -> (r: Handled)
        ensures
            final(self).spec_config() == old(self).spec_config(),
            if msg@.routing.is_response {
                final(self)@ == old(self)@ && gives(r, None)
            } else {
                match mcp_model::mcp_parse_result(msg@.raw) {
                    Ok(incoming) => final(self)@ == old(self)@.next(msg@.routing, incoming)
                        && gives(r, old(self)@.reply(msg@.routing, incoming)),
                    Err(text) => final(self)@ == old(self)@ && worker::handled_view(r) == Err::<
                        Option<Seq<u8>>,
                        WorkerErrorView,
                    >(WorkerErrorView::Handler("Failed to parse MCP message: "@ + text)),
                }
            },
            r matches Ok(Some(bytes)) ==> rpc::fits_in_response(old(self)@.tools_result()) ==> {
                &&& RoutingView::of(bytes@).is_response
                &&& RoutingView::of(bytes@).id == RoutingView::of(msg@.raw).id
                &&& json::parse_result(msg@.raw) matches Ok(asked)
                &&& json::parse_result(bytes@) matches Ok(given)
                &&& RequestIdView::in_document(asked) is Some
                &&& RequestIdView::in_document(given) == RequestIdView::in_document(asked)
            },
    {
        if msg.routing.is_response {
            return Ok(None);
        }
        let incoming: McpIncoming = match parse_incoming(msg.raw.as_slice()) {
            Ok(incoming) => incoming,
            Err(error) => {
                return Err(
                    WorkerError::Handler(
                        join("Failed to parse MCP message: ", error_text(&error).as_str()),
                    ),
                );
            },
        };
        let ghost before = self@;
        let ghost seen = incoming@;
        let ghost routing = RoutingView {
            session_id: msg@.routing.session_id,
            method: msg@.routing.method,
            ..RoutingView::none()
        };
        let r = self.answer(&msg.routing.session_id, &msg.routing.method, incoming);
        proof {
            assert(before.reply(routing, seen) == before.reply(msg@.routing, seen));
            assert(before.next(routing, seen) == before.next(msg@.routing, seen));
            if let McpIncomingView::Request { id, request } = seen {
                law_response_is_readable(before, msg@.routing, id, request);
                let response = before.response(msg@.routing, id, request);
                if response.reparses() {
                    let back = json::parse_result(r->Ok_0->0@)->Ok_0;
                    json::lemma_read_back_agrees(response, back, json::MAX_DEPTH as nat);
                    routing::lemma_agreeing_routing(response, back, json::MAX_DEPTH as nat);
                }
            }
        }
        r
    }

    /// Forgets all sessions.
    fn clean_up(&mut self)
        ensures
            final(self)@ == old(self)@.cleaned_up(),
            final(self).spec_config() == old(self).spec_config(),
    {
        self.sessions = StringMap::new();
        assert(self@.sessions =~= Map::<Seq<char>, McpSessionView>::empty());
    }

    /// Tells the server what happened while it shuts down, and what to do next: wait
    /// for the requests in progress, within the time limit. When they are done, or the
    /// time is over, all sessions are cleaned up.
    pub fn on_shutdown(&mut self, event: DrainEvent) -> (r: DrainAction)
        ensures
            r == (if event == DrainEvent::TimedOut {
                DrainAction::GiveUp {
                    sessions: old(self)@.sessions.dom().len() as usize,
                    remaining: old(self)@.pending,
                }
            } else if old(self)@.pending == 0 {
                DrainAction::CleanUp { sessions: old(self)@.sessions.dom().len() as usize }
            } else {
                DrainAction::Wait { timeout_sec: old(self)@.drain_timeout_sec }
            }),
            old(self)@.sessions.dom().len() <= usize::MAX,
            r is Wait ==> final(self)@ == old(self)@,
            !(r is Wait) ==> final(self)@ == old(self)@.cleaned_up(),
            final(self).spec_config() == old(self).spec_config(),
    {
        let sessions: usize = self.sessions.len();
        assert(self@.sessions.dom() =~= self.sessions@.dom());
        match event {
            DrainEvent::TimedOut => {
                self.clean_up();
                DrainAction::GiveUp { sessions, remaining: self.pending_requests }
            },
            _ => if self.pending_requests == 0 {
                self.clean_up();
                DrainAction::CleanUp { sessions }
            } else {
                DrainAction::Wait { timeout_sec: self.drain_timeout_sec }
            },
        }
    }
}

/// The response to a request is a response with its identifier, an error exactly
/// where the session does not allow the request, and readable unless the tools are
/// not.
pub proof fn law_response_is_readable(
    server: McpServerView,
    routing: RoutingView,
    id: RequestIdView,
    request: McpRequestView,
)
    ensures
        ({
            let response = server.response(routing, id, request);
            let started = server.session(routing.session_key()).initialized;
            &&& RoutingView::of_document(response) == (RoutingView {
                id: id.routed(),
                is_response: true,
                is_error: request is Other || (request is Initialize && started),
                ..RoutingView::none()
            })
            &&& response is Object
            &&& response.field("id"@) == Some(id.json())
            &&& !(request is ListTools) || rpc::fits_in_response(server.tools_result())
                ==> response.reparses()
        }),
{
    let started = server.session(routing.session_key()).initialized;
    let result = match request {
        McpRequestView::Initialize { protocol_version, .. } => {
            mcp_model::lemma_initialize_result_fits(server.initialize_result(protocol_version));
            server.initialize_result(protocol_version).json()
        },
        McpRequestView::ListTools => server.tools_result(),
        _ => rpc::no_fields(),
    };
    let (code, message) = match request {
        McpRequestView::Initialize { .. } => (
            INVALID_REQUEST_ERROR_CODE,
            "Session already initialized"@,
        ),
        _ => if started {
            (
                METHOD_NOT_FOUND_ERROR_CODE,
                "Method not yet implemented in worker mode: "@ + method_debug(routing.method),
            )
        } else {
            (INVALID_REQUEST_ERROR_CODE, "Session not initialized"@)
        },
    };
    rpc::law_responses_are_routed(id.json(), result, RpcErrorView::plain(code, message));
    rpc::lemma_responses_reparse(id.json(), result, code, message);
}

/// The answer to a request of a session is sent to that session: what the worker writes
/// for it has the identifier of the request and the identifier of the session. Where the
/// request is for the list of the tools, this speaks of tools that can be read in a
/// response.
pub proof fn law_answer_reaches_its_session(
    server: McpServerView,
    routing: RoutingView,
    id: RequestIdView,
    request: McpRequestView,
    worker: WorkerView,
    answer: Seq<u8>,
)
    requires
        routing.session_id matches Some(session_id) && utf8::encode_utf8(session_id).len()
            <= MAX_SESSION_ID_LEN,
        worker.phase == WorkerPhaseView::Handling(routing.session_id),
        worker.reply_keeps_session(answer),
        rpc::written(answer, server.response(routing, id, request)),
        request is ListTools ==> rpc::fits_in_response(server.tools_result()),
    ensures
        worker::is_one_line(worker::frame(worker.reply(answer))),
        ({
            let sent = RoutingView::of(worker.reply(answer));
            &&& sent.id == id.routed()
            &&& sent.session_id == routing.session_id
            &&& sent.is_response
        }),
        json::parse_result(worker.reply(answer)) matches Ok(sent) && RequestIdView::in_document(sent)
            == Some(id),
{
    let response = server.response(routing, id, request);
    law_response_is_readable(server, routing, id, request);
    rpc::law_response_reaches_its_session(worker, routing.session_id->0, answer, response);
}

impl McpServerView {
    /// Whether each session is kept under its identifier, with the thread that this
    /// stands for.
    pub open spec fn sessions_are_named(self) -> bool {
        forall|key: Seq<char>| #[trigger]
            self.sessions.contains_key(key) ==> self.sessions[key].session_id == key
                && self.sessions[key].thread_id == text::stripped(key, THREAD_PREFIX@)
    }
}

/// Sessions are kept under their identifiers, after every operation.
pub proof fn law_sessions_keep_their_names(
    server: McpServerView,
    routing: RoutingView,
    incoming: McpIncomingView,
    session_id: Seq<char>,
    client_info: Option<Implementation>,
)
    requires
        server.sessions_are_named(),
    ensures
        server.with_session(session_id).sessions_are_named(),
        server.with_started(session_id, client_info).sessions_are_named(),
        server.next(routing, incoming).sessions_are_named(),
{
}

/// A message touches the session that it belongs to and no other, and it leaves the
/// number of requests in progress as it was.
pub proof fn law_sessions_are_independent(
    server: McpServerView,
    routing: RoutingView,
    incoming: McpIncomingView,
    other: Seq<char>,
)
    requires
        other != routing.session_key(),
    ensures
        server.next(routing, incoming).sessions.contains_key(other)
            <==> server.sessions.contains_key(other),
        server.next(routing, incoming).session(other) == server.session(other),
        server.next(routing, incoming).pending == server.pending,
{
}

/// A session that was started stays started, with the client that started it.
pub proof fn law_started_session_stays(
    server: McpServerView,
    routing: RoutingView,
    incoming: McpIncomingView,
    session_id: Seq<char>,
)
    requires
        server.session(session_id).initialized,
    ensures
        server.next(routing, incoming).session(session_id) == server.session(session_id),
{
}

/// A session is started at most once: after a request to start it, it is started, and
/// the next such request is refused.
pub proof fn law_session_starts_once(
    server: McpServerView,
    routing: RoutingView,
    first: McpIncomingView,
    again: RequestIdView,
    protocol_version: Seq<char>,
    client_info: Implementation,
)
    requires
        first matches McpIncomingView::Request { request, .. } && request is Initialize,
    ensures
        server.next(routing, first).session(routing.session_key()).initialized,
        server.next(routing, first).response(
            routing,
            again,
            McpRequestView::Initialize { protocol_version, client_info },
        ) == rpc::error_json(
            again.json(),
            RpcErrorView::plain(INVALID_REQUEST_ERROR_CODE, "Session already initialized"@),
        ),
{
}

/// After the clean-up every session starts over.
pub proof fn law_cleaned_up_sessions_start_over(server: McpServerView, session_id: Seq<char>)
    ensures
        !server.cleaned_up().sessions.contains_key(session_id),
        server.cleaned_up().session(session_id) == McpSessionView::fresh(session_id),
        server.cleaned_up().sessions_are_named(),
{
}

/// Counting a request that begins and then one that ends leaves the number as it was,
/// also at the limit of the counter.
pub proof fn law_pending_count_is_restored(pending: usize)
    ensures
        pending.wrapping_add(1).wrapping_sub(1) == pending,
{
}

/// Only a request to start a session starts it: where a session was not started before a
/// message and is after it, the message is such a request of that session, and the client
/// that is kept is the one that it names.
pub proof fn law_only_initialize_starts_a_session(
    server: McpServerView,
    routing: RoutingView,
    incoming: McpIncomingView,
    session_id: Seq<char>,
)
    requires
        !(server.sessions.contains_key(session_id) && server.sessions[session_id].initialized),
        server.next(routing, incoming).sessions.contains_key(session_id),
        server.next(routing, incoming).sessions[session_id].initialized,
    ensures
        match incoming {
            McpIncomingView::Request {
                request: McpRequestView::Initialize { client_info, .. },
                ..
            } => server.next(routing, incoming).sessions[session_id].client_info == Some(
                client_info,
            ),
            _ => false,
        },
        match routing.session_id {
            Some(named) => named == session_id,
            None => session_id == "default"@,
        },
{
}

/// A request to start a session starts it and keeps the client that it names, unless the
/// session was started before: then everything stays as it is.
pub proof fn law_initialize_starts_its_session(
    server: McpServerView,
    routing: RoutingView,
    id: RequestIdView,
    protocol_version: Seq<char>,
    client_info: Implementation,
)
    ensures
        ({
            let request = McpIncomingView::Request {
                id,
                request: McpRequestView::Initialize { protocol_version, client_info },
            };
            let key = match routing.session_id {
                Some(session_id) => session_id,
                None => "default"@,
            };
            let started = server.sessions.contains_key(key) && server.sessions[key].initialized;
            let after = server.next(routing, request).sessions;
            &&& after.contains_key(key) && after[key].initialized
            &&& !started ==> after[key].client_info == Some(client_info)
            &&& started ==> after == server.sessions
        }),
{
    let key = routing.session_key();
    if server.sessions.contains_key(key) {
        assert(server.sessions.insert(key, server.sessions[key]) =~= server.sessions);
    }
}

/// A request makes its session where it is not there, and all other sessions are as they
/// were. Any request but one to start the session leaves it as it is. What is no request
/// changes nothing. The tools, the version and the time limit stay.
pub proof fn law_request_is_kept_in_its_session(
    server: McpServerView,
    routing: RoutingView,
    incoming: McpIncomingView,
    other: Seq<char>,
)
    ensures
        ({
            let after = server.next(routing, incoming);
            let key = match routing.session_id {
                Some(session_id) => session_id,
                None => "default"@,
            };
            let before = if server.sessions.contains_key(key) {
                server.sessions[key]
            } else {
                McpSessionView::fresh(key)
            };
            &&& server.session(key) == before
            &&& incoming matches McpIncomingView::Request { request, .. } ==> {
                &&& after.sessions.contains_key(key)
                &&& after.sessions[key].session_id == before.session_id
                &&& after.sessions[key].thread_id == before.thread_id
                &&& !(request is Initialize) ==> after.sessions[key] == before
            }
            &&& !(incoming is Request) ==> after == server
            &&& other != key ==> (after.sessions.contains_key(other)
                <==> server.sessions.contains_key(other))
            &&& other != key && server.sessions.contains_key(other) ==> after.sessions[other]
                == server.sessions[other]
            &&& after.tools == server.tools
            &&& after.server_version == server.server_version
            &&& after.drain_timeout_sec == server.drain_timeout_sec
            &&& after.pending == server.pending
        }),
{
}

/// A request that comes before the session was started does not keep the client from
/// starting it: the request to start it is then answered with a result.
pub proof fn law_other_requests_leave_the_start_open(
    server: McpServerView,
    routing: RoutingView,
    first: McpIncomingView,
    id: RequestIdView,
    protocol_version: Seq<char>,
    client_info: Implementation,
)
    requires
        !(first matches McpIncomingView::Request { request, .. } && request is Initialize),
        !(server.sessions.contains_key(routing.session_key())
            && server.sessions[routing.session_key()].initialized),
    ensures
        ({
            let response = server.next(routing, first).response(
                routing,
                id,
                McpRequestView::Initialize { protocol_version, client_info },
            );
            &&& response.field("error"@) is None
            &&& response.field("result"@) matches Some(result)
            &&& result.field("protocolVersion"@) == Some(Json::Text(protocol_version))
        }),
{
    let after = server.next(routing, first);
    law_answer_depends_on_the_start(
        after,
        routing,
        id,
        McpRequestView::Initialize { protocol_version, client_info },
    );
}

/// What a request is answered: the first to start a session with what the server is, and
/// any further one with an error; a sign of life with an empty object, and the question
/// for the tools with their list, whether the session was started or not; anything else
/// with an error that depends on that. The answer has the identifier of the request.
pub proof fn law_answer_depends_on_the_start(
    server: McpServerView,
    routing: RoutingView,
    id: RequestIdView,
    request: McpRequestView,
)
    ensures
        ({
            let response = server.response(routing, id, request);
            let key = match routing.session_id {
                Some(session_id) => session_id,
                None => "default"@,
            };
            let started = server.sessions.contains_key(key) && server.sessions[key].initialized;
            let refused = request is Other || (request is Initialize && started);
            &&& response.field("jsonrpc"@) == Some(Json::Text("2.0"@))
            &&& response.field("id"@) == Some(id.json())
            &&& refused ==> {
                &&& response.field("result"@) is None
                &&& response.field("error"@) matches Some(error)
                &&& error.field("data"@) == Some(Json::Null)
                &&& error.field("code"@) == Some(
                    Json::Integer(
                        if request is Other && started {
                            -32601
                        } else {
                            -32600
                        },
                    ),
                )
                &&& error.field("message"@) == Some(
                    Json::Text(
                        if request is Initialize {
                            "Session already initialized"@
                        } else if !started {
                            "Session not initialized"@
                        } else {
                            "Method not yet implemented in worker mode: "@ + match routing.method {
                                Some(method) => "Some("@ + text::debug_form(method) + ")"@,
                                None => "None"@,
                            }
                        },
                    ),
                )
            }
            &&& !refused ==> {
                &&& response.field("error"@) is None
                &&& response.field("result"@) matches Some(result)
                &&& match request {
                    McpRequestView::Initialize { protocol_version, .. } => {
                        &&& result.field("protocolVersion"@) == Some(Json::Text(protocol_version))
                        &&& result.field("capabilities"@) matches Some(capabilities)
                        &&& capabilities.field("tools"@) matches Some(tools)
                        &&& tools.field("listChanged"@) == Some(Json::Bool(true))
                        &&& result.field("serverInfo"@) matches Some(info)
                        &&& info.field("name"@) == Some(Json::Text("codex-mcp-server"@))
                        &&& info.field("title"@) == Some(Json::Text("Codex"@))
                        &&& info.field("version"@) == Some(Json::Text(server.server_version))
                    },
                    McpRequestView::Ping => result == Json::Object(Map::empty()),
                    McpRequestView::ListTools => result == Json::Object(
                        Map::<Seq<char>, Json>::empty().insert("tools"@, server.tools),
                    ),
                    McpRequestView::Other => true,
                }
            }
        }),
{
    rpc::lemma_response_names();
    let started = server.session(routing.session_key()).initialized;
    let result = match request {
        McpRequestView::Initialize { protocol_version, .. } => {
            let told = server.initialize_result(protocol_version);
            mcp_model::law_initialize_result_has_its_fields(told);
            told.json()
        },
        McpRequestView::ListTools => server.tools_result(),
        _ => rpc::no_fields(),
    };
    let (code, message) = match request {
        McpRequestView::Initialize { .. } => (
            INVALID_REQUEST_ERROR_CODE,
            "Session already initialized"@,
        ),
        _ => if started {
            (
                METHOD_NOT_FOUND_ERROR_CODE,
                "Method not yet implemented in worker mode: "@ + method_debug(routing.method),
            )
        } else {
            (INVALID_REQUEST_ERROR_CODE, "Session not initialized"@)
        },
    };
    rpc::law_result_response_has_its_fields(id.json(), result, "error"@);
    rpc::law_error_response_has_its_fields(
        id.json(),
        RpcErrorView::plain(code, message),
        "result"@,
    );
}

/// A session that was not started yet has its identifier, the thread behind "thread:"
/// where it has that in front, and no client. Starting it keeps all but the client.
pub proof fn law_new_session_is_not_started(
    session_id: Seq<char>,
    thread: Seq<char>,
    session: McpSessionView,
    client_info: Option<Implementation>,
)
    ensures
        ({
            let fresh = McpSessionView::fresh(session_id);
            &&& fresh.session_id == session_id
            &&& fresh.thread_id == Some(thread) <==> session_id == "thread:"@ + thread
            &&& !fresh.initialized
            &&& fresh.client_info is None
        }),
        session.started(client_info).initialized,
        session.started(client_info).client_info == client_info,
        session.started(client_info).session_id == session.session_id,
        session.started(client_info).thread_id == session.thread_id,
{
    text::law_prefix_is_cut(session_id, THREAD_PREFIX@, thread);
}

/// Making a session adds it where it is not there and changes nothing where it is, and
/// starting one changes that one alone, if it is there.
pub proof fn law_session_table_changes_in_one_place(
    server: McpServerView,
    session_id: Seq<char>,
    client_info: Option<Implementation>,
)
    ensures
        ({
            let made = server.with_session(session_id);
            let changed = server.with_started(session_id, client_info);
            &&& made.sessions.dom() == server.sessions.dom().insert(session_id)
            &&& server.sessions.contains_key(session_id) ==> made == server
            &&& !server.sessions.contains_key(session_id) ==> made.sessions[session_id]
                == McpSessionView::fresh(session_id)
            &&& made.sessions.remove(session_id) == server.sessions.remove(session_id)
            &&& changed.sessions.dom() == server.sessions.dom()
            &&& server.sessions.contains_key(session_id) ==> changed.sessions[session_id]
                == server.sessions[session_id].started(client_info)
            &&& changed.sessions.remove(session_id) == server.sessions.remove(session_id)
            &&& made == (McpServerView { sessions: made.sessions, ..server })
            &&& changed == (McpServerView { sessions: changed.sessions, ..server })
            &&& server.cleaned_up() == (McpServerView { sessions: Map::empty(), ..server })
        }),
{
    let made = server.with_session(session_id).sessions;
    let changed = server.with_started(session_id, client_info).sessions;
    assert(made.dom() =~= server.sessions.dom().insert(session_id));
    if server.sessions.contains_key(session_id) {
        assert(made =~= server.sessions);
    }
    assert(made.remove(session_id) =~= server.sessions.remove(session_id));
    assert(changed.dom() =~= server.sessions.dom());
    assert(changed.remove(session_id) =~= server.sessions.remove(session_id));
}

/// Requests are answered with the document that is the response, and nothing else is
/// answered.
pub proof fn law_only_requests_are_answered(
    server: McpServerView,
    routing: RoutingView,
    incoming: McpIncomingView,
    handled: Handled,
)
    ensures
        incoming matches McpIncomingView::Request { id, request } ==> server.reply(routing, incoming)
            == Some(server.response(routing, id, request)),
        !(incoming is Request) ==> server.reply(routing, incoming) is None,
        gives(handled, None) <==> (handled matches Ok(answer) && answer is None),
        forall|document: Json| #[trigger]
            gives(handled, Some(document)) ==> (handled matches Ok(Some(bytes)) && bytes@
                == json::printed(document) && rpc::written(bytes@, document)),
{
}

/// What is said of a session is said of what it holds.
pub proof fn law_mcp_session_is_what_it_holds(session: McpWorkerSession)
    ensures
        session@.session_id == session.session_id@,
        session@.thread_id == message::text_view(session.thread_id),
        session@.initialized == session.initialized,
        session@.client_info == session.client_info,
{
}

} // verus!
