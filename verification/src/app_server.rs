//! The app server as a worker: sessions and requests.

use crate::json::{
    self, empty_object, error_text, get_field, null_value, parse_value, set_field, text_value, Json,
};
use crate::message::{self, clone_text, session_key, Message, RequestId, RequestIdView, RoutingView};
use crate::rpc::{
    self, error_value, response_value, short_error_value, to_bytes, RpcError, RpcErrorView,
    INVALID_REQUEST_ERROR_CODE, METHOD_NOT_FOUND_ERROR_CODE,
};
use crate::routing::MAX_SESSION_ID_LEN;
use crate::session::{extract_thread_id, THREAD_PREFIX};
use crate::string_map::StringMap;
use crate::string_set::StringSet;
use crate::text::{self, debug_text, join, signed_decimal_text};
use crate::worker::{
    self, Handled, WorkerError, WorkerErrorView, WorkerPhaseView, WorkerView,
};
use serde_json::Value;
use vstd::prelude::*;
use vstd::utf8;

verus! {

/// What the server knows of a connection.
#[derive(Debug)]
pub struct ConnectionSessionState {
    /// Whether the client has introduced itself.
    pub initialized: bool,
    /// Whether the client uses the experimental part of the protocol.
    pub experimental_api_enabled: bool,
    /// The notifications that the client does not want.
    pub opted_out_notification_methods: StringSet,
    /// The name of the client.
    pub app_server_client_name: Option<String>,
    /// The version of the client.
    pub client_version: Option<String>,
}

/// What a [`ConnectionSessionState`] holds.
#[verifier::ext_equal]
pub struct ConnectionStateView {
    pub initialized: bool,
    pub experimental_api_enabled: bool,
    pub opted_out: Set<Seq<char>>,
    pub client_name: Option<Seq<char>>,
    pub client_version: Option<Seq<char>>,
}

impl View for ConnectionSessionState {
    type V = ConnectionStateView;

    open spec fn view(&self) -> ConnectionStateView {
        ConnectionStateView {
            initialized: self.initialized,
            experimental_api_enabled: self.experimental_api_enabled,
            opted_out: self.opted_out_notification_methods@,
            client_name: message::text_view(self.app_server_client_name),
            client_version: message::text_view(self.client_version),
        }
    }
}

impl ConnectionStateView {
    /// A connection of which nothing is known yet.
    pub open spec fn fresh() -> ConnectionStateView {
        ConnectionStateView {
            initialized: false,
            experimental_api_enabled: false,
            opted_out: Set::empty(),
            client_name: None,
            client_version: None,
        }
    }
}

impl Default for ConnectionSessionState {
    fn default() -> (r: Self)
        ensures
            r@ == ConnectionStateView::fresh(),
    {
        ConnectionSessionState {
            initialized: false,
            experimental_api_enabled: false,
            opted_out_notification_methods: StringSet::new(),
            app_server_client_name: None,
            client_version: None,
        }
    }
}

impl Clone for ConnectionSessionState {
    fn clone(&self) -> (r: Self)
        ensures
            r@ == self@,
    {
        ConnectionSessionState {
            initialized: self.initialized,
            experimental_api_enabled: self.experimental_api_enabled,
            opted_out_notification_methods: self.opted_out_notification_methods.clone(),
            app_server_client_name: clone_text(&self.app_server_client_name),
            client_version: clone_text(&self.client_version),
        }
    }
}

/// One session of the app server.
#[derive(Debug)]
pub struct WorkerSession {
    /// The identifier of the session.
    pub session_id: String,
    /// The thread that the identifier stands for.
    pub thread_id: Option<String>,
    /// What the server knows of the connection.
    pub connection_state: ConnectionSessionState,
}

/// What a [`WorkerSession`] holds.
#[verifier::ext_equal]
pub struct WorkerSessionView {
    pub session_id: Seq<char>,
    pub thread_id: Option<Seq<char>>,
    pub state: ConnectionStateView,
}

impl View for WorkerSession {
    type V = WorkerSessionView;

    open spec fn view(&self) -> WorkerSessionView {
        WorkerSessionView {
            session_id: self.session_id@,
            thread_id: message::text_view(self.thread_id),
            state: self.connection_state@,
        }
    }
}

impl WorkerSessionView {
    /// A session of which nothing is known but its identifier.
    pub open spec fn fresh(session_id: Seq<char>) -> WorkerSessionView {
        WorkerSessionView {
            session_id,
            thread_id: text::stripped(session_id, THREAD_PREFIX@),
            state: ConnectionStateView::fresh(),
        }
    }
}

impl WorkerSession {
    /// A session of which nothing is known but its identifier.
    pub fn new(session_id: String) -> (r: Self)
        ensures
            r@ == WorkerSessionView::fresh(session_id@),
    {
        let thread_id: Option<String> = match extract_thread_id(session_id.as_str()) {
            Some(thread_id) => Some(thread_id.to_owned()),
            None => None,
        };
        WorkerSession { session_id, thread_id, connection_state: ConnectionSessionState::default() }
    }
}

impl Clone for WorkerSession {
    fn clone(&self) -> (r: Self)
        ensures
            r@ == self@,
    {
        WorkerSession {
            session_id: self.session_id.clone(),
            thread_id: clone_text(&self.thread_id),
            connection_state: self.connection_state.clone(),
        }
    }
}

/// What a client can do.
#[derive(Debug)]
pub struct InitializeCapabilities {
    /// Whether the client uses the experimental part of the protocol.
    pub experimental_api: bool,
    /// The notifications that the client does not want.
    pub opt_out_notification_methods: Option<Vec<String>>,
}

/// How a client introduces itself.
#[derive(Debug)]
pub struct InitializeParams {
    /// The name of the client.
    pub client_name: String,
    /// The version of the client.
    pub client_version: String,
    /// What the client can do.
    pub capabilities: Option<InitializeCapabilities>,
}

/// A request of a client, as far as the server tells requests apart.
#[derive(Debug)]
pub enum ClientRequest {
    /// The client introduces itself.
    Initialize { request_id: RequestId, params: InitializeParams },
    /// Any other request.
    Other { request_id: RequestId },
}

/// What an [`InitializeParams`] holds.
#[verifier::ext_equal]
pub struct InitializeParamsView {
    pub client_name: Seq<char>,
    pub client_version: Seq<char>,
    pub experimental_api: bool,
    pub opted_out: Set<Seq<char>>,
}

/// What a [`ClientRequest`] holds.
#[verifier::ext_equal]
pub enum ClientRequestView {
    Initialize { request_id: RequestIdView, params: InitializeParamsView },
    Other { request_id: RequestIdView },
}

impl View for InitializeParams {
    type V = InitializeParamsView;

    open spec fn view(&self) -> InitializeParamsView {
        InitializeParamsView {
            client_name: self.client_name@,
            client_version: self.client_version@,
            experimental_api: match self.capabilities {
                Some(capabilities) => capabilities.experimental_api,
                None => false,
            },
            opted_out: match self.capabilities {
                Some(capabilities) => match capabilities.opt_out_notification_methods {
                    Some(methods) => text::texts_view(methods@).to_set(),
                    None => Set::empty(),
                },
                None => Set::empty(),
            },
        }
    }
}

impl View for ClientRequest {
    type V = ClientRequestView;

    open spec fn view(&self) -> ClientRequestView {
        match self {
            ClientRequest::Initialize { request_id, params } => ClientRequestView::Initialize {
                request_id: request_id@,
                params: params@,
            },
            ClientRequest::Other { request_id } => ClientRequestView::Other {
                request_id: request_id@,
            },
        }
    }
}

impl ClientRequestView {
    /// The identifier of the request.
    pub open spec fn id(self) -> RequestIdView {
        match self {
            ClientRequestView::Initialize { request_id, .. } => request_id,
            ClientRequestView::Other { request_id } => request_id,
        }
    }
}

impl ClientRequest {
    /// The identifier of the request.
    pub fn id(&self) -> (r: &RequestId)
        ensures
            r@ == self@.id(),
    {
        match self {
            ClientRequest::Initialize { request_id, .. } => request_id,
            ClientRequest::Other { request_id } => request_id,
        }
    }
}

/// What the server tells a client that introduces itself.
#[derive(Debug)]
pub struct InitializeResponse {
    pub user_agent: String,
    pub platform_family: String,
    pub platform_os: String,
}

/// What an [`InitializeResponse`] holds.
#[verifier::ext_equal]
pub struct InitializeResponseView {
    pub user_agent: Seq<char>,
    pub platform_family: Seq<char>,
    pub platform_os: Seq<char>,
}

impl View for InitializeResponse {
    type V = InitializeResponseView;

    open spec fn view(&self) -> InitializeResponseView {
        InitializeResponseView {
            user_agent: self.user_agent@,
            platform_family: self.platform_family@,
            platform_os: self.platform_os@,
        }
    }
}

impl InitializeResponseView {
    /// The response as JSON.
    pub open spec fn json(self) -> Json {
        rpc::no_fields().with_field("userAgent"@, Json::Text(self.user_agent)).with_field(
            "platformFamily"@,
            Json::Text(self.platform_family),
        ).with_field("platformOs"@, Json::Text(self.platform_os))
    }
}

impl InitializeResponse {
    /// The response as JSON.
    pub fn to_value(&self) -> (r: Value)
        ensures
            json::content(r) == self@.json(),
    {
        let mut value: Value = empty_object();
        set_field(&mut value, "userAgent", text_value(self.user_agent.as_str()));
        set_field(&mut value, "platformFamily", text_value(self.platform_family.as_str()));
        set_field(&mut value, "platformOs", text_value(self.platform_os.as_str()));
        value
    }
}

/// The debug form of a request identifier.
pub open spec fn id_debug(id: RequestIdView) -> Seq<char> {
    match id {
        RequestIdView::Text(text) => "String("@ + text::debug_form(text) + ")"@,
        RequestIdView::Integer(n) => "Integer("@ + text::signed_decimal(n as int) + ")"@,
    }
}

/// The debug form of a request identifier.
fn id_debug_text(id: &RequestId) -> (r: String)
    ensures
        r@ == id_debug(id@),
{
    let mut out: String = match id {
        RequestId::String(text) => join("String(", debug_text(text.as_str()).as_str()),
        RequestId::Integer(n) => join("Integer(", signed_decimal_text(*n).as_str()),
    };
    out.append(")");
    out
}

impl ConnectionStateView {
    /// What is known of a connection after a request.
    pub open spec fn next(self, request: ClientRequestView) -> ConnectionStateView {
        match request {
            ClientRequestView::Initialize { params, .. } => if self.initialized {
                self
            } else {
                ConnectionStateView {
                    initialized: true,
                    experimental_api_enabled: params.experimental_api,
                    opted_out: params.opted_out,
                    client_name: Some(params.client_name),
                    client_version: Some(params.client_version),
                }
            },
            ClientRequestView::Other { .. } => self,
        }
    }

    /// The result of a request, or the error.
    pub open spec fn outcome(
        self,
        request: ClientRequestView,
        platform: InitializeResponseView,
    ) -> Result<Json, RpcErrorView> {
        match request {
            ClientRequestView::Initialize { .. } => if self.initialized {
                Err(RpcErrorView::plain(INVALID_REQUEST_ERROR_CODE, "Already initialized"@))
            } else {
                Ok(platform.json())
            },
            ClientRequestView::Other { request_id } => if self.initialized {
                Err(
                    RpcErrorView::plain(
                        METHOD_NOT_FOUND_ERROR_CODE,
                        "Method not yet implemented in worker mode: request_id="@ + id_debug(
                            request_id,
                        ),
                    ),
                )
            } else {
                Err(RpcErrorView::plain(INVALID_REQUEST_ERROR_CODE, "Not initialized"@))
            },
        }
    }
}

/// The state of the app server.
#[verifier::ext_equal]
pub struct AppServerView {
    pub sessions: Map<Seq<char>, WorkerSessionView>,
}

/// The identifier of a request as it stands in the JSON; null where it has none.
pub open spec fn json_id(document: Json) -> Json {
    match document.field("id"@) {
        Some(id) => id,
        None => Json::Null,
    }
}

impl AppServerView {
    /// The session of this name, as it is or as it would be made.
    pub open spec fn session(self, session_id: Seq<char>) -> WorkerSessionView {
        if self.sessions.contains_key(session_id) {
            self.sessions[session_id]
        } else {
            WorkerSessionView::fresh(session_id)
        }
    }

    /// The state with the session of this name made, if it was not there.
    pub open spec fn with_session(self, session_id: Seq<char>) -> AppServerView {
        AppServerView { sessions: self.sessions.insert(session_id, self.session(session_id)) }
    }

    /// The state with other knowledge of the connection of a session, if that is
    /// there.
    pub open spec fn with_state(
        self,
        session_id: Seq<char>,
        state: ConnectionStateView,
    ) -> AppServerView {
        if self.sessions.contains_key(session_id) {
            AppServerView {
                sessions: self.sessions.insert(
                    session_id,
                    WorkerSessionView { state, ..self.sessions[session_id] },
                ),
            }
        } else {
            self
        }
    }

    /// The state after a request of a session.
    pub open spec fn next(self, routing: RoutingView, request: ClientRequestView) -> AppServerView {
        let key = routing.session_key();
        self.with_session(key).with_state(key, self.session(key).state.next(request))
    }

    /// The response to a request of a session.
    pub open spec fn response(
        self,
        routing: RoutingView,
        request: ClientRequestView,
        platform: InitializeResponseView,
    ) -> Json {
        match self.session(routing.session_key()).state.outcome(request, platform) {
            Ok(result) => rpc::response_json(request.id().json(), result),
            Err(error) => rpc::error_json(request.id().json(), error),
        }
    }
}

/// The app server. It carries a configuration for its owner.
#[verifier::reject_recursive_types(C)]
pub struct AppServerWorkerHandler<C> {
    config: C,
    sessions: StringMap<WorkerSession>,
}

impl<C> View for AppServerWorkerHandler<C> {
    type V = AppServerView;

    closed spec fn view(&self) -> AppServerView {
        AppServerView { sessions: self.sessions@.map_values(|session: WorkerSession| session@) }
    }
}

impl<C> AppServerWorkerHandler<C> {
    /// The configuration that the server carries.
    pub closed spec fn spec_config(&self) -> C {
        self.config
    }

    /// A server without sessions.
    pub fn new(config: C) -> (r: Self)
        ensures
            r.spec_config() == config,
            r@.sessions == Map::<Seq<char>, WorkerSessionView>::empty(),
    {
        let r = AppServerWorkerHandler { config, sessions: StringMap::new() };
        assert(r@.sessions =~= Map::<Seq<char>, WorkerSessionView>::empty());
        r
    }

    /// The configuration that the server carries.
    pub fn config(&self) -> (r: &C)
        ensures
            *r == self.spec_config(),
    {
        &self.config
    }

    /// The session of this name, which is made if it is not there.
    pub fn get_or_create_session(&mut self, session_id: &str) -> (r: &WorkerSession)
        ensures
            final(self)@ == old(self)@.with_session(session_id@),
            final(self).spec_config() == old(self).spec_config(),
            r@ == old(self)@.session(session_id@),
    {
        if !self.sessions.contains_key(session_id) {
            let session: WorkerSession = WorkerSession::new(session_id.to_owned());
            self.sessions.insert(session_id, session);
        }
        proof {
            assert(self@.sessions =~= old(self)@.with_session(session_id@).sessions);
        }
        self.sessions.get(session_id).unwrap()
    }

    /// Replaces what is known of the connection of a session, if that is there.
    pub fn update_session_state(&mut self, session_id: &str, state: ConnectionSessionState)
        ensures
            final(self)@ == old(self)@.with_state(session_id@, state@),
            final(self).spec_config() == old(self).spec_config(),
    {
        match self.sessions.remove(session_id) {
            Some(session) => {
                let mut session: WorkerSession = session;
                session.connection_state = state;
                self.sessions.insert(session_id, session);
            },
            None => {},
        }
        proof {
            assert(self@.sessions =~= old(self)@.with_state(session_id@, state@).sessions);
        }
    }

    /// Serves a request: a client introduces itself once, and before that nothing
    /// else is served. After it nothing else is known either.
    pub fn process_request(
        session: &mut WorkerSession,
        request: &ClientRequest,
        platform: &InitializeResponse,
    ) -> (r: Result<Value, RpcError>)
        ensures
            final(session)@ == (WorkerSessionView {
                state: old(session)@.state.next(request@),
                ..old(session)@
            }),
            match old(session)@.state.outcome(request@, platform@) {
                Ok(result) => r matches Ok(value) && json::content(value) == result,
                Err(error) => r matches Err(given) && given@ == error,
            },
    {
        match request {
            ClientRequest::Initialize { params, .. } => {
                if session.connection_state.initialized {
                    return Err(
                        RpcError {
                            code: INVALID_REQUEST_ERROR_CODE,
                            message: "Already initialized".to_owned(),
                            data: None,
                        },
                    );
                }
                let (experimental_api, methods): (bool, StringSet) = match &params.capabilities {
                    Some(capabilities) => (
                        capabilities.experimental_api,
                        match &capabilities.opt_out_notification_methods {
                            Some(methods) => StringSet::from_texts(methods),
                            None => StringSet::new(),
                        },
                    ),
                    None => (false, StringSet::new()),
                };
                session.connection_state.experimental_api_enabled = experimental_api;
                session.connection_state.opted_out_notification_methods = methods;
                session.connection_state.app_server_client_name = Some(params.client_name.clone());
                session.connection_state.client_version = Some(params.client_version.clone());
                session.connection_state.initialized = true;
                Ok(platform.to_value())
            },
            ClientRequest::Other { request_id } => {
                if !session.connection_state.initialized {
                    return Err(
                        RpcError {
                            code: INVALID_REQUEST_ERROR_CODE,
                            message: "Not initialized".to_owned(),
                            data: None,
                        },
                    );
                }
                Err(
                    RpcError {
                        code: METHOD_NOT_FOUND_ERROR_CODE,
                        message: join(
                            "Method not yet implemented in worker mode: request_id=",
                            id_debug_text(request_id).as_str(),
                        ),
                        data: None,
                    },
                )
            },
        }
    }

    /// The response with a result.
    pub fn build_response(request_id: &RequestId, result: Value) -> (r: Value)
        ensures
            json::content(r) == rpc::response_json(request_id@.json(), json::content(result)),
    {
        response_value(request_id.to_value(), result)
    }

    /// The response with an error.
    pub fn build_error_response(request_id: &RequestId, error: RpcError) -> (r: Value)
        ensures
            json::content(r) == rpc::error_json(request_id@.json(), error@),
    {
        error_value(request_id.to_value(), error)
    }

    /// Answers a request that was read.
    pub fn answer(
        &mut self,
        session_id: &Option<String>,
        request: ClientRequest,
        platform: &InitializeResponse,
    ) -> (r: Handled)
        ensures
            ({
                let routing = RoutingView {
                    session_id: message::text_view(*session_id),
                    ..RoutingView::none()
                };
                &&& final(self)@ == old(self)@.next(routing, request@)
                &&& r matches Ok(Some(bytes)) && rpc::written(
                    bytes@,
                    old(self)@.response(routing, request@, platform@),
                )
            }),
            final(self).spec_config() == old(self).spec_config(),
    {
        let key: String = session_key(session_id);
        let mut session: WorkerSession = self.get_or_create_session(key.as_str()).clone();
        let response: Value = match AppServerWorkerHandler::<C>::process_request(
            &mut session,
            &request,
            platform,
        ) {
            Ok(result) => AppServerWorkerHandler::<C>::build_response(request.id(), result),
            Err(error) => AppServerWorkerHandler::<C>::build_error_response(request.id(), error),
        };
        self.update_session_state(key.as_str(), session.connection_state);
        match to_bytes(&response) {
            Ok(bytes) => Ok(Some(bytes)),
            Err(text) => Err(
                WorkerError::Handler(join("Failed to serialize response: ", text.as_str())),
            ),
        }
    }

    /// Handles a message, given what its text is as a request of the protocol. A
    /// response is ignored and so is a notification, which has no identifier. What is
    /// no request of the protocol is answered with an error, and what is no JSON is an
    /// error.
    pub fn handle(
        &mut self,
        msg: Message,
        request: Result<ClientRequest, String>,
        platform: &InitializeResponse,
    ) -> (r: Handled)
        ensures
            final(self).spec_config() == old(self).spec_config(),
            if msg@.routing.is_response {
                final(self)@ == old(self)@ && r matches Ok(None)
            } else {
                match json::parse_result(msg@.raw) {
                    Err(text) => final(self)@ == old(self)@ && worker::handled_view(r) == Err::<
                        Option<Seq<u8>>,
                        WorkerErrorView,
                    >(WorkerErrorView::Handler("Failed to parse JSON: "@ + text)),
                    Ok(document) => if json_id(document) is Null {
                        final(self)@ == old(self)@ && r matches Ok(None)
                    } else {
                        match request {
                            Ok(request) => {
                                &&& final(self)@ == old(self)@.next(msg@.routing, request@)
                                &&& r matches Ok(Some(bytes))
                                &&& rpc::written(
                                    bytes@,
                                    old(self)@.response(msg@.routing, request@, platform@),
                                )
                                &&& RoutingView::of(bytes@).id == request@.id().routed()
                                &&& RoutingView::of(bytes@).is_response
                            },
                            Err(text) => {
                                &&& final(self)@ == old(self)@
                                &&& r matches Ok(Some(bytes))
                                &&& rpc::written(
                                    bytes@,
                                    rpc::short_error_json(
                                        json_id(document),
                                        INVALID_REQUEST_ERROR_CODE,
                                        "Invalid request: "@ + text@,
                                    ),
                                )
                                &&& RoutingView::of(bytes@).id == RoutingView::of(msg@.raw).id
                                &&& RoutingView::of(bytes@).is_error
                            },
                        }
                    },
                }
            },
    {
        if msg.routing.is_response {
            return Ok(None);
        }
        let value: Value = match parse_value(msg.raw.as_slice()) {
            Ok(value) => value,
            Err(error) => {
                return Err(
                    WorkerError::Handler(
                        join("Failed to parse JSON: ", error_text(&error).as_str()),
                    ),
                );
            },
        };
        self.answer_value(&msg.routing.session_id, &value, request, platform)
    }

    /// Answers JSON, given what it is as a request of the protocol. What has no
    /// identifier is a notification and is ignored. What is no request of the protocol
    /// is answered with an error that has the identifier as it stands in the JSON.
    pub fn answer_value(
        &mut self,
        session_id: &Option<String>,
        value: &Value,
        request: Result<ClientRequest, String>,
        platform: &InitializeResponse,
    ) -> (r: Handled)
        ensures
            final(self).spec_config() == old(self).spec_config(),
            ({
                let document = json::content(*value);
                let routing = RoutingView {
                    session_id: message::text_view(*session_id),
                    ..RoutingView::none()
                };
                if json_id(document) is Null {
                    final(self)@ == old(self)@ && r matches Ok(None)
                } else {
                    match request {
                        Ok(request) => {
                            &&& final(self)@ == old(self)@.next(routing, request@)
                            &&& r matches Ok(Some(bytes))
                            &&& rpc::written(
                                bytes@,
                                old(self)@.response(routing, request@, platform@),
                            )
                            &&& RoutingView::of(bytes@).id == request@.id().routed()
                            &&& RoutingView::of(bytes@).is_response
                        },
                        Err(text) => {
                            &&& final(self)@ == old(self)@
                            &&& r matches Ok(Some(bytes))
                            &&& rpc::written(
                                bytes@,
                                rpc::short_error_json(
                                    json_id(document),
                                    INVALID_REQUEST_ERROR_CODE,
                                    "Invalid request: "@ + text@,
                                ),
                            )
                            &&& document.within_depth(json::MAX_DEPTH as nat) ==> RoutingView::of(
                                bytes@,
                            ).id == RoutingView::id_of(document) && RoutingView::of(bytes@).is_error
                        },
                    }
                }
            }),
    {
        let ghost document = json::content(*value);
        let ghost routing = RoutingView {
            session_id: message::text_view(*session_id),
            ..RoutingView::none()
        };
        let id: Value = match get_field(value, "id") {
            Some(id) => id.clone(),
            None => null_value(),
        };
        if id.is_null() {
            return Ok(None);
        }
        match request {
            Err(text) => {
                let message: String = join("Invalid request: ", text.as_str());
                proof {
                    let error = RpcErrorView::plain(INVALID_REQUEST_ERROR_CODE, message@);
                    rpc::law_responses_are_routed(json_id(document), Json::Null, error);
                    if document.within_depth(json::MAX_DEPTH as nat) {
                        lemma_id_fits(document);
                        rpc::lemma_responses_reparse(
                            json_id(document),
                            Json::Null,
                            INVALID_REQUEST_ERROR_CODE,
                            message@,
                        );
                    }
                }
                let response: Value = short_error_value(
                    id,
                    INVALID_REQUEST_ERROR_CODE,
                    message.as_str(),
                );
                match to_bytes(&response) {
                    Ok(bytes) => Ok(Some(bytes)),
                    Err(text) => Err(
                        WorkerError::Handler(
                            join("Failed to serialize error response: ", text.as_str()),
                        ),
                    ),
                }
            },
            Ok(request) => {
                proof {
                    law_response_is_readable(self@, routing, request@, platform@);
                }
                self.answer(session_id, request, platform)
            },
        }
    }

    /// The number of sessions that there are when the server shuts down. They are left
    /// as they are.
    pub fn on_shutdown(&self) -> (r: usize)
        ensures
            r == self@.sessions.dom().len(),
    {
        assert(self@.sessions.dom() =~= self.sessions@.dom());
        self.sessions.len()
    }
}

/// The identifier of a document can be read in a response.
proof fn lemma_id_fits(document: Json)
    requires
        document.within_depth(json::MAX_DEPTH as nat),
    ensures
        json_id(document).within_depth((json::MAX_DEPTH - 1) as nat),
{
    if let Json::Object(fields) = document {
        if fields.contains_key("id"@) {
            assert(fields["id"@].within_depth((json::MAX_DEPTH - 1) as nat));
        }
    }
}

/// The response to a request can be read, and it is a response with the identifier of
/// the request. It is an error unless a client introduces itself for the first time.
pub proof fn law_response_is_readable(
    server: AppServerView,
    routing: RoutingView,
    request: ClientRequestView,
    platform: InitializeResponseView,
)
    ensures
        ({
            let response = server.response(routing, request, platform);
            let known = server.session(routing.session_key()).state.initialized;
            &&& response.reparses()
            &&& response is Object
            &&& response.field("id"@) == Some(request.id().json())
            &&& RoutingView::of_document(response) == (RoutingView {
                id: request.id().routed(),
                is_response: true,
                is_error: !(request is Initialize) || known,
                ..RoutingView::none()
            })
        }),
{
    reveal_with_fuel(Json::within_depth, 2);
    let id = request.id().json();
    let state = server.session(routing.session_key()).state;
    match state.outcome(request, platform) {
        Ok(result) => {
            assert(rpc::fits_in_response(platform.json()));
            rpc::law_responses_are_routed(
                id,
                result,
                RpcErrorView::plain(INVALID_REQUEST_ERROR_CODE, Seq::empty()),
            );
            rpc::lemma_responses_reparse(id, result, INVALID_REQUEST_ERROR_CODE, Seq::empty());
        },
        Err(error) => {
            rpc::law_responses_are_routed(id, Json::Null, error);
            rpc::lemma_responses_reparse(id, Json::Null, error.code, error.message);
        },
    }
}

/// The answer to a request of a session is sent to that session: what the worker writes
/// for it has the identifier of the request and the identifier of the session.
pub proof fn law_answer_reaches_its_session(
    server: AppServerView,
    routing: RoutingView,
    request: ClientRequestView,
    platform: InitializeResponseView,
    worker: WorkerView,
    answer: Seq<u8>,
)
    requires
        routing.session_id matches Some(session_id) && utf8::encode_utf8(session_id).len()
            <= MAX_SESSION_ID_LEN,
        worker.phase == WorkerPhaseView::Handling(routing.session_id),
        worker.reply_keeps_session(answer),
        rpc::written(answer, server.response(routing, request, platform)),
    ensures
        worker::is_one_line(worker::frame(worker.reply(answer))),
        ({
            let sent = RoutingView::of(worker.reply(answer));
            &&& sent.id == request.id().routed()
            &&& sent.session_id == routing.session_id
            &&& sent.is_response
        }),
        json::parse_result(worker.reply(answer)) matches Ok(sent) && RequestIdView::in_document(sent)
            == Some(request.id()),
{
    let response = server.response(routing, request, platform);
    law_response_is_readable(server, routing, request, platform);
    rpc::law_response_reaches_its_session(worker, routing.session_id->0, answer, response);
}

impl AppServerView {
    /// Whether each session is kept under its identifier, with the thread that this
    /// stands for.
    pub open spec fn sessions_are_named(self) -> bool {
        forall|key: Seq<char>| #[trigger]
            self.sessions.contains_key(key) ==> self.sessions[key].session_id == key
                && self.sessions[key].thread_id == text::stripped(key, THREAD_PREFIX@)
    }
}

/// Sessions are kept under their identifiers, from the start and after every request.
pub proof fn law_sessions_keep_their_names(
    server: AppServerView,
    routing: RoutingView,
    request: ClientRequestView,
    session_id: Seq<char>,
    state: ConnectionStateView,
)
    requires
        server.sessions_are_named(),
    ensures
        (AppServerView { sessions: Map::empty() }).sessions_are_named(),
        server.with_session(session_id).sessions_are_named(),
        server.with_state(session_id, state).sessions_are_named(),
        server.next(routing, request).sessions_are_named(),
{
}

/// A request touches the session that it belongs to and no other.
pub proof fn law_sessions_are_independent(
    server: AppServerView,
    routing: RoutingView,
    request: ClientRequestView,
    other: Seq<char>,
)
    requires
        other != routing.session_key(),
    ensures
        server.next(routing, request).sessions.contains_key(other)
            <==> server.sessions.contains_key(other),
        server.next(routing, request).session(other) == server.session(other),
{
}

/// What is known of a client that has introduced itself does not change.
pub proof fn law_known_client_stays(
    server: AppServerView,
    routing: RoutingView,
    request: ClientRequestView,
    session_id: Seq<char>,
)
    requires
        server.session(session_id).state.initialized,
    ensures
        server.next(routing, request).session(session_id) == server.session(session_id),
{
}

/// A client introduces itself at most once: after that it is known, and the next
/// attempt is refused.
pub proof fn law_client_introduces_itself_once(
    server: AppServerView,
    routing: RoutingView,
    first: ClientRequestView,
    again: ClientRequestView,
    platform: InitializeResponseView,
)
    requires
        first is Initialize,
        again is Initialize,
    ensures
        server.next(routing, first).session(routing.session_key()).state.initialized,
        server.next(routing, first).response(routing, again, platform) == rpc::error_json(
            again.id().json(),
            RpcErrorView::plain(INVALID_REQUEST_ERROR_CODE, "Already initialized"@),
        ),
{
}

/// Only the introduction of a client makes it known.
pub proof fn law_only_introduction_makes_known(
    server: AppServerView,
    routing: RoutingView,
    request: ClientRequestView,
    session_id: Seq<char>,
)
    requires
        !server.session(session_id).state.initialized,
        server.next(routing, request).session(session_id).state.initialized,
    ensures
        request is Initialize,
        session_id == routing.session_key(),
{
}

/// What a client says when it introduces itself is remembered: its name, its version, the
/// notifications that it does not want and whether it uses the experimental part of the
/// protocol. No other request changes what is known, nor does a second introduction.
pub proof fn law_introduction_is_remembered(
    state: ConnectionStateView,
    request_id: RequestIdView,
    params: InitializeParamsView,
)
    ensures
        ({
            let known = state.next(ClientRequestView::Initialize { request_id, params });
            &&& known.initialized
            &&& !state.initialized ==> {
                &&& known.client_name == Some(params.client_name)
                &&& known.client_version == Some(params.client_version)
                &&& known.opted_out == params.opted_out
                &&& known.experimental_api_enabled == params.experimental_api
            }
            &&& state.initialized ==> known == state
        }),
        state.next(ClientRequestView::Other { request_id }) == state,
{
}

/// A session that was not used yet has its identifier, the thread behind "thread:" where
/// it has that in front, and a client of which nothing is known.
pub proof fn law_new_session_knows_nothing(session_id: Seq<char>, thread: Seq<char>)
    ensures
        ({
            let session = WorkerSessionView::fresh(session_id);
            &&& session.session_id == session_id
            &&& session.thread_id == Some(thread) <==> session_id == "thread:"@ + thread
            &&& !session.state.initialized
            &&& !session.state.experimental_api_enabled
            &&& session.state.opted_out == Set::<Seq<char>>::empty()
            &&& session.state.client_name is None
            &&& session.state.client_version is None
        }),
{
    text::law_prefix_is_cut(session_id, THREAD_PREFIX@, thread);
}

/// After a request its session is in the table, as it was before or new, with what is
/// known of the client afterwards. All other sessions are as they were.
pub proof fn law_request_is_kept_in_its_session(
    server: AppServerView,
    routing: RoutingView,
    request: ClientRequestView,
    other: Seq<char>,
)
    ensures
        ({
            let after = server.next(routing, request).sessions;
            let key = match routing.session_id {
                Some(session_id) => session_id,
                None => "default"@,
            };
            let before = if server.sessions.contains_key(key) {
                server.sessions[key]
            } else {
                WorkerSessionView::fresh(key)
            };
            &&& after.contains_key(key)
            &&& after[key].session_id == before.session_id
            &&& after[key].thread_id == before.thread_id
            &&& after[key].state == before.state.next(request)
            &&& server.session(key) == before
            &&& other != key ==> (after.contains_key(other) <==> server.sessions.contains_key(other))
            &&& other != key && server.sessions.contains_key(other) ==> after[other]
                == server.sessions[other]
        }),
{
}

/// Making a session adds it where it is not there and changes nothing where it is, and
/// replacing what is known of a client changes that in its session alone, if that is
/// there.
pub proof fn law_session_table_changes_in_one_place(
    server: AppServerView,
    session_id: Seq<char>,
    state: ConnectionStateView,
)
    ensures
        server.with_session(session_id).sessions.dom() == server.sessions.dom().insert(session_id),
        server.sessions.contains_key(session_id) ==> server.with_session(session_id) == server,
        !server.sessions.contains_key(session_id) ==> server.with_session(
            session_id,
        ).sessions[session_id] == WorkerSessionView::fresh(session_id),
        server.with_session(session_id).sessions.remove(session_id) == server.sessions.remove(
            session_id,
        ),
        server.with_state(session_id, state).sessions.dom() == server.sessions.dom(),
        server.sessions.contains_key(session_id) ==> {
            let changed = server.with_state(session_id, state).sessions[session_id];
            &&& changed.state == state
            &&& changed.session_id == server.sessions[session_id].session_id
            &&& changed.thread_id == server.sessions[session_id].thread_id
        },
        server.with_state(session_id, state).sessions.remove(session_id) == server.sessions.remove(
            session_id,
        ),
{
    let made = server.with_session(session_id).sessions;
    let changed = server.with_state(session_id, state).sessions;
    assert(made.dom() =~= server.sessions.dom().insert(session_id));
    if server.sessions.contains_key(session_id) {
        assert(made =~= server.sessions);
    }
    assert(made.remove(session_id) =~= server.sessions.remove(session_id));
    assert(changed.dom() =~= server.sessions.dom());
    assert(changed.remove(session_id) =~= server.sessions.remove(session_id));
}

/// What a request is answered: the first introduction with what the server tells of
/// itself, a second one with an error, and any other request with an error that depends on
/// whether the client has introduced itself. The answer has the identifier of the request.
pub proof fn law_answer_depends_on_the_introduction(
    server: AppServerView,
    routing: RoutingView,
    request: ClientRequestView,
    platform: InitializeResponseView,
)
    ensures
        ({
            let response = server.response(routing, request, platform);
            let key = match routing.session_id {
                Some(session_id) => session_id,
                None => "default"@,
            };
            let known = server.sessions.contains_key(key) && server.sessions[key].state.initialized;
            &&& response.field("jsonrpc"@) == Some(Json::Text("2.0"@))
            &&& response.field("id"@) == Some(request.id().json())
            &&& request is Initialize && !known ==> {
                &&& response.field("error"@) is None
                &&& response.field("result"@) matches Some(result)
                &&& result.field("userAgent"@) == Some(Json::Text(platform.user_agent))
                &&& result.field("platformFamily"@) == Some(Json::Text(platform.platform_family))
                &&& result.field("platformOs"@) == Some(Json::Text(platform.platform_os))
            }
            &&& !(request is Initialize && !known) ==> {
                &&& response.field("result"@) is None
                &&& response.field("error"@) matches Some(error)
                &&& error.field("data"@) == Some(Json::Null)
                &&& error.field("code"@) == Some(
                    Json::Integer(
                        if request is Other && known {
                            -32601
                        } else {
                            -32600
                        },
                    ),
                )
                &&& error.field("message"@) == Some(
                    Json::Text(
                        if request is Initialize {
                            "Already initialized"@
                        } else if !known {
                            "Not initialized"@
                        } else {
                            "Method not yet implemented in worker mode: request_id="@ + id_debug(
                                request.id(),
                            )
                        },
                    ),
                )
            }
        }),
{
    rpc::lemma_response_names();
    lemma_platform_fields(platform);
    let id = request.id().json();
    match server.session(routing.session_key()).state.outcome(request, platform) {
        Ok(result) => rpc::law_result_response_has_its_fields(id, result, "error"@),
        Err(error) => rpc::law_error_response_has_its_fields(id, error, "result"@),
    }
}

proof fn lemma_platform_fields(platform: InitializeResponseView)
    ensures
        platform.json().field("userAgent"@) == Some(Json::Text(platform.user_agent)),
        platform.json().field("platformFamily"@) == Some(Json::Text(platform.platform_family)),
        platform.json().field("platformOs"@) == Some(Json::Text(platform.platform_os)),
{
    reveal_strlit("userAgent");
    reveal_strlit("platformFamily");
    reveal_strlit("platformOs");
    assert("userAgent"@.len() == 9);
    assert("platformFamily"@.len() == 14);
    assert("platformOs"@.len() == 10);
}

/// A request that comes before the client has introduced itself does not keep it from
/// doing so: the introduction is then answered with a result.
pub proof fn law_refused_request_leaves_the_introduction_open(
    server: AppServerView,
    routing: RoutingView,
    request_id: RequestIdView,
    introduction: ClientRequestView,
    platform: InitializeResponseView,
)
    requires
        introduction is Initialize,
        !(server.sessions.contains_key(routing.session_key())
            && server.sessions[routing.session_key()].state.initialized),
    ensures
        server.next(routing, ClientRequestView::Other { request_id }).response(
            routing,
            introduction,
            platform,
        ).field("result"@) is Some,
{
    let after = server.next(routing, ClientRequestView::Other { request_id });
    law_answer_depends_on_the_introduction(after, routing, introduction, platform);
}

/// An identifier is told as what it is: its sort, and the text in quotes or the digits.
/// The identifier of an object is its field "id", and null where it has none.
pub proof fn law_identifiers_are_told(
    text: Seq<char>,
    n: i64,
    fields: Map<Seq<char>, Json>,
    document: Json,
    params: InitializeParamsView,
    id: RequestIdView,
)
    ensures
        id_debug(RequestIdView::Text(text)) == "String("@ + text::debug_form(text) + ")"@,
        id_debug(RequestIdView::Integer(n)) == "Integer("@ + text::signed_decimal(n as int) + ")"@,
        fields.contains_key("id"@) ==> json_id(Json::Object(fields)) == fields["id"@],
        !fields.contains_key("id"@) ==> json_id(Json::Object(fields)) is Null,
        !(document is Object) ==> json_id(document) is Null,
        (ClientRequestView::Initialize { request_id: id, params }).id() == id,
        (ClientRequestView::Other { request_id: id }).id() == id,
{
}

/// What is said of requests, sessions and answers is said of what they hold. A client
/// without capabilities uses nothing experimental and wants every notification.
pub proof fn law_app_server_values_are_what_they_hold(
    params: InitializeParams,
    request_id: RequestId,
    session: WorkerSession,
    platform: InitializeResponse,
    method: Seq<char>,
)
    ensures
        params@.client_name == params.client_name@,
        params@.client_version == params.client_version@,
        params@.experimental_api <==> (params.capabilities matches Some(capabilities)
            && capabilities.experimental_api),
        params@.opted_out.contains(method) <==> (params.capabilities matches Some(capabilities) && (
        capabilities.opt_out_notification_methods matches Some(methods) && exists|i: int|
            0 <= i < methods@.len() && (#[trigger] methods@[i])@ == method)),
        (ClientRequest::Initialize { request_id, params })@ == (ClientRequestView::Initialize {
            request_id: request_id@,
            params: params@,
        }),
        (ClientRequest::Other { request_id })@ == (ClientRequestView::Other {
            request_id: request_id@,
        }),
        session@.session_id == session.session_id@,
        session@.thread_id == message::text_view(session.thread_id),
        session@.state.initialized == session.connection_state.initialized,
        session@.state.experimental_api_enabled
            == session.connection_state.experimental_api_enabled,
        session@.state.opted_out == session.connection_state.opted_out_notification_methods@,
        session@.state.client_name == message::text_view(
            session.connection_state.app_server_client_name,
        ),
        session@.state.client_version == message::text_view(
            session.connection_state.client_version,
        ),
        platform@.user_agent == platform.user_agent@,
        platform@.platform_family == platform.platform_family@,
        platform@.platform_os == platform.platform_os@,
{
    if let Some(capabilities) = params.capabilities {
        if let Some(methods) = capabilities.opt_out_notification_methods {
            let texts = text::texts_view(methods@);
            assert(texts.to_set().contains(method) <==> texts.contains(method));
            if texts.contains(method) {
                let i = choose|i: int| 0 <= i < texts.len() && texts[i] == method;
                assert(methods@[i]@ == method);
            }
            assert forall|i: int|
                0 <= i < methods@.len() && (#[trigger] methods@[i])@ == method implies texts.contains(
                method,
            ) by {
                assert(texts[i] == method);
            }
        }
    }
}

} // verus!
