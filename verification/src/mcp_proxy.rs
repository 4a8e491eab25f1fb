//! The MCP proxy: one external MCP server per session, started on demand.

use crate::json::{self, null_value, Json};
use crate::managed_server::{self, McpProxyError, Reply, ServerConfig};
use crate::message::{self, Message, RequestId, RequestIdView, RoutingView};
use crate::rpc::{self, short_error_value, to_bytes};
use crate::session::{self, extract_mcp_server_name, MCP_PREFIX};
use crate::string_map::StringMap;
use crate::text::{self, join};
use crate::worker::{self, Handled, WorkerError, WorkerErrorView};
use serde_json::Value;
use vstd::arithmetic::power2;
use vstd::prelude::*;

verus! {

/// The code of an error of the proxy itself.
pub const SERVER_ERROR_CODE: i32 = -32000;

/// The servers that the proxy knows, and how it restarts them.
#[derive(Debug)]
pub struct McpProxyConfig {
    /// How each server is started.
    pub servers: StringMap<ServerConfig>,
    /// How often a server is restarted.
    pub max_restarts: u32,
    /// The wait before the first restart, in seconds. It doubles each time.
    pub restart_backoff_base: u64,
    /// The longest wait before a restart, in seconds.
    pub max_backoff: u64,
}

impl Default for McpProxyConfig {
    fn default() -> (r: Self)
        ensures
            r.servers@ == Map::<Seq<char>, ServerConfig>::empty(),
            r.max_restarts == 5,
            r.restart_backoff_base == 1,
            r.max_backoff == 60,
    {
        McpProxyConfig {
            servers: StringMap::new(),
            max_restarts: 5,
            restart_backoff_base: 1,
            max_backoff: 60,
        }
    }
}

/// The state of the proxy. `S` is what the owner keeps for a server.
#[verifier::ext_equal]
#[verifier::reject_recursive_types(S)]
pub struct McpProxyView<S> {
    pub config: McpProxyConfig,
    pub servers: Map<Seq<char>, S>,
    pub shutdown_initiated: bool,
}

impl<S> McpProxyView<S> {
    /// The state with a server taken over.
    pub open spec fn with_server(self, server_name: Seq<char>, server: S) -> McpProxyView<S> {
        McpProxyView { servers: self.servers.insert(server_name, server), ..self }
    }

    /// The state with a server taken away.
    pub open spec fn without_server(self, server_name: Seq<char>) -> McpProxyView<S> {
        McpProxyView { servers: self.servers.remove(server_name), ..self }
    }

    /// The state once the shutdown has begun.
    pub open spec fn shut_down(self) -> McpProxyView<S> {
        McpProxyView { shutdown_initiated: true, ..self }
    }
}

/// The server that a session identifier names, or the error where it names none.
pub open spec fn server_name_of(session_id: Option<Seq<char>>) -> Result<
    Seq<char>,
    WorkerErrorView,
> {
    match session_id {
        None => Err(WorkerErrorView::Handler("Missing sessionId"@)),
        Some(session_id) => match text::stripped(session_id, MCP_PREFIX@) {
            Some(name) => Ok(name),
            None => Err(
                WorkerErrorView::Handler(
                    "Invalid sessionId format, expected 'mcp:<server_name>', got '"@ + session_id
                        + "'"@,
                ),
            ),
        },
    }
}

/// The JSON value of a request identifier that may be absent.
pub open spec fn optional_id_json(id: Option<RequestIdView>) -> Json {
    match id {
        Some(id) => id.json(),
        None => Json::Null,
    }
}

/// The answer to every request while the proxy shuts down.
pub open spec fn shutdown_answer(id: Option<RequestIdView>) -> Json {
    rpc::short_error_json(
        optional_id_json(id),
        SERVER_ERROR_CODE as i64,
        "MCP proxy is shutting down"@,
    )
}

/// What the proxy does with a request.
#[derive(Debug)]
pub enum ProxyStep {
    /// Answer it at once.
    Answer(Vec<u8>),
    /// Forward it, as it is, to the server of this name.
    Forward { server_name: String, request: Vec<u8> },
}

/// Which server takes a request.
#[derive(Debug)]
pub enum ServerChoice<'a, S> {
    /// The one that is running.
    Running(&'a S),
    /// One that has to be started first.
    Start(&'a ServerConfig),
}

/// The wait before a restart, in seconds: it doubles with each attempt, up to the
/// longest wait.
pub open spec fn backoff(base: u64, attempt: u32, longest: u64) -> nat {
    let wait = base * power2::pow2(attempt as nat);
    if wait <= longest {
        wait as nat
    } else {
        longest as nat
    }
}

/// Two to the power of a number below 64.
fn power_of_two(n: u32) -> (r: u64)
    requires
        n < 64,
    ensures
        r == power2::pow2(n as nat),
{
    let mut r: u64 = 1;
    let mut i: u32 = 0;
    proof {
        power2::lemma2_to64();
    }
    while i < n
        invariant
            i <= n,
            n < 64,
            r == power2::pow2(i as nat),
            r < 0x8000_0000_0000_0000 || i == 63,
        decreases n - i,
    {
        proof {
            power2::lemma_pow2_unfold((i + 1) as nat);
            power2::lemma2_to64_rest();
            if i + 1 < 63 {
                power2::lemma_pow2_strictly_increases((i + 1) as nat, 63);
            }
        }
        r = r * 2;
        i = i + 1;
    }
    r
}

/// The wait before a restart, in seconds.
fn capped_wait(base: u64, attempt: u32, longest: u64) -> (r: u64)
    ensures
        r == backoff(base, attempt, longest),
{
    if base == 0 {
        return 0;
    }
    if attempt >= 64 {
        proof {
            power2::lemma2_to64_rest();
            if attempt > 64 {
                power2::lemma_pow2_strictly_increases(64, attempt as nat);
            }
            let power = power2::pow2(attempt as nat);
            assert(base * power >= power) by (nonlinear_arith)
                requires
                    base >= 1,
                    power >= 0,
            ;
        }
        return longest;
    }
    match base.checked_mul(power_of_two(attempt)) {
        Some(wait) => if wait <= longest {
            wait
        } else {
            longest
        },
        None => longest,
    }
}

/// The MCP proxy. `S` is what the owner keeps for a server.
#[verifier::reject_recursive_types(S)]
#[derive(Debug)]
pub struct McpProxyHandler<S> {
    config: McpProxyConfig,
    servers: StringMap<S>,
    shutdown_initiated: bool,
}

impl<S> View for McpProxyHandler<S> {
    type V = McpProxyView<S>;

    closed spec fn view(&self) -> McpProxyView<S> {
        McpProxyView {
            config: self.config,
            servers: self.servers@,
            shutdown_initiated: self.shutdown_initiated,
        }
    }
}

impl<S> McpProxyHandler<S> {
    /// A proxy without running servers.
    pub fn new(config: McpProxyConfig) -> (r: Self)
        ensures
            r@ == (McpProxyView::<S> {
                config,
                servers: Map::empty(),
                shutdown_initiated: false,
            }),
    {
        McpProxyHandler { config, servers: StringMap::new(), shutdown_initiated: false }
    }

    /// Whether the proxy is shutting down.
    pub fn is_shutdown_initiated(&self) -> (r: bool)
        ensures
            r == self@.shutdown_initiated,
    {
        self.shutdown_initiated
    }

    /// The server that a session identifier names.
    pub fn extract_server_name(session_id: &Option<String>) -> (r: Result<String, WorkerError>)
        ensures
            match server_name_of(message::text_view(*session_id)) {
                Ok(name) => r matches Ok(found) && found@ == name,
                Err(error) => r matches Err(given) && given@ == error,
            },
    {
        let session_id: &String = match session_id {
            Some(session_id) => session_id,
            None => {
                return Err(WorkerError::Handler("Missing sessionId".to_owned()));
            },
        };
        match extract_mcp_server_name(session_id.as_str()) {
            Some(name) => Ok(name.to_owned()),
            None => {
                let mut text: String = join(
                    "Invalid sessionId format, expected 'mcp:<server_name>', got '",
                    session_id.as_str(),
                );
                text.append("'");
                Err(WorkerError::Handler(text))
            },
        }
    }

    /// What the owner keeps for a server.
    pub fn server(&self, server_name: &str) -> (r: Option<&S>)
        ensures
            match r {
                Some(server) => self@.servers.contains_key(server_name@) && *server
                    == self@.servers[server_name@],
                None => !self@.servers.contains_key(server_name@),
            },
    {
        self.servers.get(server_name)
    }

    /// Which server takes the requests for a name: the one that is there, provided
    /// that it is healthy, and otherwise a new one, if the name is known.
    pub fn get_or_spawn_server(&self, server_name: &str, healthy: bool) -> (r: Result<
        ServerChoice<'_, S>,
        WorkerError,
    >)
        ensures
            match r {
                Ok(ServerChoice::Running(server)) => healthy && self@.servers.contains_key(
                    server_name@,
                ) && *server == self@.servers[server_name@],
                Ok(ServerChoice::Start(config)) => !(healthy && self@.servers.contains_key(
                    server_name@,
                )) && self@.config.servers@.contains_key(server_name@) && *config
                    == self@.config.servers@[server_name@],
                Err(error) => !(healthy && self@.servers.contains_key(server_name@))
                    && !self@.config.servers@.contains_key(server_name@) && error@
                    == WorkerErrorView::Handler("Unknown MCP server: "@ + server_name@),
            },
    {
        if healthy {
            if let Some(server) = self.servers.get(server_name) {
                return Ok(ServerChoice::Running(server));
            }
        }
        match self.config.servers.get(server_name) {
            Some(config) => Ok(ServerChoice::Start(config)),
            None => Err(WorkerError::Handler(join("Unknown MCP server: ", server_name))),
        }
    }

    /// Takes over a server that was started, in place of the one that was there. A
    /// server that could not be started is an error.
    pub fn add_server(
        &mut self,
        server_name: &str,
        spawned: Result<S, McpProxyError>,
    ) -> (r: Result<(), WorkerError>)
        ensures
            match spawned {
                Ok(server) => r is Ok && final(self)@ == old(self)@.with_server(
                    server_name@,
                    server,
                ),
                Err(failure) => final(self)@ == old(self)@ && (r matches Err(error) && error@
                    == WorkerErrorView::Handler(failure@.text())),
            },
    {
        match spawned {
            Ok(server) => {
                self.servers.insert(server_name, server);
                Ok(())
            },
            Err(failure) => Err(WorkerError::Handler(failure.to_string())),
        }
    }

    /// How long to wait, in seconds, before a server is restarted: then the old one
    /// is taken away, and a new one is started. The attempts are numbered from zero,
    /// and there is a limit to their number.
    pub fn restart_server_with_backoff(
        &self,
        server_name: &str,
        attempt: u32,
    ) -> (r: Result<u64, WorkerError>)
        ensures
            if attempt < self@.config.max_restarts {
                r matches Ok(wait) && wait == backoff(
                    self@.config.restart_backoff_base,
                    attempt,
                    self@.config.max_backoff,
                )
            } else {
                r matches Err(error) && error@ == WorkerErrorView::Handler(
                    "Max restarts exceeded for server: "@ + server_name@,
                )
            },
    {
        if attempt >= self.config.max_restarts {
            return Err(
                WorkerError::Handler(join("Max restarts exceeded for server: ", server_name)),
            );
        }
        Ok(
            capped_wait(
                self.config.restart_backoff_base,
                attempt,
                self.config.max_backoff,
            ),
        )
    }

    /// Takes a server away.
    pub fn remove_server(&mut self, server_name: &str) -> (r: Option<S>)
        ensures
            final(self)@ == old(self)@.without_server(server_name@),
            match r {
                Some(server) => old(self)@.servers.contains_key(server_name@) && server == old(
                    self,
                )@.servers[server_name@],
                None => !old(self)@.servers.contains_key(server_name@),
            },
    {
        self.servers.remove(server_name)
    }

    /// The number of servers.
    pub fn server_count(&self) -> (r: usize)
        ensures
            r == self@.servers.dom().len(),
    {
        self.servers.len()
    }

    /// The bytes of an error response.
    pub fn create_error_response(id: Option<&RequestId>, code: i32, message: &str) -> (r: Vec<u8>)
        ensures
            rpc::written(
                r@,
                rpc::short_error_json(
                    optional_id_json(
                        match id {
                            Some(id) => Some(id@),
                            None => None,
                        },
                    ),
                    code as i64,
                    message@,
                ),
            ),
    {
        let id_value: Value = match id {
            Some(id) => id.to_value(),
            None => null_value(),
        };
        let response: Value = short_error_value(id_value, code as i64, message);
        match to_bytes(&response) {
            Ok(bytes) => bytes,
            Err(_) => {
                let fallback: &str = "{\"jsonrpc\":\"2.0\",\"id\":null,\"error\":{\"code\":-32000,\"message\":\"Internal error\"}}";
                fallback.as_bytes_vec()
            },
        }
    }

    /// What to do with a request: while the proxy shuts down it is answered with an
    /// error, and otherwise it is forwarded to the server that its session names.
    pub fn handle(&self, msg: Message) -> (r: Result<ProxyStep, WorkerError>)
        ensures
            if self@.shutdown_initiated {
                r matches Ok(ProxyStep::Answer(bytes)) && rpc::written(
                    bytes@,
                    shutdown_answer(msg@.routing.id),
                )
            } else {
                match server_name_of(msg@.routing.session_id) {
                    Ok(name) => r matches Ok(ProxyStep::Forward { server_name, request })
                        && server_name@ == name && request@ == msg@.raw,
                    Err(error) => r matches Err(given) && given@ == error,
                }
            },
    {
        if self.shutdown_initiated {
            let id: Option<&RequestId> = match &msg.routing.id {
                Some(id) => Some(id),
                None => None,
            };
            return Ok(
                ProxyStep::Answer(
                    McpProxyHandler::<S>::create_error_response(
                        id,
                        SERVER_ERROR_CODE,
                        "MCP proxy is shutting down",
                    ),
                ),
            );
        }
        match McpProxyHandler::<S>::extract_server_name(&msg.routing.session_id) {
            Ok(server_name) => Ok(ProxyStep::Forward { server_name, request: msg.raw }),
            Err(error) => Err(error),
        }
    }

    /// What the handler of a request gives back for the reply of the server: the
    /// answer as it is, or the text of the error.
    pub fn finish(reply: Reply) -> (r: Handled)
        ensures
            worker::handled_view(r) == (match managed_server::reply_view(reply) {
                Ok(answer) => Ok::<Option<Seq<u8>>, WorkerErrorView>(Some(answer)),
                Err(error) => Err(WorkerErrorView::Handler(error.text())),
            }),
    {
        match reply {
            Ok(answer) => Ok(Some(answer)),
            Err(error) => Err(WorkerError::Handler(error.to_string())),
        }
    }

    /// Begins the shutdown: from now on requests are answered with an error. The
    /// names of the servers that are to be ended are given back.
    pub fn on_shutdown(&mut self) -> (r: Vec<String>)
        ensures
            final(self)@ == old(self)@.shut_down(),
            r@.map_values(|name: String| name@).no_duplicates(),
            r@.map_values(|name: String| name@).to_set() == old(self)@.servers.dom(),
    {
        self.shutdown_initiated = true;
        let names: Vec<String> = self.servers.keys();
        assert(names@.map_values(|name: String| name@) =~= self.servers.spec_keys());
        names
    }
}

/// A shutdown that has begun is not taken back, and it begins only when it is asked
/// for.
pub proof fn law_shutdown_is_final<S>(
    proxy: McpProxyView<S>,
    server_name: Seq<char>,
    server: S,
)
    ensures
        proxy.shut_down().shutdown_initiated,
        proxy.with_server(server_name, server).shutdown_initiated == proxy.shutdown_initiated,
        proxy.without_server(server_name).shutdown_initiated == proxy.shutdown_initiated,
{
}

/// Taking over or taking away a server leaves the servers of other names alone.
pub proof fn law_servers_are_independent<S>(
    proxy: McpProxyView<S>,
    server_name: Seq<char>,
    server: S,
    other: Seq<char>,
)
    requires
        other != server_name,
    ensures
        proxy.with_server(server_name, server).servers.contains_key(other)
            <==> proxy.servers.contains_key(other),
        proxy.without_server(server_name).servers.contains_key(other)
            <==> proxy.servers.contains_key(other),
        proxy.servers.contains_key(other) ==> proxy.with_server(server_name, server).servers[other]
            == proxy.servers[other] && proxy.without_server(server_name).servers[other]
            == proxy.servers[other],
{
}

/// While the proxy shuts down, the answer to a request is an error response with the
/// identifier of the request, and it can be read.
pub proof fn law_shutdown_answer_is_readable(id: Option<RequestIdView>)
    ensures
        shutdown_answer(id).reparses(),
        shutdown_answer(id).field("id"@) == Some(optional_id_json(id)),
        RoutingView::of_document(shutdown_answer(id)) == (RoutingView {
            id: match id {
                Some(id) => id.routed(),
                None => None,
            },
            is_response: true,
            is_error: true,
            ..RoutingView::none()
        }),
{
    let message = "MCP proxy is shutting down"@;
    let error = rpc::RpcErrorView::plain(SERVER_ERROR_CODE as i64, message);
    rpc::law_responses_are_routed(optional_id_json(id), Json::Null, error);
    rpc::lemma_responses_reparse(optional_id_json(id), Json::Null, error.code, message);
}

/// Messages of different servers go to different servers, and the name that stands
/// behind the prefix is the server.
pub proof fn law_server_is_named_by_session(name: Seq<char>)
    ensures
        server_name_of(Some(MCP_PREFIX@ + name)) == Ok::<Seq<char>, WorkerErrorView>(name),
{
    session::law_mcp_round_trip(name);
}

/// The wait before a restart does not get shorter from one attempt to the next, and
/// it is never longer than the longest wait. Once it is as long as that, it stays so.
pub proof fn law_backoff_grows_to_the_limit(base: u64, attempt: u32, later: u32, longest: u64)
    requires
        attempt <= later,
    ensures
        backoff(base, attempt, longest) <= backoff(base, later, longest) <= longest,
        backoff(base, attempt, longest) == longest ==> backoff(base, later, longest) == longest,
        backoff(base, 0, longest) == if base <= longest {
            base
        } else {
            longest
        },
{
    power2::lemma2_to64();
    if attempt < later {
        power2::lemma_pow2_strictly_increases(attempt as nat, later as nat);
    }
    let x = power2::pow2(attempt as nat);
    let y = power2::pow2(later as nat);
    assert(base * x <= base * y) by (nonlinear_arith)
        requires
            x <= y,
            0 <= base,
    ;
    assert(0 <= base * x) by (nonlinear_arith)
        requires
            0 <= base,
            0 <= x,
    ;
}

/// Until the longest wait is reached, the wait doubles with each attempt.
pub proof fn law_backoff_doubles(base: u64, attempt: u32, longest: u64)
    requires
        attempt < u32::MAX,
        backoff(base, (attempt + 1) as u32, longest) < longest,
    ensures
        backoff(base, (attempt + 1) as u32, longest) == 2 * backoff(base, attempt, longest),
{
    power2::lemma_pow2_unfold((attempt + 1) as nat);
    let x = power2::pow2(attempt as nat);
    assert(base * (2 * x) == 2 * (base * x)) by (nonlinear_arith);
    assert(0 <= base * x) by (nonlinear_arith)
        requires
            0 <= base,
            0 <= x,
    ;
}

/// A session identifier names the server whose name stands behind "mcp:", and no other.
/// One without that in front is refused, and told in full, and so is none at all.
pub proof fn law_only_mcp_sessions_name_a_server(session_id: Seq<char>, name: Seq<char>)
    ensures
        server_name_of(Some(session_id)) == Ok::<Seq<char>, WorkerErrorView>(name) <==> session_id
            == "mcp:"@ + name,
        server_name_of(Some(session_id)) matches Err(error) ==> error == WorkerErrorView::Handler(
            "Invalid sessionId format, expected 'mcp:<server_name>', got '"@ + session_id + "'"@,
        ),
        server_name_of(None) == Err::<Seq<char>, WorkerErrorView>(
            WorkerErrorView::Handler("Missing sessionId"@),
        ),
{
    text::law_prefix_is_cut(session_id, MCP_PREFIX@, name);
}

/// The answer while the proxy shuts down has the identifier of the request, null where it
/// has none, and the error with its code and message.
pub proof fn law_shutdown_answer_tells_the_shutdown(id: Option<RequestIdView>)
    ensures
        ({
            let answer = shutdown_answer(id);
            &&& answer is Object
            &&& answer.field("jsonrpc"@) == Some(Json::Text("2.0"@))
            &&& match id {
                Some(RequestIdView::Text(text)) => answer.field("id"@) == Some(Json::Text(text)),
                Some(RequestIdView::Integer(n)) => answer.field("id"@) == Some(
                    Json::Integer(n as int),
                ),
                None => answer.field("id"@) == Some(Json::Null),
            }
            &&& answer.field("result"@) is None
            &&& answer.field("error"@) matches Some(error)
            &&& error.field("code"@) == Some(Json::Integer(-32000))
            &&& error.field("message"@) == Some(Json::Text("MCP proxy is shutting down"@))
        }),
{
    let error = rpc::RpcErrorView::plain(SERVER_ERROR_CODE as i64, "MCP proxy is shutting down"@);
    rpc::law_error_response_has_its_fields(optional_id_json(id), error, "result"@);
    rpc::lemma_response_names();
}

/// Each wait is twice the one before, or the longest wait where that is less.
pub proof fn law_next_wait_is_twice_as_long(base: u64, attempt: u32, longest: u64)
    requires
        attempt < u32::MAX,
    ensures
        backoff(base, (attempt + 1) as u32, longest) == if 2 * backoff(base, attempt, longest)
            <= longest {
            2 * backoff(base, attempt, longest)
        } else {
            longest as nat
        },
        backoff(base, 0, longest) == if base <= longest {
            base
        } else {
            longest
        },
{
    power2::lemma2_to64();
    power2::lemma_pow2_unfold((attempt + 1) as nat);
    let x = power2::pow2(attempt as nat);
    assert(base * (2 * x) == 2 * (base * x)) by (nonlinear_arith);
    assert(0 <= base * x) by (nonlinear_arith)
        requires
            0 <= base,
            0 <= x,
    ;
}

/// A server that is taken over is there, one that is taken away is not, and the beginning
/// of the shutdown takes none away. The configuration stays.
pub proof fn law_servers_come_and_go<S>(proxy: McpProxyView<S>, server_name: Seq<char>, server: S)
    ensures
        proxy.with_server(server_name, server).servers.contains_key(server_name),
        proxy.with_server(server_name, server).servers[server_name] == server,
        !proxy.without_server(server_name).servers.contains_key(server_name),
        proxy.shut_down().servers == proxy.servers,
        proxy.with_server(server_name, server).config == proxy.config,
        proxy.without_server(server_name).config == proxy.config,
        proxy.shut_down().config == proxy.config,
{
}

} // verus!
