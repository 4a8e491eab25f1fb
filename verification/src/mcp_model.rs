//! MCP messages, as `rmcp` reads and writes them.

use crate::json::{self, Json};
use crate::message::{RequestId, RequestIdView};
use rmcp::model::{
    ClientNotification, ClientRequest, Implementation, JsonRpcMessage, NumberOrString,
    ServerCapabilities, ToolsCapability,
};
use crate::rpc;
use serde_json::Value;
use vstd::prelude::*;

verus! {

/// `rmcp::model::Implementation`: how a program names itself. It is carried along
/// and never looked into.
#[verifier::external_type_specification]
#[verifier::external_body]
pub struct ExImplementation(rmcp::model::Implementation);

/// The messages of an MCP client, as `rmcp` reads them.
type WireMessage = JsonRpcMessage<ClientRequest, Value, ClientNotification>;

/// A message from an MCP client.
#[derive(Debug)]
pub enum McpIncoming {
    /// A request, which awaits a response.
    Request { id: RequestId, request: McpRequest },
    /// A response with a result.
    Response,
    /// A notification, which awaits nothing.
    Notification,
    /// A response with an error.
    Error,
}

/// A request from an MCP client, as far as the server tells requests apart.
#[derive(Debug)]
pub enum McpRequest {
    /// Start of a session.
    Initialize { protocol_version: String, client_info: Implementation },
    /// Sign of life.
    Ping,
    /// What tools there are.
    ListTools,
    /// Any other request.
    Other,
}

/// What an [`McpIncoming`] holds.
#[verifier::ext_equal]
pub enum McpIncomingView {
    Request { id: RequestIdView, request: McpRequestView },
    Response,
    Notification,
    Error,
}

/// What an [`McpRequest`] holds.
#[verifier::ext_equal]
pub enum McpRequestView {
    Initialize { protocol_version: Seq<char>, client_info: Implementation },
    Ping,
    ListTools,
    Other,
}

impl View for McpRequest {
    type V = McpRequestView;

    open spec fn view(&self) -> McpRequestView {
        match self {
            McpRequest::Initialize { protocol_version, client_info } => McpRequestView::Initialize {
                protocol_version: protocol_version@,
                client_info: *client_info,
            },
            McpRequest::Ping => McpRequestView::Ping,
            McpRequest::ListTools => McpRequestView::ListTools,
            McpRequest::Other => McpRequestView::Other,
        }
    }
}

impl View for McpIncoming {
    type V = McpIncomingView;

    open spec fn view(&self) -> McpIncomingView {
        match self {
            McpIncoming::Request { id, request } => McpIncomingView::Request {
                id: id@,
                request: request@,
            },
            McpIncoming::Response => McpIncomingView::Response,
            McpIncoming::Notification => McpIncomingView::Notification,
            McpIncoming::Error => McpIncomingView::Error,
        }
    }
}

/// What `serde_json::from_slice` gives for the bytes of an MCP message: the message,
/// or the text of the error.
pub uninterp spec fn mcp_parse_result(raw: Seq<u8>) -> Result<McpIncomingView, Seq<char>>;

/// Calls `serde_json::from_slice` for an `rmcp::model::JsonRpcMessage` and takes out
/// of it what the server looks at. The result depends on the bytes alone. The bytes of
/// a request are a JSON document, and the identifier of the request is the one that
/// stands in its field `id`.
#[verifier::external_body]
pub(crate) fn parse_incoming(raw: &[u8]) -> (r: Result<McpIncoming, serde_json::Error>)
    ensures
        mcp_parse_result(raw@) == (match r {
            Ok(incoming) => Ok::<McpIncomingView, Seq<char>>(incoming@),
            Err(error) => Err(json::error_display(error)),
        }),
        r matches Ok(McpIncoming::Request { id, request }) ==> (json::parse_result(
            raw@,
        ) matches Ok(document) && RequestIdView::in_document(document) == Some(id@)),
{
    serde_json::from_slice::<WireMessage>(raw).map(|message| match message {
        JsonRpcMessage::Request(r) => McpIncoming::Request {
            id: match r.id { NumberOrString::Number(n) => RequestId::Integer(n), NumberOrString::String(s) => RequestId::String(s.to_string()) },
            request: match r.request {
                ClientRequest::InitializeRequest(i) => McpRequest::Initialize { protocol_version: i.params.protocol_version.to_string(), client_info: i.params.client_info },
                ClientRequest::PingRequest(_) => McpRequest::Ping,
                ClientRequest::ListToolsRequest(_) => McpRequest::ListTools,
                _ => McpRequest::Other,
            },
        },
        JsonRpcMessage::Response(_) => McpIncoming::Response,
        JsonRpcMessage::Notification(_) => McpIncoming::Notification,
        JsonRpcMessage::Error(_) => McpIncoming::Error,
    })
}

/// What the server answers to the start of a session.
#[derive(Debug)]
pub struct InitializeResult {
    pub protocol_version: String,
    pub tools_list_changed: bool,
    pub server_name: String,
    pub server_title: String,
    pub server_version: String,
}

/// What an [`InitializeResult`] holds.
#[verifier::ext_equal]
pub struct InitializeResultView {
    pub protocol_version: Seq<char>,
    pub tools_list_changed: bool,
    pub server_name: Seq<char>,
    pub server_title: Seq<char>,
    pub server_version: Seq<char>,
}

impl View for InitializeResult {
    type V = InitializeResultView;

    open spec fn view(&self) -> InitializeResultView {
        InitializeResultView {
            protocol_version: self.protocol_version@,
            tools_list_changed: self.tools_list_changed,
            server_name: self.server_name@,
            server_title: self.server_title@,
            server_version: self.server_version@,
        }
    }
}

impl InitializeResultView {
    /// The result as JSON.
    pub open spec fn json(self) -> Json {
        let tools = rpc::no_fields().with_field("listChanged"@, Json::Bool(self.tools_list_changed));
        let server = rpc::no_fields().with_field("name"@, Json::Text(self.server_name)).with_field(
            "title"@,
            Json::Text(self.server_title),
        ).with_field("version"@, Json::Text(self.server_version));
        rpc::no_fields().with_field("protocolVersion"@, Json::Text(self.protocol_version)).with_field(
            "capabilities"@,
            rpc::no_fields().with_field("tools"@, tools),
        ).with_field("serverInfo"@, server)
    }
}

/// Calls `serde_json::to_value` on an `rmcp::model::InitializeResult` with these
/// values and no others. It always succeeds, and fields without a value are left
/// out.
#[verifier::external_body]
pub(crate) fn initialize_result_value(
    result: InitializeResult,
) -> (r: Result<Value, serde_json::Error>)
    ensures
        match r {
            Ok(value) => json::content(value) == result@.json(),
            Err(_) => false,
        },
{
    let tools = Some(ToolsCapability { list_changed: Some(result.tools_list_changed) });
    serde_json::to_value(rmcp::model::InitializeResult {
        protocol_version: serde_json::from_value(Value::from(result.protocol_version))?,
        capabilities: ServerCapabilities { tools, ..Default::default() },
        server_info: Implementation {
            name: result.server_name,
            title: Some(result.server_title),
            version: result.server_version,
            description: None,
            icons: None,
            website_url: None,
        },
        instructions: None,
    })
}

/// What the server answers to the start of a session can be read in a response.
pub proof fn lemma_initialize_result_fits(result: InitializeResultView)
    ensures
        rpc::fits_in_response(result.json()),
{
    reveal_with_fuel(Json::within_depth, 4);
}

/// The answer to the start of a session tells the version of the protocol, that the list
/// of the tools can change, and the name, title and version of the server.
pub proof fn law_initialize_result_has_its_fields(result: InitializeResultView)
    ensures
        ({
            let answer = result.json();
            &&& answer.field("protocolVersion"@) == Some(Json::Text(result.protocol_version))
            &&& answer.field("capabilities"@) matches Some(capabilities)
            &&& capabilities.field("tools"@) matches Some(tools)
            &&& tools.field("listChanged"@) == Some(Json::Bool(result.tools_list_changed))
            &&& answer.field("serverInfo"@) matches Some(server)
            &&& server.field("name"@) == Some(Json::Text(result.server_name))
            &&& server.field("title"@) == Some(Json::Text(result.server_title))
            &&& server.field("version"@) == Some(Json::Text(result.server_version))
        }),
{
    reveal_strlit("protocolVersion");
    reveal_strlit("capabilities");
    reveal_strlit("serverInfo");
    reveal_strlit("name");
    reveal_strlit("title");
    reveal_strlit("version");
    assert("protocolVersion"@.len() == 15);
    assert("capabilities"@.len() == 12);
    assert("serverInfo"@.len() == 10);
    assert("name"@.len() == 4);
    assert("title"@.len() == 5);
    assert("version"@.len() == 7);
}

/// What is said of messages and answers is said of what they hold.
pub proof fn law_mcp_values_are_what_they_hold(
    id: RequestId,
    protocol_version: String,
    client_info: Implementation,
    request: McpRequest,
    result: InitializeResult,
)
    ensures
        (McpIncoming::Request { id, request })@ == (McpIncomingView::Request {
            id: id@,
            request: request@,
        }),
        McpIncoming::Response@ is Response,
        McpIncoming::Notification@ is Notification,
        McpIncoming::Error@ is Error,
        (McpRequest::Initialize { protocol_version, client_info })@ == (
        McpRequestView::Initialize { protocol_version: protocol_version@, client_info }),
        McpRequest::Ping@ is Ping,
        McpRequest::ListTools@ is ListTools,
        McpRequest::Other@ is Other,
        result@.protocol_version == result.protocol_version@,
        result@.tools_list_changed == result.tools_list_changed,
        result@.server_name == result.server_name@,
        result@.server_title == result.server_title@,
        result@.server_version == result.server_version@,
{
}

} // verus!
