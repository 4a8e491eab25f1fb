//! JSON-RPC responses.

use crate::json::{
    self, empty_object, error_text, integer_value, null_value, set_field, text_value, write_value,
    Json,
};
use crate::message::{RequestIdView, RoutingView};
use crate::routing::{self, MAX_SESSION_ID_LEN};
use crate::worker::{self, WorkerPhaseView, WorkerView};
use serde_json::Value;
use vstd::prelude::*;
use vstd::utf8;

verus! {

/// The code of an error for a request that is not valid in its place.
pub const INVALID_REQUEST_ERROR_CODE: i64 = -32600;

/// The code of an error for a method that is not known.
pub const METHOD_NOT_FOUND_ERROR_CODE: i64 = -32601;

/// Why a request was not served.
#[derive(Debug)]
pub struct RpcError {
    pub code: i64,
    pub message: String,
    pub data: Option<Value>,
}

/// What an [`RpcError`] holds.
#[verifier::ext_equal]
pub struct RpcErrorView {
    pub code: i64,
    pub message: Seq<char>,
    pub data: Option<Json>,
}

impl View for RpcError {
    type V = RpcErrorView;

    open spec fn view(&self) -> RpcErrorView {
        RpcErrorView {
            code: self.code,
            message: self.message@,
            data: match self.data {
                Some(data) => Some(json::content(data)),
                None => None,
            },
        }
    }
}

impl RpcErrorView {
    /// An error without data.
    pub open spec fn plain(code: i64, message: Seq<char>) -> RpcErrorView {
        RpcErrorView { code, message, data: None }
    }
}

/// An object without fields.
pub open spec fn no_fields() -> Json {
    Json::Object(Map::empty())
}

/// The start of every response: the version of the protocol and the identifier of
/// the request.
pub open spec fn response_head(id: Json) -> Json {
    no_fields().with_field("jsonrpc"@, Json::Text("2.0"@)).with_field("id"@, id)
}

/// The response with a result.
pub open spec fn response_json(id: Json, result: Json) -> Json {
    response_head(id).with_field("result"@, result)
}

/// A code and a message.
pub open spec fn code_and_message(code: i64, message: Seq<char>) -> Json {
    no_fields().with_field("code"@, Json::Integer(code as int)).with_field(
        "message"@,
        Json::Text(message),
    )
}

/// The response with an error that has a code and a message alone.
pub open spec fn short_error_json(id: Json, code: i64, message: Seq<char>) -> Json {
    response_head(id).with_field("error"@, code_and_message(code, message))
}

/// The response with an error; data that it does not have is null.
pub open spec fn error_json(id: Json, error: RpcErrorView) -> Json {
    response_head(id).with_field(
        "error"@,
        code_and_message(error.code, error.message).with_field(
            "data"@,
            match error.data {
                Some(data) => data,
                None => Json::Null,
            },
        ),
    )
}

/// The start of every response.
fn head(id: Value) -> (r: Value)
    ensures
        json::content(r) == response_head(json::content(id)),
{
    let mut response: Value = empty_object();
    set_field(&mut response, "jsonrpc", text_value("2.0"));
    set_field(&mut response, "id", id);
    response
}

/// The object with a code and a message.
fn code_and_message_value(code: i64, message: &str) -> (r: Value)
    ensures
        json::content(r) == code_and_message(code, message@),
{
    let mut error: Value = empty_object();
    set_field(&mut error, "code", integer_value(code));
    set_field(&mut error, "message", text_value(message));
    error
}

/// The response with a result.
pub fn response_value(id: Value, result: Value) -> (r: Value)
    ensures
        json::content(r) == response_json(json::content(id), json::content(result)),
{
    let mut response: Value = head(id);
    set_field(&mut response, "result", result);
    response
}

/// The response with an error that has a code and a message alone.
pub fn short_error_value(id: Value, code: i64, message: &str) -> (r: Value)
    ensures
        json::content(r) == short_error_json(json::content(id), code, message@),
{
    let mut response: Value = head(id);
    set_field(&mut response, "error", code_and_message_value(code, message));
    response
}

/// The response with an error; data that it does not have is null.
pub fn error_value(id: Value, error: RpcError) -> (r: Value)
    ensures
        json::content(r) == error_json(json::content(id), error@),
{
    let mut response: Value = head(id);
    let mut body: Value = code_and_message_value(error.code, error.message.as_str());
    let data: Value = match error.data {
        Some(data) => data,
        None => null_value(),
    };
    set_field(&mut body, "data", data);
    set_field(&mut response, "error", body);
    response
}

/// Writes a JSON value. The bytes are one line, and where the value reparses they
/// have its routing fields.
pub fn to_bytes(value: &Value) -> (r: Result<Vec<u8>, String>)
    ensures
        r matches Ok(bytes) && written(bytes@, json::content(*value)),
{
    match write_value(value) {
        Ok(bytes) => {
            proof {
                let document = json::content(*value);
                if document.reparses() {
                    let back = json::parse_result(bytes@)->Ok_0;
                    json::lemma_read_back_agrees(document, back, json::MAX_DEPTH as nat);
                    routing::lemma_agreeing_routing(document, back, json::MAX_DEPTH as nat);
                }
            }
            Ok(bytes)
        },
        Err(error) => Err(error_text(&error)),
    }
}

/// Whether bytes are what is written for a document: its JSON text on one line. They
/// are read back as that document, with each float as it comes back, and have its
/// routing fields, where the document reparses.
pub open spec fn written(bytes: Seq<u8>, document: Json) -> bool {
    &&& bytes == json::printed(document)
    &&& json::is_json_text(bytes)
    &&& worker::is_one_line(worker::frame(bytes))
    &&& document.reparses() ==> (json::parse_result(bytes) matches Ok(back)
        && document.reads_back_as(back, json::MAX_DEPTH as nat))
    &&& document.reparses() && document is Object ==> RoutingView::of(bytes)
        == RoutingView::of_document(document)
}

/// The names of the fields of a response differ from each other and from those of
/// the other routing fields.
pub proof fn lemma_response_names()
    ensures
        "jsonrpc"@ != "id"@,
        "jsonrpc"@ != "result"@,
        "jsonrpc"@ != "error"@,
        "jsonrpc"@ != "method"@,
        "jsonrpc"@ != "sessionId"@,
        "id"@ != "result"@,
        "id"@ != "error"@,
        "id"@ != "method"@,
        "id"@ != "sessionId"@,
        "result"@ != "error"@,
        "result"@ != "method"@,
        "result"@ != "sessionId"@,
        "error"@ != "method"@,
        "error"@ != "sessionId"@,
{
    reveal_strlit("jsonrpc");
    reveal_strlit("id");
    reveal_strlit("result");
    reveal_strlit("error");
    reveal_strlit("method");
    reveal_strlit("sessionId");
    assert("jsonrpc"@.len() == 7);
    assert("id"@.len() == 2);
    assert("result"@.len() == 6 && "result"@[0] == 'r');
    assert("error"@.len() == 5);
    assert("method"@.len() == 6 && "method"@[0] == 'm');
    assert("sessionId"@.len() == 9);
}

/// The request identifier that a JSON value stands for, as a routing field.
pub open spec fn routed_id(id: Json) -> Option<RequestIdView> {
    match RequestIdView::of(id) {
        Some(id) => id.routed(),
        None => None,
    }
}

/// Every response is a response to the request with its identifier, and an error
/// response exactly where it has an error.
pub proof fn law_responses_are_routed(id: Json, result: Json, error: RpcErrorView)
    ensures
        RoutingView::of_document(response_json(id, result)) == (RoutingView {
            id: routed_id(id),
            is_response: true,
            ..RoutingView::none()
        }),
        RoutingView::of_document(error_json(id, error)) == (RoutingView {
            id: routed_id(id),
            is_response: true,
            is_error: true,
            ..RoutingView::none()
        }),
        RoutingView::of_document(short_error_json(id, error.code, error.message)) == (RoutingView {
            id: routed_id(id),
            is_response: true,
            is_error: true,
            ..RoutingView::none()
        }),
        response_json(id, result).field("id"@) == Some(id),
        error_json(id, error).field("id"@) == Some(id),
        short_error_json(id, error.code, error.message).field("id"@) == Some(id),
{
    lemma_response_names();
}

/// How deep a part of a response may be so that the response can be read.
pub open spec fn fits_in_response(part: Json) -> bool {
    part.within_depth((json::MAX_DEPTH - 1) as nat)
}

/// A response whose parts fit can be read back.
pub proof fn lemma_responses_reparse(id: Json, result: Json, code: i64, message: Seq<char>)
    requires
        fits_in_response(id),
    ensures
        fits_in_response(result) ==> response_json(id, result).reparses(),
        short_error_json(id, code, message).reparses(),
        error_json(id, RpcErrorView::plain(code, message)).reparses(),
{
    reveal_with_fuel(Json::within_depth, 3);
    let body = code_and_message(code, message);
    let full = body.with_field("data"@, Json::Null);
    assert(fits_in_response(body));
    assert(fits_in_response(full));
}

/// What a worker sends for a response of its handler is one line, and it has the routing
/// fields of the response, the session identifier of the request and, whatever its
/// length, the request identifier that stands in the response.
pub proof fn law_response_reaches_its_session(
    worker: WorkerView,
    session_id: Seq<char>,
    response: Seq<u8>,
    document: Json,
)
    requires
        worker.phase == WorkerPhaseView::Handling(Some(session_id)),
        utf8::encode_utf8(session_id).len() <= MAX_SESSION_ID_LEN,
        worker.reply_keeps_session(response),
        written(response, document),
        document is Object,
        document.reparses(),
    ensures
        worker::is_one_line(worker::frame(worker.reply(response))),
        RoutingView::of(worker.reply(response)) == (RoutingView {
            session_id: Some(session_id),
            ..RoutingView::of_document(document)
        }),
        json::parse_result(worker.reply(response)) matches Ok(sent)
            && RequestIdView::in_document(sent) == RequestIdView::in_document(document),
{
    let depth = json::MAX_DEPTH as nat;
    let back = json::parse_result(response)->Ok_0;
    let sent = json::parse_result(worker.reply(response))->Ok_0;
    json::lemma_read_back_agrees(document, back, depth);
    routing::lemma_agreeing_routing(document, back, depth);
    routing::lemma_field_names();
    let set = back.with_field("sessionId"@, Json::Text(session_id));
    json::lemma_read_back_agrees(set, sent, depth);
    routing::lemma_agreeing_routing(set, sent, depth);
}

/// A response with a result is an object with the version of the protocol, the identifier
/// and the result, and with nothing else.
pub proof fn law_result_response_has_its_fields(id: Json, result: Json, key: Seq<char>)
    ensures
        response_json(id, result) is Object,
        response_json(id, result).field("jsonrpc"@) == Some(Json::Text("2.0"@)),
        response_json(id, result).field("id"@) == Some(id),
        response_json(id, result).field("result"@) == Some(result),
        key != "jsonrpc"@ && key != "id"@ && key != "result"@ ==> response_json(id, result).field(
            key,
        ) is None,
{
    lemma_response_names();
}

/// A response with an error is an object with the version of the protocol, the identifier
/// and the error, and with nothing else. The error has its code, its message and its data,
/// null where it has none; the short form has no data.
pub proof fn law_error_response_has_its_fields(id: Json, error: RpcErrorView, key: Seq<char>)
    ensures
        ({
            let full = error_json(id, error);
            let short = short_error_json(id, error.code, error.message);
            &&& full is Object && short is Object
            &&& full.field("jsonrpc"@) == Some(Json::Text("2.0"@))
            &&& short.field("jsonrpc"@) == Some(Json::Text("2.0"@))
            &&& full.field("id"@) == Some(id)
            &&& short.field("id"@) == Some(id)
            &&& full.field("error"@) matches Some(body)
            &&& body.field("code"@) == Some(Json::Integer(error.code as int))
            &&& body.field("message"@) == Some(Json::Text(error.message))
            &&& match error.data {
                Some(data) => body.field("data"@) == Some(data),
                None => body.field("data"@) == Some(Json::Null),
            }
            &&& short.field("error"@) matches Some(plain)
            &&& plain.field("code"@) == Some(Json::Integer(error.code as int))
            &&& plain.field("message"@) == Some(Json::Text(error.message))
            &&& key != "code"@ && key != "message"@ ==> plain.field(key) is None
            &&& key != "code"@ && key != "message"@ && key != "data"@ ==> body.field(key) is None
            &&& key != "jsonrpc"@ && key != "id"@ && key != "error"@ ==> full.field(key) is None
                && short.field(key) is None
        }),
{
    lemma_response_names();
    reveal_strlit("code");
    reveal_strlit("message");
    reveal_strlit("data");
    assert("code"@.len() == 4 && "code"@[0] == 'c');
    assert("message"@.len() == 7);
    assert("data"@.len() == 4 && "data"@[0] == 'd');
}

/// The codes of errors are those of JSON-RPC, and an error without data has the code and
/// the message that it was given.
pub proof fn law_error_codes(error: RpcError, code: i64, message: Seq<char>)
    ensures
        INVALID_REQUEST_ERROR_CODE == -32600,
        METHOD_NOT_FOUND_ERROR_CODE == -32601,
        RpcErrorView::plain(code, message).code == code,
        RpcErrorView::plain(code, message).message == message,
        RpcErrorView::plain(code, message).data is None,
        error@.code == error.code,
        error@.message == error.message@,
        match (error@.data, error.data) {
            (Some(seen), Some(held)) => seen == json::content(held),
            (None, None) => true,
            _ => false,
        },
{
}

/// What is written for a document are the bytes that it is printed as, on one line, and
/// they are read back as that document.
pub proof fn law_written_bytes_are_the_document(bytes: Seq<u8>, document: Json)
    requires
        written(bytes, document),
    ensures
        bytes == json::printed(document),
        forall|i: int| 0 <= i < bytes.len() ==> #[trigger] bytes[i] != 10,
        document.within_depth(127) ==> (json::parse_result(bytes) matches Ok(back)
            && document.reads_back_as(back, 127) && document.agrees(back, 127) && (document.exact(
            127,
        ) ==> back == document)),
{
    if document.within_depth(127) {
        let back = json::parse_result(bytes)->Ok_0;
        json::lemma_read_back_agrees(document, back, 127);
        if document.exact(127) {
            json::law_exact_documents_are_kept(document, back, 127);
        }
    }
    assert forall|i: int| 0 <= i < bytes.len() implies #[trigger] bytes[i] != 10 by {
        assert(bytes[i] >= 0x20);
    }
}

} // verus!
