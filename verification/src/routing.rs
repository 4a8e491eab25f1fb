//! Reading the routing fields out of JSON-RPC messages.

use crate::json::{self, get_field, parse_value, Json};
use crate::message::{self, Message, MessageView, RequestId, RequestIdView, RoutingFields, RoutingView};
use crate::text::byte_len;
use serde_json::Value;
use vstd::prelude::*;
use vstd::utf8;

verus! {

/// The largest session identifier that is accepted, in bytes.
pub const MAX_SESSION_ID_LEN: usize = 256;

/// The largest request identifier that is accepted, in bytes.
pub const MAX_REQUEST_ID_LEN: usize = 128;

impl RequestIdView {
    /// Whether the identifier is not too long.
    pub open spec fn within_limit(self) -> bool {
        match self {
            RequestIdView::Text(text) => utf8::encode_utf8(text).len() <= MAX_REQUEST_ID_LEN,
            RequestIdView::Integer(_) => true,
        }
    }

    /// The identifier as a routing field: one that is too long is as good as none.
    pub open spec fn routed(self) -> Option<RequestIdView> {
        if self.within_limit() {
            Some(self)
        } else {
            None
        }
    }

    /// The request identifier that stands in a document, of whatever length.
    pub open spec fn in_document(document: Json) -> Option<RequestIdView> {
        match document.field("id"@) {
            Some(field) => RequestIdView::of(field),
            None => None,
        }
    }
}

impl RoutingView {
    /// The request identifier of a document, where it has one that is not too long.
    pub open spec fn id_of(document: Json) -> Option<RequestIdView> {
        match RequestIdView::in_document(document) {
            Some(id) => id.routed(),
            None => None,
        }
    }

    /// The session identifier of a document, where it has one that is not too
    /// long.
    pub open spec fn session_id_of(document: Json) -> Option<Seq<char>> {
        match document.text_field("sessionId"@) {
            Some(text) => if utf8::encode_utf8(text).len() <= MAX_SESSION_ID_LEN {
                Some(text)
            } else {
                None
            },
            None => None,
        }
    }

    /// The routing fields of a document.
    pub open spec fn of_document(document: Json) -> RoutingView {
        RoutingView {
            id: RoutingView::id_of(document),
            session_id: RoutingView::session_id_of(document),
            method: document.text_field("method"@),
            is_response: document.field("result"@) is Some || document.field("error"@) is Some,
            is_error: document.field("error"@) is Some,
        }
    }

    /// The routing fields of a message: those of the object that it spells, and
    /// none where it spells no object.
    pub open spec fn of(raw: Seq<u8>) -> RoutingView {
        match json::parse_result(raw) {
            Ok(document) => if document is Object {
                RoutingView::of_document(document)
            } else {
                RoutingView::none()
            },
            Err(_) => RoutingView::none(),
        }
    }
}

/// The text of a field that is a string.
fn get_text(value: &Value, key: &str) -> (r: Option<String>)
    ensures
        message::text_view(r) == json::content(*value).text_field(key@),
{
    match get_field(value, key) {
        Some(field) => match field.as_str() {
            Some(text) => Some(text.to_owned()),
            None => None,
        },
        None => None,
    }
}

/// Whether a request identifier is not too long.
fn is_within_limit(id: &RequestId) -> (r: bool)
    ensures
        r == id@.within_limit(),
{
    match id {
        RequestId::String(text) => byte_len(text.as_str()) <= MAX_REQUEST_ID_LEN,
        RequestId::Integer(_) => true,
    }
}

/// Reads the routing fields of a message.
///
/// Text that is no JSON object has none. A request identifier or a session identifier
/// that is too long is left out.
pub fn extract_routing_fields(raw: &[u8]) -> (r: RoutingFields)
    ensures
        r@ == RoutingView::of(raw@),
{
    match parse_value(raw) {
        Ok(value) => routing_of_value(&value),
        Err(_) => RoutingFields::default(),
    }
}

/// Reads the routing fields of a JSON value: those of an object, and none otherwise.
pub fn routing_of_value(value: &Value) -> (r: RoutingFields)
    ensures
        r@ == (if json::content(*value) is Object {
            RoutingView::of_document(json::content(*value))
        } else {
            RoutingView::none()
        }),
{
    if !value.is_object() {
        return RoutingFields::default();
    }
    let id: Option<RequestId> = match get_field(value, "id") {
        Some(field) => match RequestId::from_value(field) {
            Some(id) => if is_within_limit(&id) {
                Some(id)
            } else {
                None
            },
            None => None,
        },
        None => None,
    };
    let session_id: Option<String> = match get_text(value, "sessionId") {
        Some(text) => if byte_len(text.as_str()) <= MAX_SESSION_ID_LEN {
            Some(text)
        } else {
            None
        },
        None => None,
    };
    let method: Option<String> = get_text(value, "method");
    let is_error: bool = get_field(value, "error").is_some();
    let is_response: bool = get_field(value, "result").is_some() || is_error;
    RoutingFields { id, session_id, method, is_response, is_error }
}

/// Makes a message of JSON text.
pub fn parse_message(raw: Vec<u8>) -> (r: Message)
    ensures
        r@ == (MessageView { raw: raw@, routing: RoutingView::of(raw@) }),
{
    let routing: RoutingFields = extract_routing_fields(raw.as_slice());
    Message { raw, routing }
}

/// An error response is a response.
pub proof fn law_error_is_response(raw: Seq<u8>)
    ensures
        RoutingView::of(raw).is_error ==> RoutingView::of(raw).is_response,
{
}

/// No session identifier is longer than the limit.
pub proof fn law_session_id_is_bounded(raw: Seq<u8>)
    ensures
        RoutingView::of(raw).session_id matches Some(text) ==> utf8::encode_utf8(text).len()
            <= MAX_SESSION_ID_LEN,
{
}

/// No request identifier is longer than the limit.
pub proof fn law_request_id_is_bounded(raw: Seq<u8>)
    ensures
        RoutingView::of(raw).id matches Some(id) ==> id.within_limit(),
{
}

/// Text that is no JSON, or no JSON object, has no routing fields.
pub proof fn law_only_objects_are_routed(raw: Seq<u8>)
    ensures
        (json::parse_result(raw) matches Ok(document) ==> !(document is Object)) ==> RoutingView::of(raw)
            == RoutingView::none(),
{
}

/// Documents that agree up to the values of floats have the same routing fields.
pub proof fn lemma_agreeing_routing(a: Json, b: Json, depth: nat)
    requires
        a.agrees(b, depth),
    ensures
        RoutingView::of_document(a) == RoutingView::of_document(b),
        RequestIdView::in_document(a) == RequestIdView::in_document(b),
        a is Object <==> b is Object,
{
    json::lemma_agreeing_fields(a, b, "id"@, depth);
    json::lemma_agreeing_fields(a, b, "sessionId"@, depth);
    json::lemma_agreeing_fields(a, b, "method"@, depth);
    json::lemma_agreeing_fields(a, b, "result"@, depth);
    json::lemma_agreeing_fields(a, b, "error"@, depth);
}

/// The names of the routing fields differ from each other.
pub proof fn lemma_field_names()
    ensures
        "sessionId"@ != "id"@,
        "sessionId"@ != "method"@,
        "sessionId"@ != "result"@,
        "sessionId"@ != "error"@,
{
    reveal_strlit("sessionId");
    reveal_strlit("id");
    reveal_strlit("method");
    reveal_strlit("result");
    reveal_strlit("error");
    assert("sessionId"@.len() == 9);
    assert("id"@.len() == 2);
    assert("method"@.len() == 6);
    assert("result"@.len() == 6);
    assert("error"@.len() == 5);
}

/// Setting the session identifier of an object changes that routing field and no
/// other. One that is too long is as good as none.
pub proof fn law_session_id_is_set(document: Json, session_id: Seq<char>)
    requires
        document is Object,
    ensures
        RoutingView::of_document(document.with_field("sessionId"@, Json::Text(session_id))) == (RoutingView {
            session_id: if utf8::encode_utf8(session_id).len() <= MAX_SESSION_ID_LEN {
                Some(session_id)
            } else {
                None
            },
            ..RoutingView::of_document(document)
        }),
{
    lemma_field_names();
}

/// Of two session identifiers that are set one after the other, the last stays.
pub proof fn law_last_session_id_stays(document: Json, first: Seq<char>, last: Seq<char>)
    ensures
        document.with_field("sessionId"@, Json::Text(first)).with_field(
            "sessionId"@,
            Json::Text(last),
        ) == document.with_field("sessionId"@, Json::Text(last)),
{
    if let Json::Object(fields) = document {
        assert(fields.insert("sessionId"@, Json::Text(first)).insert(
            "sessionId"@,
            Json::Text(last),
        ) =~= fields.insert("sessionId"@, Json::Text(last)));
    }
}

/// The method of a message is the string in its field "method", whatever its other
/// fields are, and where that is no string there is none.
pub proof fn law_method_is_the_string_in_its_field(
    raw: Seq<u8>,
    fields: Map<Seq<char>, Json>,
    method: Seq<char>,
)
    requires
        json::parse_result(raw) == Ok::<Json, Seq<char>>(Json::Object(fields)),
    ensures
        RoutingView::of(raw).method == Some(method) <==> fields.contains_key("method"@)
            && fields["method"@] == Json::Text(method),
{
}

/// The session identifier of a message is the string in its field "sessionId", whatever
/// its other fields are, as long as that takes no more than 256 bytes.
pub proof fn law_session_id_is_the_string_in_its_field(
    raw: Seq<u8>,
    fields: Map<Seq<char>, Json>,
    session_id: Seq<char>,
)
    requires
        json::parse_result(raw) == Ok::<Json, Seq<char>>(Json::Object(fields)),
    ensures
        RoutingView::of(raw).session_id == Some(session_id) <==> fields.contains_key("sessionId"@)
            && fields["sessionId"@] == Json::Text(session_id) && utf8::encode_utf8(session_id).len()
            <= 256,
{
}

/// The request identifier of a message is the string or the integer in its field "id",
/// whatever its other fields are, as long as a string takes no more than 128 bytes and an
/// integer fits.
pub proof fn law_request_id_is_the_value_in_its_field(
    raw: Seq<u8>,
    fields: Map<Seq<char>, Json>,
    text: Seq<char>,
    n: i64,
)
    requires
        json::parse_result(raw) == Ok::<Json, Seq<char>>(Json::Object(fields)),
    ensures
        RoutingView::of(raw).id == Some(RequestIdView::Text(text)) <==> fields.contains_key("id"@)
            && fields["id"@] == Json::Text(text) && utf8::encode_utf8(text).len() <= 128,
        RoutingView::of(raw).id == Some(RequestIdView::Integer(n)) <==> fields.contains_key("id"@)
            && fields["id"@] == Json::Integer(n as int),
        RequestIdView::in_document(Json::Object(fields)) == Some(RequestIdView::Text(text))
            <==> fields.contains_key("id"@) && fields["id"@] == Json::Text(text),
        RequestIdView::in_document(Json::Object(fields)) == Some(RequestIdView::Integer(n))
            <==> fields.contains_key("id"@) && fields["id"@] == Json::Integer(n as int),
{
}

/// A message is a response exactly where it has a field "result" or a field "error",
/// whatever stands in them, and an error exactly where it has a field "error".
pub proof fn law_responses_have_a_result_or_an_error(raw: Seq<u8>, fields: Map<Seq<char>, Json>)
    requires
        json::parse_result(raw) == Ok::<Json, Seq<char>>(Json::Object(fields)),
    ensures
        RoutingView::of(raw).is_response <==> fields.contains_key("result"@)
            || fields.contains_key("error"@),
        RoutingView::of(raw).is_error <==> fields.contains_key("error"@),
{
}

/// The routing fields of a message are those of the object that it spells. Without one
/// there are none.
pub proof fn law_routing_is_read_from_the_object(raw: Seq<u8>)
    ensures
        json::parse_result(raw) matches Ok(Json::Object(fields)) ==> RoutingView::of(raw)
            == RoutingView::of_document(Json::Object(fields)),
        !(json::parse_result(raw) matches Ok(Json::Object(_))) ==> {
            &&& RoutingView::of(raw).id is None
            &&& RoutingView::of(raw).session_id is None
            &&& RoutingView::of(raw).method is None
            &&& !RoutingView::of(raw).is_response
            &&& !RoutingView::of(raw).is_error
        },
{
}

/// Setting the method of an object makes that the method and leaves the other routing
/// fields as they were.
pub proof fn law_method_is_set(document: Json, method: Seq<char>)
    requires
        document is Object,
    ensures
        RoutingView::of_document(document.with_field("method"@, Json::Text(method))) == (
        RoutingView { method: Some(method), ..RoutingView::of_document(document) }),
{
    lemma_field_names();
    lemma_other_field_names();
}

/// Setting the request identifier of an object makes that the identifier, unless it is
/// too long, and leaves the other routing fields as they were.
pub proof fn law_request_id_is_set(document: Json, id: RequestIdView)
    requires
        document is Object,
    ensures
        RoutingView::of_document(document.with_field("id"@, id.json())) == (RoutingView {
            id: match id {
                RequestIdView::Text(text) => if utf8::encode_utf8(text).len() <= 128 {
                    Some(id)
                } else {
                    None
                },
                RequestIdView::Integer(_) => Some(id),
            },
            ..RoutingView::of_document(document)
        }),
{
    lemma_field_names();
    lemma_other_field_names();
}

/// Giving an object a result makes it a response, and giving it an error makes it an
/// error response. The other routing fields are left as they were.
pub proof fn law_result_or_error_makes_a_response(document: Json, value: Json)
    requires
        document is Object,
    ensures
        RoutingView::of_document(document.with_field("result"@, value)) == (RoutingView {
            is_response: true,
            ..RoutingView::of_document(document)
        }),
        RoutingView::of_document(document.with_field("error"@, value)) == (RoutingView {
            is_response: true,
            is_error: true,
            ..RoutingView::of_document(document)
        }),
{
    lemma_field_names();
    lemma_other_field_names();
}

/// A field that is no routing field does not matter.
pub proof fn law_other_fields_do_not_matter(document: Json, key: Seq<char>, value: Json)
    requires
        key != "id"@,
        key != "sessionId"@,
        key != "method"@,
        key != "result"@,
        key != "error"@,
    ensures
        RoutingView::of_document(document.with_field(key, value)) == RoutingView::of_document(
            document,
        ),
{
}

proof fn lemma_other_field_names()
    ensures
        "id"@ != "method"@,
        "id"@ != "result"@,
        "id"@ != "error"@,
        "method"@ != "result"@,
        "method"@ != "error"@,
        "result"@ != "error"@,
{
    reveal_strlit("id");
    reveal_strlit("method");
    reveal_strlit("result");
    reveal_strlit("error");
    assert("id"@.len() == 2);
    assert("method"@.len() == 6 && "method"@[0] == 'm');
    assert("result"@.len() == 6 && "result"@[0] == 'r');
    assert("error"@.len() == 5);
}

} // verus!
