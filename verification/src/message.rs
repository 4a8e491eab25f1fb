//! Messages and the fields by which they are routed.

use crate::json::{self, integer_value, text_value, Json};
use serde_json::Value;
use vstd::prelude::*;

verus! {

/// A message as it came in, with its routing fields.
#[derive(Debug)]
pub struct Message {
    /// The JSON text as it was received, for forwarding.
    pub raw: Vec<u8>,
    /// The fields by which the message is routed.
    pub routing: RoutingFields,
}

/// The fields of a JSON-RPC message by which it is routed.
#[derive(Debug)]
pub struct RoutingFields {
    /// The identifier by which a response finds its request.
    pub id: Option<RequestId>,
    /// The session that the message belongs to.
    pub session_id: Option<String>,
    /// The method that is called.
    pub method: Option<String>,
    /// Whether the message is a response: it has a result or an error.
    pub is_response: bool,
    /// Whether the message is a response with an error.
    pub is_error: bool,
}

/// The identifier of a request.
#[derive(Debug, PartialEq, Eq, Hash)]
pub enum RequestId {
    String(String),
    Integer(i64),
}

/// What a [`RequestId`] holds.
#[verifier::ext_equal]
pub enum RequestIdView {
    Text(Seq<char>),
    Integer(i64),
}

/// What the routing fields hold.
#[verifier::ext_equal]
pub struct RoutingView {
    pub id: Option<RequestIdView>,
    pub session_id: Option<Seq<char>>,
    pub method: Option<Seq<char>>,
    pub is_response: bool,
    pub is_error: bool,
}

/// What a message holds.
#[verifier::ext_equal]
pub struct MessageView {
    pub raw: Seq<u8>,
    pub routing: RoutingView,
}

/// The text of a `String` that may be absent.
pub open spec fn text_view(text: Option<String>) -> Option<Seq<char>> {
    match text {
        Some(text) => Some(text@),
        None => None,
    }
}

/// The identifier of a request that may be absent.
pub open spec fn id_view(id: Option<RequestId>) -> Option<RequestIdView> {
    match id {
        Some(id) => Some(id@),
        None => None,
    }
}

impl View for RequestId {
    type V = RequestIdView;

    open spec fn view(&self) -> RequestIdView {
        match self {
            RequestId::String(text) => RequestIdView::Text(text@),
            RequestId::Integer(n) => RequestIdView::Integer(*n),
        }
    }
}

impl View for RoutingFields {
    type V = RoutingView;

    open spec fn view(&self) -> RoutingView {
        RoutingView {
            id: id_view(self.id),
            session_id: text_view(self.session_id),
            method: text_view(self.method),
            is_response: self.is_response,
            is_error: self.is_error,
        }
    }
}

impl View for Message {
    type V = MessageView;

    open spec fn view(&self) -> MessageView {
        MessageView { raw: self.raw@, routing: self.routing@ }
    }
}

impl RequestIdView {
    /// The request identifier that a JSON value stands for: a string, or an
    /// integer that fits.
    pub open spec fn of(document: Json) -> Option<RequestIdView> {
        match document.text() {
            Some(text) => Some(RequestIdView::Text(text)),
            None => match document.integer() {
                Some(n) => Some(RequestIdView::Integer(n)),
                None => None,
            },
        }
    }

    /// The JSON value that stands for a request identifier.
    pub open spec fn json(self) -> Json {
        match self {
            RequestIdView::Text(text) => Json::Text(text),
            RequestIdView::Integer(n) => Json::Integer(n as int),
        }
    }
}

impl RoutingView {
    /// The session that a message belongs to.
    pub open spec fn session_key(self) -> Seq<char> {
        match self.session_id {
            Some(session_id) => session_id,
            None => "default"@,
        }
    }

    /// The routing fields of a message that has none.
    pub open spec fn none() -> RoutingView {
        RoutingView {
            id: None,
            session_id: None,
            method: None,
            is_response: false,
            is_error: false,
        }
    }
}

/// The session that a message belongs to, by the session identifier that it has or has
/// not.
pub fn session_key(session_id: &Option<String>) -> (r: String)
    ensures
        r@ == (match *session_id {
            Some(session_id) => session_id@,
            None => "default"@,
        }),
{
    match session_id {
        Some(session_id) => session_id.clone(),
        None => "default".to_owned(),
    }
}

/// A copy of a text that may be absent.
pub fn clone_text(text: &Option<String>) -> (r: Option<String>)
    ensures
        r == *text,
{
    match text {
        Some(text) => Some(text.clone()),
        None => None,
    }
}

impl RequestId {
    /// Reads a request identifier from a JSON value.
    pub fn from_value(value: &Value) -> (r: Option<Self>)
        ensures
            id_view(r) == RequestIdView::of(json::content(*value)),
    {
        match value.as_str() {
            Some(text) => Some(RequestId::String(text.to_owned())),
            None => match value.as_i64() {
                Some(n) => Some(RequestId::Integer(n)),
                None => None,
            },
        }
    }

    /// The JSON value that stands for the identifier.
    pub fn to_value(&self) -> (r: Value)
        ensures
            json::content(r) == self@.json(),
    {
        match self {
            RequestId::String(text) => text_value(text.as_str()),
            RequestId::Integer(n) => integer_value(*n),
        }
    }
}

impl Clone for RequestId {
    fn clone(&self) -> (r: Self)
        ensures
            r == *self,
    {
        match self {
            RequestId::String(text) => RequestId::String(text.clone()),
            RequestId::Integer(n) => RequestId::Integer(*n),
        }
    }
}

impl Clone for RoutingFields {
    fn clone(&self) -> (r: Self)
        ensures
            r == *self,
    {
        RoutingFields {
            id: match &self.id {
                Some(id) => Some(id.clone()),
                None => None,
            },
            session_id: clone_text(&self.session_id),
            method: clone_text(&self.method),
            is_response: self.is_response,
            is_error: self.is_error,
        }
    }
}

impl Clone for Message {
    fn clone(&self) -> (r: Self)
        ensures
            r@ == self@,
    {
        Message { raw: self.raw.clone(), routing: self.routing.clone() }
    }
}

impl Default for RoutingFields {
    fn default() -> (r: Self)
        ensures
            r@ == RoutingView::none(),
    {
        RoutingFields {
            id: None,
            session_id: None,
            method: None,
            is_response: false,
            is_error: false,
        }
    }
}

/// A request identifier is read back from the JSON value that stands for it.
pub proof fn law_request_id_is_read_back(id: RequestIdView)
    ensures
        RequestIdView::of(id.json()) == Some(id),
{
}

/// A request identifier is read from a string or from an integer that fits, and it is
/// that string or that integer. Nothing else is one.
pub proof fn law_request_id_is_its_value(document: Json, text: Seq<char>, n: i64)
    ensures
        RequestIdView::of(document) == Some(RequestIdView::Text(text)) <==> document == Json::Text(
            text,
        ),
        RequestIdView::of(document) == Some(RequestIdView::Integer(n)) <==> document
            == Json::Integer(n as int),
        RequestIdView::Text(text).json() == Json::Text(text),
        RequestIdView::Integer(n).json() == Json::Integer(n as int),
{
}

/// A message belongs to the session that it names, and to the one named "default" where
/// it names none.
pub proof fn law_message_belongs_to_its_session(routing: RoutingView)
    ensures
        routing.session_id matches Some(session_id) ==> routing.session_key() == session_id,
        routing.session_id is None ==> routing.session_key() == "default"@,
{
}

/// What is said of messages is said of their fields as they are.
pub proof fn law_messages_are_what_they_hold(message: Message, text: String, n: i64)
    ensures
        message@.raw == message.raw@,
        match (message@.routing.id, message.routing.id) {
            (Some(RequestIdView::Text(seen)), Some(RequestId::String(held))) => seen == held@,
            (Some(RequestIdView::Integer(seen)), Some(RequestId::Integer(held))) => seen == held,
            (None, None) => true,
            _ => false,
        },
        match (message@.routing.session_id, message.routing.session_id) {
            (Some(seen), Some(held)) => seen == held@,
            (None, None) => true,
            _ => false,
        },
        match (message@.routing.method, message.routing.method) {
            (Some(seen), Some(held)) => seen == held@,
            (None, None) => true,
            _ => false,
        },
        message@.routing.is_response == message.routing.is_response,
        message@.routing.is_error == message.routing.is_error,
        text_view(Some(text)) == Some(text@),
        text_view(None) is None,
        id_view(Some(RequestId::String(text))) == Some(RequestIdView::Text(text@)),
        id_view(Some(RequestId::Integer(n))) == Some(RequestIdView::Integer(n)),
        id_view(None) is None,
{
}

} // verus!
