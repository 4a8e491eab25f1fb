use serde_json::Value;
use stdio_bus::message::RequestId;
use stdio_bus::routing::{
    extract_routing_fields, parse_message, routing_of_value, MAX_REQUEST_ID_LEN, MAX_SESSION_ID_LEN,
};

fn bytes_of(text: &str) -> Vec<u8> {
    let value: Value = serde_json::from_str(text).unwrap();
    serde_json::to_vec(&value).unwrap()
}

fn assert_no_routing(raw: &[u8]) {
    let routing = extract_routing_fields(raw);

    assert_eq!(routing.id, None);
    assert_eq!(routing.session_id, None);
    assert_eq!(routing.method, None);
    assert!(!routing.is_response);
    assert!(!routing.is_error);
}

#[test]
fn handles_empty_input() {
    assert_no_routing(&[]);
}

#[test]
fn handles_truncated_json() {
    assert_no_routing(b"{\"id\": \"test");
}

#[test]
fn handles_json_null() {
    let raw = serde_json::to_vec(&Value::Null).unwrap();
    assert_no_routing(&raw);
}

#[test]
fn handles_json_boolean() {
    let raw = serde_json::to_vec(&true).unwrap();
    assert_no_routing(&raw);
}

#[test]
fn extracts_fields_from_complete_request() {
    let raw = bytes_of(
        r#"{
            "jsonrpc": "2.0",
            "id": "req-123",
            "method": "thread/start",
            "params": { "prompt": "Hello" },
            "sessionId": "thread:abc-456"
        }"#,
    );
    let routing = extract_routing_fields(&raw);

    assert_eq!(routing.id, Some(RequestId::String("req-123".to_string())));
    assert_eq!(routing.session_id, Some("thread:abc-456".to_string()));
    assert_eq!(routing.method, Some("thread/start".to_string()));
    assert!(!routing.is_response);
    assert!(!routing.is_error);
}

#[test]
fn extracts_fields_from_success_response() {
    let raw = bytes_of(
        r#"{
            "jsonrpc": "2.0",
            "id": 42,
            "result": { "status": "ok" },
            "sessionId": "conn:12345"
        }"#,
    );
    let routing = extract_routing_fields(&raw);

    assert_eq!(routing.id, Some(RequestId::Integer(42)));
    assert_eq!(routing.session_id, Some("conn:12345".to_string()));
    assert_eq!(routing.method, None);
    assert!(routing.is_response);
    assert!(!routing.is_error);
}

#[test]
fn extracts_fields_from_error_response() {
    let raw = bytes_of(
        r#"{
            "jsonrpc": "2.0",
            "id": "err-1",
            "error": { "code": -32600, "message": "Invalid Request" },
            "sessionId": "mcp:server-1"
        }"#,
    );
    let routing = extract_routing_fields(&raw);

    assert_eq!(routing.id, Some(RequestId::String("err-1".to_string())));
    assert_eq!(routing.session_id, Some("mcp:server-1".to_string()));
    assert_eq!(routing.method, None);
    assert!(routing.is_response);
    assert!(routing.is_error);
}

#[test]
fn handles_notification_without_id() {
    let raw = bytes_of(
        r#"{
            "jsonrpc": "2.0",
            "method": "$/progress",
            "params": { "token": "abc" },
            "sessionId": "thread:xyz"
        }"#,
    );
    let routing = extract_routing_fields(&raw);

    assert_eq!(routing.id, None);
    assert_eq!(routing.session_id, Some("thread:xyz".to_string()));
    assert_eq!(routing.method, Some("$/progress".to_string()));
    assert!(!routing.is_response);
    assert!(!routing.is_error);
}

#[test]
fn handles_missing_optional_fields() {
    let raw = bytes_of(r#"{ "jsonrpc": "2.0", "id": 1 }"#);
    let routing = extract_routing_fields(&raw);

    assert_eq!(routing.id, Some(RequestId::Integer(1)));
    assert_eq!(routing.session_id, None);
    assert_eq!(routing.method, None);
    assert!(!routing.is_response);
    assert!(!routing.is_error);
}

#[test]
fn ignores_non_string_session_id() {
    let raw = bytes_of(r#"{ "id": "test-1", "sessionId": 12345, "method": "test/method" }"#);
    let routing = extract_routing_fields(&raw);

    assert_eq!(routing.id, Some(RequestId::String("test-1".to_string())));
    assert_eq!(routing.session_id, None);
    assert_eq!(routing.method, Some("test/method".to_string()));
}

#[test]
fn ignores_non_string_method() {
    let raw = bytes_of(r#"{ "id": "test-1", "method": 123 }"#);
    let routing = extract_routing_fields(&raw);

    assert_eq!(routing.id, Some(RequestId::String("test-1".to_string())));
    assert_eq!(routing.method, None);
}

#[test]
fn ignores_invalid_id_types() {
    // Test with boolean ID
    let raw = bytes_of(r#"{ "id": true, "method": "test/method" }"#);
    let routing = extract_routing_fields(&raw);

    assert_eq!(routing.id, None);
    assert_eq!(routing.method, Some("test/method".to_string()));

    // Test with array ID
    let raw = bytes_of(r#"{ "id": [1, 2, 3], "method": "test/method" }"#);
    let routing = extract_routing_fields(&raw);

    assert_eq!(routing.id, None);
    assert_eq!(routing.method, Some("test/method".to_string()));

    // Test with object ID
    let raw = bytes_of(r#"{ "id": {"nested": "object"}, "method": "test/method" }"#);
    let routing = extract_routing_fields(&raw);

    assert_eq!(routing.id, None);
    assert_eq!(routing.method, Some("test/method".to_string()));
}

#[test]
fn parse_message_creates_message_with_routing() {
    let raw = bytes_of(r#"{ "id": "msg-1", "method": "test/echo", "sessionId": "thread:test" }"#);
    let message = parse_message(raw.clone());

    assert_eq!(message.raw, raw);
    assert_eq!(
        message.routing.id,
        Some(RequestId::String("msg-1".to_string()))
    );
    assert_eq!(message.routing.session_id, Some("thread:test".to_string()));
    assert_eq!(message.routing.method, Some("test/echo".to_string()));
}

#[test]
fn limits_are_as_documented() {
    assert_eq!(MAX_SESSION_ID_LEN, 256);
    assert_eq!(MAX_REQUEST_ID_LEN, 128);
}

#[test]
fn integer_ids_must_fit() {
    let largest = extract_routing_fields(b"{\"id\":9223372036854775807}");
    assert_eq!(largest.id, Some(RequestId::Integer(i64::MAX)));
    let smallest = extract_routing_fields(b"{\"id\":-9223372036854775808}");
    assert_eq!(smallest.id, Some(RequestId::Integer(i64::MIN)));
    let too_large = extract_routing_fields(b"{\"id\":9223372036854775808}");
    assert_eq!(too_large.id, None);
    let fraction = extract_routing_fields(b"{\"id\":1.5}");
    assert_eq!(fraction.id, None);
    let whole_fraction = extract_routing_fields(b"{\"id\":1.0}");
    assert_eq!(whole_fraction.id, None);
}

#[test]
fn session_id_limit_counts_bytes() {
    let at_limit = "x".repeat(256);
    let raw = format!("{{\"sessionId\":\"{at_limit}\"}}");
    assert_eq!(
        extract_routing_fields(raw.as_bytes()).session_id,
        Some(at_limit)
    );

    let over_limit = "x".repeat(257);
    let raw = format!("{{\"sessionId\":\"{over_limit}\"}}");
    assert_eq!(extract_routing_fields(raw.as_bytes()).session_id, None);

    // 128 characters of two bytes each are at the limit, one more is over it.
    let wide = "é".repeat(128);
    let raw = format!("{{\"sessionId\":\"{wide}\"}}");
    assert_eq!(extract_routing_fields(raw.as_bytes()).session_id, Some(wide));
    let wider = "é".repeat(129);
    let raw = format!("{{\"sessionId\":\"{wider}\"}}");
    assert_eq!(extract_routing_fields(raw.as_bytes()).session_id, None);
}

#[test]
fn result_of_null_is_a_response() {
    let routing = extract_routing_fields(b"{\"id\":1,\"result\":null}");
    assert!(routing.is_response);
    assert!(!routing.is_error);
    let routing = extract_routing_fields(b"{\"id\":1,\"error\":null}");
    assert!(routing.is_response);
    assert!(routing.is_error);
}

#[test]
fn last_of_repeated_fields_counts() {
    let routing = extract_routing_fields(b"{\"id\":1,\"id\":\"two\"}");
    assert_eq!(routing.id, Some(RequestId::String("two".to_string())));
}

#[test]
fn request_ids_are_read_back() {
    for id in [
        RequestId::Integer(-7),
        RequestId::Integer(0),
        RequestId::String("a \"quoted\" id".to_string()),
    ] {
        let value = id.to_value();
        assert_eq!(RequestId::from_value(&value), Some(id));
    }
    assert_eq!(RequestId::from_value(&Value::Bool(true)), None);
    assert_eq!(RequestId::from_value(&Value::Null), None);
}

#[test]
fn deep_nesting_is_refused() {
    let fits = format!("{{\"id\":1,\"deep\":{}{}}}", "[".repeat(126), "]".repeat(126));
    assert_eq!(
        extract_routing_fields(fits.as_bytes()).id,
        Some(RequestId::Integer(1))
    );
    let too_deep = format!("{{\"id\":1,\"deep\":{}{}}}", "[".repeat(127), "]".repeat(127));
    assert_eq!(extract_routing_fields(too_deep.as_bytes()).id, None);
}

#[test]
fn long_request_ids_are_left_out() {
    for (id, kept) in [
        ("x".repeat(128), true),
        ("x".repeat(129), false),
        // The limit is on bytes: each of these takes two.
        ("é".repeat(64), true),
        ("é".repeat(65), false),
    ] {
        let raw = format!(r#"{{"id":"{id}","method":"m","sessionId":"s"}}"#);
        let fields = extract_routing_fields(raw.as_bytes());
        assert_eq!(fields.id, kept.then_some(RequestId::String(id)));
        assert_eq!(fields.method, Some("m".to_string()));
        assert_eq!(fields.session_id, Some("s".to_string()));
    }
}

#[test]
fn routing_fields_are_read_from_values() {
    let value: Value =
        serde_json::from_str(r#"{"id":5,"sessionId":"s","error":{"code":1}}"#).unwrap();
    let fields = routing_of_value(&value);
    assert_eq!(fields.id, Some(RequestId::Integer(5)));
    assert_eq!(fields.session_id, Some("s".to_string()));
    assert_eq!(fields.method, None);
    assert!(fields.is_response);
    assert!(fields.is_error);
    let fields = routing_of_value(&Value::from("text"));
    assert_eq!(fields.id, None);
    assert!(!fields.is_response);
}
