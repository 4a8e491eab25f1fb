use serde_json::Value;
use stdio_bus::app_server::{
    AppServerWorkerHandler, ClientRequest, ConnectionSessionState, InitializeCapabilities,
    InitializeParams, InitializeResponse, WorkerSession,
};
use stdio_bus::message::{Message, RequestId, RoutingFields};
use stdio_bus::routing::extract_routing_fields;
use stdio_bus::rpc::RpcError;
use stdio_bus::worker::{
    Handled, ReadEvent, StdioBusWorker, WorkerAction, WorkerError, WorkerEvent,
};

type Handler = AppServerWorkerHandler<()>;

fn create_test_handler() -> Handler {
    AppServerWorkerHandler::new(())
}

fn platform() -> InitializeResponse {
    InitializeResponse {
        user_agent: "agent/1.0".to_string(),
        platform_family: "unix".to_string(),
        platform_os: "linux".to_string(),
    }
}

fn json(text: &str) -> Value {
    serde_json::from_str(text).unwrap()
}

/// A message with the text and the routing fields of the tests.
fn message(text: &str, id: Option<i64>, session_id: &str, method: Option<&str>) -> Message {
    Message {
        raw: serde_json::to_vec(&json(text)).unwrap(),
        routing: RoutingFields {
            id: id.map(RequestId::Integer),
            session_id: Some(session_id.to_string()),
            method: method.map(|method| method.to_string()),
            is_response: false,
            is_error: false,
        },
    }
}

fn initialize(id: i64, name: &str, version: &str) -> Result<ClientRequest, String> {
    Ok(ClientRequest::Initialize {
        request_id: RequestId::Integer(id),
        params: InitializeParams {
            client_name: name.to_string(),
            client_version: version.to_string(),
            capabilities: None,
        },
    })
}

fn other(id: i64) -> Result<ClientRequest, String> {
    Ok(ClientRequest::Other {
        request_id: RequestId::Integer(id),
    })
}

fn initialize_text(id: i64, name: &str, version: &str) -> String {
    format!(
        r#"{{
            "jsonrpc": "2.0",
            "id": {id},
            "method": "initialize",
            "params": {{ "clientInfo": {{ "name": "{name}", "version": "{version}" }} }}
        }}"#
    )
}

fn response_of(handled: Handled) -> Value {
    serde_json::from_slice(&handled.unwrap().expect("Should have response")).unwrap()
}

#[test]
fn handler_test_get_or_create_session_creates_new_session() {
    let mut handler = create_test_handler();

    let session = handler.get_or_create_session("thread:test-123");

    assert_eq!(session.session_id, "thread:test-123");
    assert_eq!(session.thread_id, Some("test-123".to_string()));
    assert!(!session.connection_state.initialized);
}

#[test]
fn handler_test_get_or_create_session_returns_existing_session() {
    let mut handler = create_test_handler();

    let session1 = handler.get_or_create_session("thread:test-456");
    assert_eq!(session1.session_id, "thread:test-456");

    let mut updated_state = session1.connection_state.clone();
    updated_state.initialized = true;
    handler.update_session_state("thread:test-456", updated_state);

    let session2 = handler.get_or_create_session("thread:test-456");
    assert_eq!(session2.session_id, "thread:test-456");
    assert!(session2.connection_state.initialized);
}

#[test]
fn handler_test_session_without_thread_prefix() {
    let mut handler = create_test_handler();

    let session = handler.get_or_create_session("custom-session-id");

    assert_eq!(session.session_id, "custom-session-id");
    assert_eq!(session.thread_id, None);
}

#[test]
fn handler_test_handle_initialize_request() {
    let mut handler = create_test_handler();
    let msg = message(
        &initialize_text(1, "test-client", "1.0.0"),
        Some(1),
        "thread:test-init",
        Some("initialize"),
    );

    let result = handler.handle(msg, initialize(1, "test-client", "1.0.0"), &platform());
    assert!(result.is_ok());
    let response = response_of(result);

    assert_eq!(response["jsonrpc"], "2.0");
    assert_eq!(response["id"], 1);
    assert!(response["result"].is_object());
    assert!(response["result"]["userAgent"].is_string());
    assert!(response["result"]["platformFamily"].is_string());
    assert!(response["result"]["platformOs"].is_string());
    assert_eq!(
        response,
        json(
            r#"{"jsonrpc": "2.0", "id": 1, "result": {
                "userAgent": "agent/1.0", "platformFamily": "unix", "platformOs": "linux"}}"#
        )
    );
}

#[test]
fn handler_test_handle_request_before_initialize() {
    let mut handler = create_test_handler();
    let msg = message(
        r#"{"jsonrpc": "2.0", "id": 1, "method": "thread/start", "params": {}}"#,
        Some(1),
        "thread:test-uninit",
        Some("thread/start"),
    );

    let result = handler.handle(msg, other(1), &platform());
    assert!(result.is_ok());
    let response = response_of(result);

    assert_eq!(response["jsonrpc"], "2.0");
    assert_eq!(response["id"], 1);
    assert!(response["error"].is_object());
    assert_eq!(response["error"]["message"], "Not initialized");
    assert_eq!(response["error"]["code"], -32600);
    assert_eq!(response["error"].get("data"), Some(&Value::Null));
}

#[test]
fn handler_test_handle_double_initialize() {
    let mut handler = create_test_handler();

    // First initialize should succeed
    let msg = message(
        &initialize_text(1, "test-client", "1.0.0"),
        Some(1),
        "thread:test-double-init",
        Some("initialize"),
    );
    let result1 = handler.handle(msg, initialize(1, "test-client", "1.0.0"), &platform());
    assert!(result1.is_ok());
    let response1 = response_of(result1);
    assert!(response1["result"].is_object());

    // Second initialize should fail
    let msg2 = message(
        &initialize_text(2, "test-client", "1.0.0"),
        Some(2),
        "thread:test-double-init",
        Some("initialize"),
    );
    let result2 = handler.handle(msg2, initialize(2, "test-client", "1.0.0"), &platform());
    assert!(result2.is_ok());
    let response2 = response_of(result2);
    assert!(response2["error"].is_object());
    assert_eq!(response2["error"]["message"], "Already initialized");
    assert_eq!(response2["id"], 2);
}

#[test]
fn handler_test_handle_notification_no_response() {
    let mut handler = create_test_handler();

    // Notification has no id
    let msg = message(
        r#"{"jsonrpc": "2.0", "method": "some/notification", "params": {}}"#,
        None,
        "thread:test-notif",
        Some("some/notification"),
    );

    let result = handler.handle(msg, Err("missing field `id`".to_string()), &platform());
    assert!(result.is_ok());
    assert!(
        result.unwrap().is_none(),
        "Notifications should not have a response"
    );
}

#[test]
fn handler_test_handle_response_message_ignored() {
    let mut handler = create_test_handler();
    let mut msg = message(
        r#"{"jsonrpc": "2.0", "id": 1, "result": {}}"#,
        Some(1),
        "thread:test-resp",
        None,
    );
    msg.routing.is_response = true;

    let result = handler.handle(msg, Err("no request".to_string()), &platform());
    assert!(result.is_ok());
    assert!(
        result.unwrap().is_none(),
        "Response messages should be ignored"
    );
}

#[test]
fn test_handle_invalid_json() {
    let mut handler = create_test_handler();

    let msg = Message {
        raw: b"not valid json".to_vec(),
        routing: RoutingFields {
            id: Some(RequestId::Integer(1)),
            session_id: Some("thread:test-invalid".to_string()),
            method: Some("test/method".to_string()),
            is_response: false,
            is_error: false,
        },
    };

    let expected = serde_json::from_slice::<Value>(b"not valid json").unwrap_err();
    let result = handler.handle(msg, Err("no request".to_string()), &platform());
    assert!(result.is_err());
    match result.unwrap_err() {
        WorkerError::Handler(text) => {
            assert_eq!(text, format!("Failed to parse JSON: {expected}"));
        }
        unexpected => panic!("unexpected {unexpected:?}"),
    }
}

#[test]
fn handler_test_session_affinity_across_requests() {
    let mut handler = create_test_handler();
    let session_id = "thread:affinity-test";

    // Initialize the session
    let msg = message(
        &initialize_text(1, "affinity-test-client", "2.0.0"),
        Some(1),
        session_id,
        Some("initialize"),
    );
    handler
        .handle(msg, initialize(1, "affinity-test-client", "2.0.0"), &platform())
        .unwrap();

    // Verify session state was preserved
    let session = handler.get_or_create_session(session_id);
    assert!(session.connection_state.initialized);
    assert_eq!(
        session.connection_state.app_server_client_name,
        Some("affinity-test-client".to_string())
    );
    assert_eq!(
        session.connection_state.client_version,
        Some("2.0.0".to_string())
    );

    // Another session knows nothing of it.
    let session = handler.get_or_create_session("thread:other");
    assert!(!session.connection_state.initialized);
    assert_eq!(handler.on_shutdown(), 2);
}

#[test]
fn unserved_methods_are_not_found() {
    let mut handler = create_test_handler();
    let text = r#"{"jsonrpc": "2.0", "id": 9, "method": "thread/start"}"#;
    let msg = message(&initialize_text(1, "c", "1"), Some(1), "s", Some("initialize"));
    handler.handle(msg, initialize(1, "c", "1"), &platform()).unwrap();

    let msg = message(text, Some(9), "s", Some("thread/start"));
    let response = response_of(handler.handle(msg, other(9), &platform()));
    assert_eq!(response["error"]["code"], -32601);
    assert_eq!(
        response["error"]["message"],
        "Method not yet implemented in worker mode: request_id=Integer(9)"
    );

    let request = ClientRequest::Other {
        request_id: RequestId::String("a\"b\n".to_string()),
    };
    let msg = message(text, Some(9), "s", Some("thread/start"));
    let response = response_of(handler.handle(msg, Ok(request), &platform()));
    assert_eq!(
        response["error"]["message"],
        format!(
            "Method not yet implemented in worker mode: request_id={:?}",
            RequestId::String("a\"b\n".to_string())
        )
    );
    assert_eq!(response["id"], "a\"b\n");
}

#[test]
fn invalid_requests_are_answered_with_their_json_id() {
    let mut handler = create_test_handler();
    let msg = message(
        r#"{"id": {"odd": [1]}, "method": "nope"}"#,
        None,
        "s",
        Some("nope"),
    );
    let response = response_of(handler.handle(msg, Err("unknown variant".to_string()), &platform()));
    assert_eq!(
        response,
        json(
            r#"{"jsonrpc": "2.0", "id": {"odd": [1]},
                "error": {"code": -32600, "message": "Invalid request: unknown variant"}}"#
        )
    );
    // No session is made for it.
    assert_eq!(handler.on_shutdown(), 0);

    let msg = message(r#"{"id": null, "method": "nope"}"#, None, "s", Some("nope"));
    let handled = handler.handle(msg, Err("unknown variant".to_string()), &platform());
    assert!(handled.unwrap().is_none());
}

#[test]
fn messages_without_session_share_one() {
    let mut handler = create_test_handler();
    let mut msg = message(&initialize_text(1, "c", "1"), Some(1), "", Some("initialize"));
    msg.routing.session_id = None;
    handler.handle(msg, initialize(1, "c", "1"), &platform()).unwrap();
    let session = handler.get_or_create_session("default");
    assert!(session.connection_state.initialized);
    assert_eq!(session.thread_id, None);
}

#[test]
fn capabilities_are_kept() {
    let mut session = WorkerSession::new("thread:x".to_string());
    let request = ClientRequest::Initialize {
        request_id: RequestId::Integer(1),
        params: InitializeParams {
            client_name: "c".to_string(),
            client_version: "1".to_string(),
            capabilities: Some(InitializeCapabilities {
                experimental_api: true,
                opt_out_notification_methods: Some(vec![
                    "a".to_string(),
                    "b".to_string(),
                    "a".to_string(),
                ]),
            }),
        },
    };
    let result = Handler::process_request(&mut session, &request, &platform()).unwrap();
    assert_eq!(result, platform().to_value());
    let state: ConnectionSessionState = session.connection_state;
    assert!(state.experimental_api_enabled);
    assert_eq!(state.opted_out_notification_methods.len(), 2);
    assert!(state.opted_out_notification_methods.contains("a"));
    assert!(state.opted_out_notification_methods.contains("b"));
}

#[test]
fn responses_have_the_parts_of_json_rpc() {
    let id = RequestId::String("x".to_string());
    let response = Handler::build_response(&id, Value::from(5));
    assert_eq!(
        response,
        json(r#"{"jsonrpc": "2.0", "id": "x", "result": 5}"#)
    );
    let error = RpcError {
        code: -1,
        message: "m".to_string(),
        data: Some(Value::from("d")),
    };
    let response = Handler::build_error_response(&id, error);
    assert_eq!(
        response,
        json(r#"{"jsonrpc": "2.0", "id": "x", "error": {"code": -1, "message": "m", "data": "d"}}"#)
    );
}

#[test]
fn configuration_is_carried() {
    let handler = AppServerWorkerHandler::new("settings");
    assert_eq!(*handler.config(), "settings");
}

#[test]
fn app_server_answer_reaches_its_session() {
    let mut worker = StdioBusWorker::new();
    let mut handler = create_test_handler();
    let line = r#"{"id":9,"method":"thread/start","sessionId":"thread:x"}"#;
    let event = WorkerEvent::Read(ReadEvent::Line(line.to_string()));
    let handled = match worker.run(event) {
        WorkerAction::Handle(message) => handler.handle(message, other(9), &platform()),
        other => panic!("unexpected {other:?}"),
    };
    match worker.run(WorkerEvent::Handled(handled)) {
        WorkerAction::Send(bytes) => {
            let routing = extract_routing_fields(&bytes);
            assert_eq!(routing.id, Some(RequestId::Integer(9)));
            assert_eq!(routing.session_id, Some("thread:x".to_string()));
            assert!(routing.is_response);
            assert!(routing.is_error);
        }
        other => panic!("unexpected {other:?}"),
    }
}

#[test]
fn values_are_answered() {
    let mut handler = create_test_handler();
    let session = Some("conn:1".to_string());
    let value = json(r#"{"id":null,"method":"m"}"#);
    let handled = handler.answer_value(&session, &value, other(1), &platform());
    assert!(handled.unwrap().is_none());
    assert_eq!(handler.on_shutdown(), 0);

    let value = json(r#"{"id":[1,{"a":2}],"method":"m"}"#);
    let refused = handler.answer_value(&session, &value, Err("no".to_string()), &platform());
    let response = response_of(refused);
    assert_eq!(response["id"], json(r#"[1,{"a":2}]"#));
    assert_eq!(response["error"]["code"], -32600);
    assert_eq!(response["error"]["message"], "Invalid request: no");
    assert_eq!(handler.on_shutdown(), 0);

    let value = json(r#"{"id":3,"method":"initialize"}"#);
    let handled = handler.answer_value(&session, &value, initialize(3, "c", "1"), &platform());
    let response = response_of(handled);
    assert_eq!(response["id"], 3);
    assert_eq!(response["result"]["userAgent"], "agent/1.0");
    assert!(handler
        .get_or_create_session("conn:1")
        .connection_state
        .initialized);
}
