use serde_json::Value;
use stdio_bus::mcp_server::{
    DrainAction, DrainEvent, McpServerWorkerHandler, DEFAULT_DRAIN_TIMEOUT_SEC,
};
use stdio_bus::message::{Message, RequestId, RoutingFields};
use stdio_bus::routing::{extract_routing_fields, parse_message};
use stdio_bus::worker::{
    Handled, ReadEvent, StdioBusWorker, WorkerAction, WorkerError, WorkerEvent,
};

fn json(text: &str) -> Value {
    serde_json::from_str(text).unwrap()
}

fn tools() -> Value {
    json(r#"[{"name": "codex", "inputSchema": {}}, {"name": "codex-reply", "inputSchema": {}}]"#)
}

fn create_test_handler() -> McpServerWorkerHandler<()> {
    McpServerWorkerHandler::new((), "0.1.0", tools())
}

fn message(text: &str, id: Option<i64>, session_id: &str, method: Option<&str>) -> Message {
    Message {
        raw: serde_json::to_vec(&json(text)).unwrap(),
        routing: RoutingFields {
            id: id.map(RequestId::Integer),
            session_id: Some(session_id.to_string()),
            method: method.map(|method| method.to_string()),
            is_response: false,
            is_error: false,
        },
    }
}

fn init_message(id: i64, session_id: &str, name: &str, version: &str) -> Message {
    message(
        &format!(
            r#"{{
                "jsonrpc": "2.0",
                "id": {id},
                "method": "initialize",
                "params": {{
                    "protocolVersion": "2024-11-05",
                    "capabilities": {{}},
                    "clientInfo": {{ "name": "{name}", "version": "{version}" }}
                }}
            }}"#
        ),
        Some(id),
        session_id,
        Some("initialize"),
    )
}

fn response_of(handled: Handled) -> Value {
    serde_json::from_slice(&handled.unwrap().expect("Should have response")).unwrap()
}

#[test]
fn worker_mode_test_get_or_create_session_creates_new_session() {
    let mut handler = create_test_handler();

    let session = handler.get_or_create_session("thread:test-123");

    assert_eq!(session.session_id, "thread:test-123");
    assert_eq!(session.thread_id, Some("test-123".to_string()));
    assert!(!session.initialized);
}

#[test]
fn worker_mode_test_get_or_create_session_returns_existing_session() {
    let mut handler = create_test_handler();

    // Create initial session
    let session1 = handler.get_or_create_session("thread:test-456");
    assert_eq!(session1.session_id, "thread:test-456");

    // Mark session as initialized
    handler.mark_session_initialized("thread:test-456", None);

    // Get session again - should return the same session with updated state
    let session2 = handler.get_or_create_session("thread:test-456");
    assert_eq!(session2.session_id, "thread:test-456");
    assert!(session2.initialized);
}

#[test]
fn worker_mode_test_session_without_thread_prefix() {
    let mut handler = create_test_handler();

    let session = handler.get_or_create_session("custom-session-id");

    assert_eq!(session.session_id, "custom-session-id");
    assert_eq!(session.thread_id, None);
}

#[test]
fn worker_mode_test_handle_initialize_request() {
    let mut handler = create_test_handler();

    let result = handler.handle(init_message(1, "thread:test-init", "test-client", "1.0.0"));
    assert!(result.is_ok());
    let response = response_of(result);

    assert_eq!(response["jsonrpc"], "2.0");
    assert_eq!(response["id"], 1);
    assert!(response["result"].is_object());
    assert!(response["result"]["serverInfo"].is_object());
    assert_eq!(response["result"]["serverInfo"]["name"], "codex-mcp-server");
    assert!(response["result"]["capabilities"].is_object());
    assert_eq!(
        response,
        json(
            r#"{"jsonrpc": "2.0", "id": 1, "result": {
                "protocolVersion": "2024-11-05",
                "capabilities": {"tools": {"listChanged": true}},
                "serverInfo": {"name": "codex-mcp-server", "title": "Codex", "version": "0.1.0"}
            }}"#
        )
    );
}

#[test]
fn test_handle_ping_request() {
    let mut handler = create_test_handler();

    // First initialize the session
    handler
        .handle(init_message(1, "thread:test-ping", "test-client", "1.0.0"))
        .unwrap();

    // Now send ping
    let ping_msg = message(
        r#"{"jsonrpc": "2.0", "id": 2, "method": "ping"}"#,
        Some(2),
        "thread:test-ping",
        Some("ping"),
    );
    let result = handler.handle(ping_msg);
    assert!(result.is_ok());
    let response = response_of(result);

    assert_eq!(response["jsonrpc"], "2.0");
    assert_eq!(response["id"], 2);
    assert_eq!(response["result"], json("{}"));
}

#[test]
fn test_handle_list_tools_request() {
    let mut handler = create_test_handler();

    // First initialize the session
    handler
        .handle(init_message(1, "thread:test-tools", "test-client", "1.0.0"))
        .unwrap();

    // Now send tools/list
    let list_tools_msg = message(
        r#"{"jsonrpc": "2.0", "id": 2, "method": "tools/list"}"#,
        Some(2),
        "thread:test-tools",
        Some("tools/list"),
    );
    let result = handler.handle(list_tools_msg);
    assert!(result.is_ok());
    let response = response_of(result);

    assert_eq!(response["jsonrpc"], "2.0");
    assert_eq!(response["id"], 2);
    assert!(response["result"]["tools"].is_array());
    // Should have at least the codex and codex-reply tools
    let listed = response["result"]["tools"].as_array().unwrap();
    assert!(listed.len() >= 2);
    assert_eq!(response["result"]["tools"], tools());
}

#[test]
fn worker_mode_test_handle_request_before_initialize() {
    let mut handler = create_test_handler();

    // Send a request without initializing first
    let msg = message(
        r#"{
            "jsonrpc": "2.0",
            "id": 1,
            "method": "tools/call",
            "params": { "name": "codex", "arguments": {} }
        }"#,
        Some(1),
        "thread:test-uninit",
        Some("tools/call"),
    );
    let result = handler.handle(msg);
    assert!(result.is_ok());
    let response = response_of(result);

    assert_eq!(response["jsonrpc"], "2.0");
    assert_eq!(response["id"], 1);
    assert!(response["error"].is_object());
    assert_eq!(response["error"]["message"], "Session not initialized");
    assert_eq!(response["error"]["code"], -32600);
    assert_eq!(response["error"].get("data"), Some(&Value::Null));
}

#[test]
fn worker_mode_test_handle_double_initialize() {
    let mut handler = create_test_handler();

    // First initialize should succeed
    let result1 = handler.handle(init_message(1, "thread:test-double-init", "test-client", "1.0.0"));
    assert!(result1.is_ok());
    assert!(response_of(result1)["result"].is_object());

    // Second initialize should fail
    let result2 = handler.handle(init_message(2, "thread:test-double-init", "test-client", "1.0.0"));
    assert!(result2.is_ok());
    let response2 = response_of(result2);
    assert!(response2["error"].is_object());
    assert_eq!(response2["error"]["message"], "Session already initialized");
}

#[test]
fn worker_mode_test_handle_notification_no_response() {
    let mut handler = create_test_handler();

    // Notification has no id
    let msg = message(
        r#"{"jsonrpc": "2.0", "method": "notifications/initialized"}"#,
        None,
        "thread:test-notif",
        Some("notifications/initialized"),
    );
    let result = handler.handle(msg);
    assert!(result.is_ok());
    assert!(
        result.unwrap().is_none(),
        "Notifications should not have a response"
    );
}

#[test]
fn worker_mode_test_handle_response_message_ignored() {
    let mut handler = create_test_handler();
    let mut msg = message(
        r#"{"jsonrpc": "2.0", "id": 1, "result": {}}"#,
        Some(1),
        "thread:test-resp",
        None,
    );
    msg.routing.is_response = true;

    let result = handler.handle(msg);
    assert!(result.is_ok());
    assert!(
        result.unwrap().is_none(),
        "Response messages should be ignored"
    );
}

#[test]
fn worker_mode_test_session_affinity_across_requests() {
    let mut handler = create_test_handler();
    let session_id = "thread:affinity-test";

    // Initialize the session
    handler
        .handle(init_message(1, session_id, "affinity-test-client", "2.0.0"))
        .unwrap();

    // Verify session state was preserved
    let session = handler.get_or_create_session(session_id);
    assert!(session.initialized);
    assert_eq!(
        session.client_info.as_ref().map(|c| c.name.as_str()),
        Some("affinity-test-client")
    );

    // Another session was not started.
    assert!(!handler.get_or_create_session("thread:other").initialized);
}

#[test]
fn test_pending_request_tracking() {
    let mut handler = create_test_handler();

    // Initially no pending requests
    assert_eq!(handler.pending_count(), 0);

    // Increment pending
    handler.increment_pending();
    assert_eq!(handler.pending_count(), 1);

    handler.increment_pending();
    assert_eq!(handler.pending_count(), 2);

    // Decrement pending
    assert!(!handler.decrement_pending());
    assert_eq!(handler.pending_count(), 1);

    assert!(handler.decrement_pending());
    assert_eq!(handler.pending_count(), 0);
}

#[test]
fn test_on_shutdown_with_no_pending_requests() {
    let mut handler = create_test_handler();

    // Create a session
    handler.get_or_create_session("thread:test-shutdown");

    // Shutdown should complete immediately with no pending requests
    assert_eq!(
        handler.on_shutdown(DrainEvent::Begin),
        DrainAction::CleanUp { sessions: 1 }
    );
}

#[test]
fn test_on_shutdown_drains_pending_requests() {
    // Use a short drain timeout for testing
    let mut handler = McpServerWorkerHandler::with_drain_timeout((), "0.1.0", tools(), 2);

    // Simulate a pending request
    handler.increment_pending();
    assert_eq!(handler.pending_count(), 1);

    // Shutdown waits
    assert_eq!(
        handler.on_shutdown(DrainEvent::Begin),
        DrainAction::Wait { timeout_sec: 2 }
    );

    // Complete the pending request
    handler.decrement_pending();

    // Shutdown should complete after request drains
    assert_eq!(
        handler.on_shutdown(DrainEvent::RequestEnded),
        DrainAction::CleanUp { sessions: 0 }
    );
}

#[test]
fn test_on_shutdown_timeout_exceeded() {
    // Use a very short drain timeout for testing
    let mut handler = McpServerWorkerHandler::with_drain_timeout((), "0.1.0", tools(), 1);

    // Simulate a pending request that won't complete
    handler.increment_pending();
    assert_eq!(handler.pending_count(), 1);

    // Shutdown should timeout and proceed
    assert_eq!(
        handler.on_shutdown(DrainEvent::Begin),
        DrainAction::Wait { timeout_sec: 1 }
    );
    assert_eq!(
        handler.on_shutdown(DrainEvent::TimedOut),
        DrainAction::GiveUp {
            sessions: 0,
            remaining: 1
        }
    );

    // Pending request still exists (wasn't completed)
    assert_eq!(handler.pending_count(), 1);
}

#[test]
fn test_handle_increments_and_decrements_pending() {
    let mut handler = create_test_handler();

    // Initially no pending requests
    assert_eq!(handler.pending_count(), 0);

    // Handle the request
    let result = handler.handle(init_message(1, "thread:test-pending", "test-client", "1.0.0"));
    assert!(result.is_ok());

    // After handling, pending count should be back to 0
    assert_eq!(handler.pending_count(), 0);
}

#[test]
fn pending_count_wraps_and_comes_back() {
    let mut handler = create_test_handler();
    assert!(!handler.decrement_pending());
    assert_eq!(handler.pending_count(), usize::MAX);
    handler.increment_pending();
    assert_eq!(handler.pending_count(), 0);
}

#[test]
fn what_is_no_mcp_message_is_an_error() {
    let mut handler = create_test_handler();
    for text in ["not json", "{\"id\":1,\"method\":\"ping\"}", "[]"] {
        match handler.handle(parse_message(text.as_bytes().to_vec())) {
            Err(WorkerError::Handler(message)) => {
                assert!(message.starts_with("Failed to parse MCP message: "), "{message}");
                assert!(message.len() > "Failed to parse MCP message: ".len());
            }
            other => panic!("unexpected {other:?}"),
        }
    }
    assert_eq!(handler.pending_count(), 0);
}

#[test]
fn unserved_methods_are_refused_in_a_started_session() {
    let mut handler = create_test_handler();
    handler
        .handle(init_message(1, "s", "c", "1"))
        .unwrap();
    let msg = message(
        r#"{"jsonrpc": "2.0", "id": "q", "method": "odd/\"method\""}"#,
        None,
        "s",
        Some("odd/\"method\""),
    );
    let response = response_of(handler.handle(msg));
    assert_eq!(response["id"], "q");
    assert_eq!(response["error"]["code"], -32601);
    assert_eq!(
        response["error"]["message"],
        format!(
            "Method not yet implemented in worker mode: {:?}",
            Some("odd/\"method\"")
        )
    );

    let mut msg = message(
        r#"{"jsonrpc": "2.0", "id": "q", "method": "resources/list"}"#,
        None,
        "s",
        None,
    );
    msg.routing.method = None;
    let response = response_of(handler.handle(msg));
    assert_eq!(
        response["error"]["message"],
        "Method not yet implemented in worker mode: None"
    );
}

#[test]
fn responses_have_the_id_of_their_request() {
    let mut handler = create_test_handler();
    for text in [
        r#"{"jsonrpc":"2.0","id":-3,"method":"ping","sessionId":"thread:a"}"#,
        r#"{"jsonrpc":"2.0","id":"text","method":"tools/list"}"#,
        r#"{"method":"tools/call","params":{"name":"x"},"id":9223372036854775807,"jsonrpc":"2.0"}"#,
    ] {
        let message = parse_message(text.as_bytes().to_vec());
        let expected = message.routing.id.clone();
        let bytes = handler.handle(message).unwrap().unwrap();
        let routing = extract_routing_fields(&bytes);
        assert!(expected.is_some());
        assert_eq!(routing.id, expected);
        assert!(routing.is_response);
        assert!(!bytes.contains(&b'\n'));
    }
}

#[test]
fn responses_and_errors_of_clients_get_no_answer() {
    let mut handler = create_test_handler();
    for text in [
        r#"{"jsonrpc":"2.0","id":1,"result":{"a":1}}"#,
        r#"{"jsonrpc":"2.0","id":1,"error":{"code":1,"message":"m"}}"#,
    ] {
        let mut msg = parse_message(text.as_bytes().to_vec());
        msg.routing.is_response = false;
        assert!(handler.handle(msg).unwrap().is_none());
    }
}

#[test]
fn initialize_echoes_any_protocol_version() {
    let mut handler = create_test_handler();
    let text = r#"{"jsonrpc":"2.0","id":1,"method":"initialize","params":{
        "protocolVersion":"1999-odd","capabilities":{},
        "clientInfo":{"name":"n","version":"v"}}}"#;
    let response = response_of(handler.handle(parse_message(text.as_bytes().to_vec())));
    assert_eq!(response["result"]["protocolVersion"], "1999-odd");
    // A message without a session belongs to the default one.
    assert!(handler.get_or_create_session("default").initialized);
}

#[test]
fn configuration_and_limits_are_kept() {
    let mut handler = McpServerWorkerHandler::new(7_u8, "v", tools());
    assert_eq!(*handler.config(), 7);
    handler.increment_pending();
    assert_eq!(
        handler.on_shutdown(DrainEvent::Begin),
        DrainAction::Wait {
            timeout_sec: DEFAULT_DRAIN_TIMEOUT_SEC
        }
    );
    assert_eq!(DEFAULT_DRAIN_TIMEOUT_SEC, 30);
    // Marking a session that is not there does nothing.
    handler.mark_session_initialized("absent", None);
    assert!(!handler.get_or_create_session("absent").initialized);
}

#[test]
fn mcp_answer_reaches_its_session() {
    let mut worker = StdioBusWorker::new();
    let mut handler = create_test_handler();
    let lines = [
        r#"{"jsonrpc":"2.0","id":"a","method":"ping","sessionId":"thread:1"}"#,
        r#"{"jsonrpc":"2.0","id":-4,"method":"tools/list","sessionId":"conn:2"}"#,
    ];
    for (line, id, session_id) in [
        (lines[0], RequestId::String("a".to_string()), "thread:1"),
        (lines[1], RequestId::Integer(-4), "conn:2"),
    ] {
        let event = WorkerEvent::Read(ReadEvent::Line(format!("{line}\n")));
        let handled = match worker.run(event) {
            WorkerAction::Handle(message) => handler.handle(message),
            other => panic!("unexpected {other:?}"),
        };
        match worker.run(WorkerEvent::Handled(handled)) {
            WorkerAction::Send(bytes) => {
                let routing = extract_routing_fields(&bytes);
                assert_eq!(routing.id, Some(id));
                assert_eq!(routing.session_id, Some(session_id.to_string()));
                assert!(routing.is_response);
                assert!(!routing.is_error);
            }
            other => panic!("unexpected {other:?}"),
        }
        worker.run(WorkerEvent::Sent(Ok(())));
    }
}

#[test]
fn sessions_are_cleaned_up_on_shutdown() {
    let mut handler = create_test_handler();
    handler
        .handle(init_message(1, "thread:a", "client", "1.0"))
        .unwrap();
    handler.get_or_create_session("thread:b");
    handler.increment_pending();
    // While a request is in progress the sessions stay.
    assert!(matches!(
        handler.on_shutdown(DrainEvent::Begin),
        DrainAction::Wait { .. }
    ));
    assert!(handler.get_or_create_session("thread:a").initialized);
    handler.decrement_pending();
    assert_eq!(
        handler.on_shutdown(DrainEvent::RequestEnded),
        DrainAction::CleanUp { sessions: 2 }
    );
    assert_eq!(
        handler.on_shutdown(DrainEvent::Begin),
        DrainAction::CleanUp { sessions: 0 }
    );
    assert!(!handler.get_or_create_session("thread:a").initialized);
    handler.increment_pending();
    assert_eq!(
        handler.on_shutdown(DrainEvent::TimedOut),
        DrainAction::GiveUp {
            sessions: 1,
            remaining: 1
        }
    );
    assert_eq!(handler.pending_count(), 1);
    assert_eq!(
        handler.on_shutdown(DrainEvent::TimedOut),
        DrainAction::GiveUp {
            sessions: 0,
            remaining: 1
        }
    );
}

#[test]
fn long_request_ids_are_answered_in_full() {
    let mut handler = create_test_handler();
    let id = "x".repeat(129);
    let raw = format!(r#"{{"jsonrpc":"2.0","id":"{id}","method":"ping"}}"#);
    let message = parse_message(raw.into_bytes());
    assert_eq!(message.routing.id, None);
    assert_eq!(response_of(handler.handle(message))["id"], id.as_str());
}
