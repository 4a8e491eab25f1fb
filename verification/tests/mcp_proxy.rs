use serde_json::Value;
use stdio_bus::managed_server::{
    IoAction, IoEvent, ManagedServer, McpProxyError, ServerConfig, SpawnOutcome,
};
use stdio_bus::mcp_proxy::{McpProxyConfig, McpProxyHandler, ProxyStep, ServerChoice};
use stdio_bus::message::RequestId;
use stdio_bus::routing::parse_message;
use stdio_bus::session::mcp_to_session_id;
use stdio_bus::string_map::StringMap;
use stdio_bus::worker::{Handled, WorkerError};

type Proxy = McpProxyHandler<u32>;

fn json(text: &str) -> Value {
    serde_json::from_str(text).unwrap()
}

fn server_config(command: &str) -> ServerConfig {
    ServerConfig {
        command: command.to_string(),
        args: vec![],
        env: StringMap::new(),
        cwd: None,
    }
}

fn started() -> SpawnOutcome {
    SpawnOutcome::Started {
        stdin: true,
        stdout: true,
        stderr: true,
    }
}

fn running_server() -> ManagedServer {
    let mut server = ManagedServer::spawn(&server_config("cmd"), started()).unwrap();
    assert!(matches!(server.io_loop(IoEvent::Round), IoAction::Wait));
    server
}

/// Writes a request to the server, up to the next wait.
fn write(server: &mut ManagedServer, ticket: u64) {
    match server.io_loop(IoEvent::Request(ticket, b"{}".to_vec())) {
        IoAction::Write(given, bytes) => {
            assert_eq!(given, ticket);
            assert_eq!(bytes, b"{}\n");
        }
        other => panic!("unexpected {other:?}"),
    }
    match server.io_loop(IoEvent::Written(Ok(()))) {
        IoAction::Reply(replies) => assert!(replies.is_empty()),
        other => panic!("unexpected {other:?}"),
    }
    assert!(matches!(server.io_loop(IoEvent::Round), IoAction::Wait));
}

fn replies(action: IoAction) -> Vec<(u64, Result<String, String>)> {
    match action {
        IoAction::Reply(replies) | IoAction::Stop(replies) => replies
            .into_iter()
            .map(|(ticket, reply)| {
                (
                    ticket,
                    reply
                        .map(|answer| String::from_utf8(answer).unwrap())
                        .map_err(|error| error.to_string()),
                )
            })
            .collect(),
        other => panic!("unexpected {other:?}"),
    }
}

#[test]
fn test_extract_server_name_valid() {
    let session_id = Some("mcp:my-server".to_string());
    let result = Proxy::extract_server_name(&session_id);
    assert_eq!(result.unwrap(), "my-server");
}

#[test]
fn test_extract_server_name_empty_server() {
    let session_id = Some("mcp:".to_string());
    let result = Proxy::extract_server_name(&session_id);
    assert_eq!(result.unwrap(), "");
}

#[test]
fn test_extract_server_name_missing_session_id() {
    let session_id: Option<String> = None;
    let result = Proxy::extract_server_name(&session_id);
    assert!(result.is_err());
    assert!(result
        .unwrap_err()
        .to_string()
        .contains("Missing sessionId"));
}

#[test]
fn test_extract_server_name_invalid_prefix() {
    let session_id = Some("thread:abc".to_string());
    let result = Proxy::extract_server_name(&session_id);
    assert!(result.is_err());
    let text = result.unwrap_err().to_string();
    assert!(text.contains("Invalid sessionId format"));
    assert_eq!(
        text,
        "Handler error: Invalid sessionId format, expected 'mcp:<server_name>', got 'thread:abc'"
    );
}

#[test]
fn test_extract_server_name_no_prefix() {
    let session_id = Some("just-a-string".to_string());
    let result = Proxy::extract_server_name(&session_id);
    assert!(result.is_err());
}

#[test]
fn test_mcp_proxy_config_default() {
    let config = McpProxyConfig::default();
    assert!(config.servers.is_empty());
    assert_eq!(config.max_restarts, 5);
    assert_eq!(config.restart_backoff_base, 1);
    assert_eq!(config.max_backoff, 60);
}

#[test]
fn test_mcp_proxy_handler_creation() {
    let config = McpProxyConfig::default();
    let handler = Proxy::new(config);
    assert_eq!(handler.server_count(), 0);
}

#[test]
fn test_get_or_spawn_server_unknown_server() {
    let config = McpProxyConfig::default();
    let handler = Proxy::new(config);

    let result = handler.get_or_spawn_server("unknown-server", false);
    assert!(result.is_err());
    assert!(result
        .unwrap_err()
        .to_string()
        .contains("Unknown MCP server"));
}

#[test]
fn test_create_error_response_with_string_id() {
    let id = RequestId::String("test-123".to_string());
    let response = Proxy::create_error_response(Some(&id), -32000, "Test error");

    let parsed: Value = serde_json::from_slice(&response).unwrap();
    assert_eq!(parsed["jsonrpc"], "2.0");
    assert_eq!(parsed["id"], "test-123");
    assert_eq!(parsed["error"]["code"], -32000);
    assert_eq!(parsed["error"]["message"], "Test error");
    assert_eq!(parsed["error"].as_object().unwrap().len(), 2);
}

#[test]
fn test_create_error_response_with_integer_id() {
    let id = RequestId::Integer(42);
    let response = Proxy::create_error_response(Some(&id), -32001, "Another error");

    let parsed: Value = serde_json::from_slice(&response).unwrap();
    assert_eq!(parsed["jsonrpc"], "2.0");
    assert_eq!(parsed["id"], 42);
    assert_eq!(parsed["error"]["code"], -32001);
    assert_eq!(parsed["error"]["message"], "Another error");
}

#[test]
fn test_create_error_response_with_null_id() {
    let response = Proxy::create_error_response(None, -32002, "No ID error");

    let parsed: Value = serde_json::from_slice(&response).unwrap();
    assert_eq!(parsed["jsonrpc"], "2.0");
    assert!(parsed["id"].is_null());
    assert_eq!(parsed["error"]["code"], -32002);
    assert_eq!(parsed["error"]["message"], "No ID error");
}

#[test]
fn test_shutdown_flag_initially_false() {
    let config = McpProxyConfig::default();
    let handler = Proxy::new(config);
    assert!(!handler.is_shutdown_initiated());
}

#[test]
fn test_on_shutdown_sets_shutdown_flag() {
    let config = McpProxyConfig::default();
    let mut handler = Proxy::new(config);

    assert!(!handler.is_shutdown_initiated());
    assert!(handler.on_shutdown().is_empty());
    assert!(handler.is_shutdown_initiated());
}

#[test]
fn test_handle_returns_error_after_shutdown() {
    let config = McpProxyConfig::default();
    let mut handler = Proxy::new(config);

    // Initiate shutdown
    handler.on_shutdown();

    // Create a test request
    let mut request = json(r#"{"jsonrpc": "2.0", "id": "req-1", "method": "test/method", "params": {}}"#);
    request["sessionId"] = Value::from(mcp_to_session_id("test-server"));
    let message = parse_message(serde_json::to_vec(&request).unwrap());

    // Handle should return an error response
    let response_bytes = match handler.handle(message) {
        Ok(ProxyStep::Answer(bytes)) => bytes,
        other => panic!("Should have response, not {other:?}"),
    };
    let response: Value = serde_json::from_slice(&response_bytes).unwrap();

    assert_eq!(response["jsonrpc"], "2.0");
    assert_eq!(response["id"], "req-1");
    assert!(response["error"].is_object());
    assert_eq!(response["error"]["code"], -32000);
    assert!(response["error"]["message"]
        .as_str()
        .unwrap()
        .contains("shutting down"));
}

#[test]
fn test_managed_server_shutdown_flag() {
    let config = McpProxyConfig::default();
    let mut handler = Proxy::new(config);

    // Before shutdown
    assert!(!handler.is_shutdown_initiated());

    // After shutdown
    handler.on_shutdown();
    assert!(handler.is_shutdown_initiated());

    let mut server = running_server();
    assert!(!server.is_shutdown_requested());
    assert!(server.is_healthy());
    server.terminate();
    assert!(server.is_shutdown_requested());
    assert!(!server.is_healthy());
}

#[test]
fn requests_are_forwarded_as_they_are() {
    let handler = Proxy::new(McpProxyConfig::default());
    let raw = b"{ \"id\": 1, \"sessionId\": \"mcp:files\", \"method\": \"m\" }".to_vec();
    match handler.handle(parse_message(raw.clone())) {
        Ok(ProxyStep::Forward {
            server_name,
            request,
        }) => {
            assert_eq!(server_name, "files");
            assert_eq!(request, raw);
        }
        other => panic!("unexpected {other:?}"),
    }
    match handler.handle(parse_message(b"{\"id\":1}".to_vec())) {
        Err(WorkerError::Handler(text)) => assert_eq!(text, "Missing sessionId"),
        other => panic!("unexpected {other:?}"),
    }
}

#[test]
fn servers_are_started_on_demand_and_replaced_when_unhealthy() {
    let mut config = McpProxyConfig::default();
    config.servers.insert("files", server_config("run-files"));
    let mut handler = Proxy::new(config);

    match handler.get_or_spawn_server("files", false) {
        Ok(ServerChoice::Start(config)) => assert_eq!(config.command, "run-files"),
        other => panic!("unexpected {other:?}"),
    }
    handler.add_server("files", Ok(1)).unwrap();
    assert_eq!(handler.server("files"), Some(&1));
    assert!(matches!(
        handler.get_or_spawn_server("files", true),
        Ok(ServerChoice::Running(&1))
    ));
    assert!(matches!(
        handler.get_or_spawn_server("files", false),
        Ok(ServerChoice::Start(_))
    ));
    handler.add_server("files", Ok(2)).unwrap();
    assert_eq!(handler.server_count(), 1);

    // A server that could not be started changes nothing.
    let failure = McpProxyError::SpawnFailed("run-files".to_string(), "denied".to_string());
    match handler.add_server("files", Err(failure)) {
        Err(WorkerError::Handler(text)) => {
            assert_eq!(text, "Failed to spawn server 'run-files': denied");
        }
        other => panic!("unexpected {other:?}"),
    }
    assert_eq!(handler.server("files"), Some(&2));

    handler.add_server("other", Ok(3)).unwrap();
    assert_eq!(handler.on_shutdown(), vec!["files", "other"]);
    assert_eq!(handler.server_count(), 2);
    assert_eq!(handler.remove_server("files"), Some(2));
    assert_eq!(handler.remove_server("files"), None);
    assert_eq!(handler.server("other"), Some(&3));
    assert!(handler.is_shutdown_initiated());
}

#[test]
fn restarts_are_limited() {
    let handler = Proxy::new(McpProxyConfig::default());
    assert_eq!(handler.restart_server_with_backoff("s", 4).unwrap(), 16);
    match handler.restart_server_with_backoff("s", 5) {
        Err(WorkerError::Handler(text)) => {
            assert_eq!(text, "Max restarts exceeded for server: s");
        }
        other => panic!("unexpected {other:?}"),
    }

    let handler = Proxy::new(McpProxyConfig {
        max_restarts: 64,
        restart_backoff_base: 1,
        max_backoff: u64::MAX,
        ..McpProxyConfig::default()
    });
    assert_eq!(
        handler.restart_server_with_backoff("s", 63).unwrap(),
        1 << 63
    );
}

#[test]
fn replies_are_passed_on() {
    let handled: Handled = Proxy::finish(Ok(b"{}".to_vec()));
    assert_eq!(handled.unwrap(), Some(b"{}".to_vec()));
    for (error, text) in [
        (McpProxyError::Io("x".to_string()), "I/O error: x"),
        (McpProxyError::Json("x".to_string()), "JSON error: x"),
        (
            McpProxyError::InvalidSessionId("x".to_string()),
            "Invalid session ID format: x",
        ),
        (
            McpProxyError::ServerNotFound("x".to_string()),
            "Server not found: x",
        ),
        (
            McpProxyError::SpawnFailed("c".to_string(), "x".to_string()),
            "Failed to spawn server 'c': x",
        ),
        (
            McpProxyError::ServerCommunication("x".to_string()),
            "Server communication error: x",
        ),
        (McpProxyError::ProcessExited, "Server process exited"),
        (McpProxyError::Timeout, "Request timeout"),
        (McpProxyError::Shutdown, "Shutdown requested"),
    ] {
        match Proxy::finish(Err(error)) {
            Err(WorkerError::Handler(given)) => assert_eq!(given, text),
            other => panic!("unexpected {other:?}"),
        }
    }
}

#[test]
fn spawn_failures_are_told_in_order() {
    let config = server_config("cmd");
    for (outcome, text) in [
        (SpawnOutcome::Failed("not found".to_string()), "not found"),
        (
            SpawnOutcome::Started {
                stdin: false,
                stdout: false,
                stderr: false,
            },
            "stdin not available",
        ),
        (
            SpawnOutcome::Started {
                stdin: true,
                stdout: false,
                stderr: false,
            },
            "stdout not available",
        ),
        (
            SpawnOutcome::Started {
                stdin: true,
                stdout: true,
                stderr: false,
            },
            "stderr not available",
        ),
    ] {
        let error = ManagedServer::spawn(&config, outcome).unwrap_err();
        assert_eq!(
            error.to_string(),
            format!("Failed to spawn server 'cmd': {text}")
        );
    }
    let server = ManagedServer::spawn(&config, started()).unwrap();
    assert!(server.is_healthy());
    assert!(!server.is_shutdown_requested());
}

#[test]
fn answers_come_in_the_order_of_the_requests() {
    let mut server = running_server();
    write(&mut server, 10);
    write(&mut server, 11);
    assert_eq!(
        replies(server.io_loop(IoEvent::Line(" {\"id\":1} \r\n".to_string()))),
        vec![(10, Ok("{\"id\":1}".to_string()))]
    );
    server.io_loop(IoEvent::Round);
    assert_eq!(
        replies(server.io_loop(IoEvent::Line("second\n".to_string()))),
        vec![(11, Ok("second".to_string()))]
    );
    server.io_loop(IoEvent::Round);
    // A line that nobody waits for is dropped.
    assert_eq!(
        replies(server.io_loop(IoEvent::Line("third\n".to_string()))),
        vec![]
    );
}

#[test]
fn requests_that_cannot_be_written_are_refused_at_once() {
    let mut server = running_server();
    write(&mut server, 1);
    server.io_loop(IoEvent::Request(2, Vec::new()));
    assert_eq!(
        replies(server.io_loop(IoEvent::Written(Err("broken pipe".to_string())))),
        vec![(2, Err("I/O error: broken pipe".to_string()))]
    );
    server.io_loop(IoEvent::Round);
    assert_eq!(
        replies(server.io_loop(IoEvent::Line("one\n".to_string()))),
        vec![(1, Ok("one".to_string()))]
    );
    assert!(server.is_healthy());
}

#[test]
fn end_of_the_process_refuses_the_requests_in_progress() {
    let mut server = running_server();
    write(&mut server, 1);
    write(&mut server, 2);
    let action = server.io_loop(IoEvent::Closed);
    assert!(matches!(action, IoAction::Stop(_)));
    assert_eq!(
        replies(action),
        vec![
            (1, Err("Server process exited".to_string())),
            (2, Err("Server process exited".to_string()))
        ]
    );
    assert!(!server.is_healthy());
}

#[test]
fn read_errors_abandon_the_requests_in_progress() {
    let mut server = running_server();
    write(&mut server, 1);
    assert!(matches!(
        server.io_loop(IoEvent::Failed("bad".to_string())),
        IoAction::Abandon
    ));
    assert!(!server.is_healthy());
    // Who waits for a reply that never comes is told that the process ended.
    assert!(matches!(
        ManagedServer::forward_request(true, None),
        Err(McpProxyError::ProcessExited)
    ));
    assert!(matches!(
        ManagedServer::forward_request(false, None),
        Err(McpProxyError::ProcessExited)
    ));
    assert_eq!(
        ManagedServer::forward_request(true, Some(Ok(vec![1]))).unwrap(),
        vec![1]
    );
    assert!(matches!(
        ManagedServer::forward_request(true, Some(Err(McpProxyError::Shutdown))),
        Err(McpProxyError::Shutdown)
    ));
}

#[test]
fn termination_refuses_everything() {
    let mut server = running_server();
    write(&mut server, 1);
    server.terminate();
    // A request that comes before the loop looks at the flag is refused.
    assert_eq!(
        replies(server.io_loop(IoEvent::Request(2, Vec::new()))),
        vec![(2, Err("Shutdown requested".to_string()))]
    );
    let action = server.io_loop(IoEvent::Round);
    assert!(matches!(action, IoAction::Stop(_)));
    assert_eq!(
        replies(action),
        vec![(1, Err("Shutdown requested".to_string()))]
    );
}

#[test]
fn server_loop_awaits_one_sort_of_event() {
    let mut server = ManagedServer::spawn(&server_config("cmd"), started()).unwrap();
    assert!(server.awaits(&IoEvent::Round));
    assert!(!server.awaits(&IoEvent::Request(1, Vec::new())));
    server.io_loop(IoEvent::Round);
    assert!(server.awaits(&IoEvent::Request(1, Vec::new())));
    assert!(server.awaits(&IoEvent::Line("x".to_string())));
    assert!(server.awaits(&IoEvent::Closed));
    assert!(server.awaits(&IoEvent::Failed("x".to_string())));
    assert!(!server.awaits(&IoEvent::Round));
    server.io_loop(IoEvent::Request(1, Vec::new()));
    assert!(server.awaits(&IoEvent::Written(Ok(()))));
    assert!(!server.awaits(&IoEvent::Closed));
    server.io_loop(IoEvent::Written(Ok(())));
    server.io_loop(IoEvent::Round);
    server.io_loop(IoEvent::Closed);
    assert!(!server.awaits(&IoEvent::Round));
}

#[test]
fn waits_are_capped_for_every_attempt() {
    let proxy = |base, longest| {
        Proxy::new(McpProxyConfig {
            max_restarts: u32::MAX,
            restart_backoff_base: base,
            max_backoff: longest,
            ..McpProxyConfig::default()
        })
    };
    for attempt in [6, 63, 64, 65, u32::MAX - 1] {
        let handler = proxy(1, 60);
        assert_eq!(handler.restart_server_with_backoff("s", attempt).unwrap(), 60);
        let handler = proxy(0, 60);
        assert_eq!(handler.restart_server_with_backoff("s", attempt).unwrap(), 0);
    }
    assert_eq!(proxy(3, 60).restart_server_with_backoff("s", 4).unwrap(), 48);
    assert_eq!(
        proxy(3, u64::MAX).restart_server_with_backoff("s", 63).unwrap(),
        u64::MAX
    );
}

#[test]
fn termination_drains_a_loop_that_waits() {
    let mut server = running_server();
    write(&mut server, 1);
    assert!(!server.awaits(&IoEvent::Round));
    server.terminate();
    assert!(server.awaits(&IoEvent::Round));
    let action = server.io_loop(IoEvent::Round);
    assert!(matches!(action, IoAction::Stop(_)));
    assert_eq!(
        replies(action),
        vec![(1, Err("Shutdown requested".to_string()))]
    );
}
