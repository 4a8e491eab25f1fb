use serde_json::Value;
use stdio_bus::message::RequestId;
use stdio_bus::routing::parse_message;
use stdio_bus::worker::{
    set_session_id, IoError, IoErrorKind, ReadEvent, StdioBusWorker, WorkerAction, WorkerError,
    WorkerEvent,
};

fn json(text: &str) -> Value {
    serde_json::from_str(text).unwrap()
}

fn bytes_of(text: &str) -> Vec<u8> {
    serde_json::to_vec(&json(text)).unwrap()
}

fn line(text: &str) -> WorkerEvent {
    WorkerEvent::Read(ReadEvent::Line(text.to_string()))
}

#[test]
fn inject_session_id_fails_on_invalid_json() {
    let mut bytes = b"not valid json".to_vec();
    let result = StdioBusWorker::inject_session_id(&mut bytes, "test-session");
    assert!(result.is_err());
    assert!(matches!(result.unwrap_err(), WorkerError::Json(_)));
    // What is no JSON is left alone.
    assert_eq!(bytes, b"not valid json".to_vec());
}

#[test]
fn inject_session_id_handles_non_object_json() {
    // Arrays don't have object methods, so sessionId won't be inserted
    // but the function should still succeed
    let mut bytes = bytes_of("[1, 2, 3]");
    let result = StdioBusWorker::inject_session_id(&mut bytes, "test-session");
    assert!(result.is_ok());

    // The array should be unchanged (no sessionId added)
    let parsed: Value = serde_json::from_slice(&bytes).unwrap();
    assert!(parsed.is_array());
    assert_eq!(parsed.as_array().unwrap().len(), 3);
}

#[test]
fn inject_session_id_handles_null_json() {
    let mut bytes = serde_json::to_vec(&Value::Null).unwrap();
    let result = StdioBusWorker::inject_session_id(&mut bytes, "test-session");
    assert!(result.is_ok());

    let parsed: Value = serde_json::from_slice(&bytes).unwrap();
    assert!(parsed.is_null());
}

#[test]
fn inject_session_id_handles_empty_object() {
    let mut bytes = bytes_of("{}");
    let result = StdioBusWorker::inject_session_id(&mut bytes, "test-session");
    assert!(result.is_ok());

    let parsed: Value = serde_json::from_slice(&bytes).unwrap();
    assert_eq!(parsed["sessionId"], "test-session");
    assert_eq!(bytes, b"{\"sessionId\":\"test-session\"}".to_vec());
}

#[test]
fn inject_session_id_handles_unicode_session_id() {
    let mut bytes = bytes_of(r#"{"id": "test"}"#);

    let result = StdioBusWorker::inject_session_id(&mut bytes, "session-日本語-🎉");
    assert!(result.is_ok());

    let parsed: Value = serde_json::from_slice(&bytes).unwrap();
    assert_eq!(parsed["sessionId"], "session-日本語-🎉");
}

#[test]
fn ndjson_empty_lines_are_skipped() {
    // Simulate NDJSON with empty lines
    let ndjson = r#"{"id":"1","method":"test/a"}

{"id":"2","method":"test/b"}
"#;
    let lines: Vec<&str> = ndjson
        .split('\n')
        .filter(|line| !line.trim().is_empty())
        .collect();

    assert_eq!(lines.len(), 2);

    let msg1 = parse_message(lines[0].as_bytes().to_vec());
    assert_eq!(msg1.routing.id, Some(RequestId::String("1".to_string())));

    let msg2 = parse_message(lines[1].as_bytes().to_vec());
    assert_eq!(msg2.routing.id, Some(RequestId::String("2".to_string())));

    // The worker skips the empty line itself.
    let mut worker = StdioBusWorker::new();
    let mut seen = Vec::new();
    for text in ndjson.split_inclusive('\n') {
        if let WorkerAction::Handle(message) = worker.run(line(text)) {
            seen.push(message.routing.id);
            worker.run(WorkerEvent::Handled(Ok(None)));
        }
    }
    assert_eq!(
        seen,
        vec![
            Some(RequestId::String("1".to_string())),
            Some(RequestId::String("2".to_string()))
        ]
    );
}

#[test]
fn complete_round_trip_with_session_injection() {
    // Step 1: Receive request
    let parsed_request = parse_message(bytes_of(
        r#"{
            "jsonrpc": "2.0",
            "id": "req-123",
            "method": "thread/start",
            "params": {"prompt": "Hello"},
            "sessionId": "thread:abc-456"
        }"#,
    ));

    // Extract session ID from request
    let session_id = parsed_request.routing.session_id.clone().unwrap();
    assert_eq!(session_id, "thread:abc-456");

    // Step 2: Create response
    let mut response_bytes = bytes_of(
        r#"{"jsonrpc": "2.0", "id": "req-123", "result": {"status": "started"}}"#,
    );

    // Step 3: Inject session ID
    StdioBusWorker::inject_session_id(&mut response_bytes, &session_id).unwrap();

    // Step 4: Verify response can be parsed and has correct session ID
    let parsed_response = parse_message(response_bytes);
    assert_eq!(
        parsed_response.routing.id,
        Some(RequestId::String("req-123".to_string()))
    );
    assert_eq!(
        parsed_response.routing.session_id,
        Some("thread:abc-456".to_string())
    );
    assert!(parsed_response.routing.is_response);
}

#[test]
fn injection_keeps_other_fields() {
    let mut bytes = bytes_of(
        r#"{"jsonrpc": "2.0", "id": 7, "method": "a/b", "result": "r", "extra": {"nested": true}}"#,
    );
    StdioBusWorker::inject_session_id(&mut bytes, "conn:1").unwrap();
    assert_eq!(
        serde_json::from_slice::<Value>(&bytes).unwrap(),
        json(
            r#"{"jsonrpc": "2.0", "id": 7, "method": "a/b", "result": "r", "extra": {"nested": true},
                "sessionId": "conn:1"}"#
        )
    );
}

#[test]
fn last_injected_session_id_stays() {
    let mut bytes = bytes_of(r#"{"id": "a", "method": "m", "sessionId": "old"}"#);
    for session_id in ["one", "two", "three"] {
        StdioBusWorker::inject_session_id(&mut bytes, session_id).unwrap();
    }
    let mut once = bytes_of(r#"{"id": "a", "method": "m"}"#);
    StdioBusWorker::inject_session_id(&mut once, "three").unwrap();
    assert_eq!(bytes, once);
}

#[test]
fn injected_message_is_one_line() {
    let mut bytes = b"{\n  \"id\": 1,\n  \"text\": \"a\\nb\"\n}".to_vec();
    StdioBusWorker::inject_session_id(&mut bytes, "with\nnewline").unwrap();
    let framed = StdioBusWorker::send(&bytes);
    assert_eq!(framed.iter().filter(|b| **b == b'\n').count(), 1);
    assert_eq!(framed.last(), Some(&b'\n'));
    let parsed: Value = serde_json::from_slice(&bytes).unwrap();
    assert_eq!(parsed["sessionId"], "with\nnewline");
    assert_eq!(parsed["text"], "a\nb");
}

#[test]
fn response_is_sent_with_the_session_of_its_request() {
    let mut worker = StdioBusWorker::new();
    let action = worker.run(line("{\"id\":5,\"method\":\"m\",\"sessionId\":\"thread:t\"}  \r\n"));
    match action {
        WorkerAction::Handle(message) => {
            assert_eq!(
                message.raw,
                b"{\"id\":5,\"method\":\"m\",\"sessionId\":\"thread:t\"}".to_vec()
            );
            assert_eq!(message.routing.session_id, Some("thread:t".to_string()));
        }
        other => panic!("unexpected action {other:?}"),
    }
    let response = b"{\"id\":5,\"result\":{}}".to_vec();
    match worker.run(WorkerEvent::Handled(Ok(Some(response)))) {
        WorkerAction::Send(bytes) => {
            assert_eq!(bytes, b"{\"id\":5,\"result\":{},\"sessionId\":\"thread:t\"}\n".to_vec());
        }
        other => panic!("unexpected action {other:?}"),
    }
    assert!(matches!(
        worker.run(WorkerEvent::Sent(Ok(()))),
        WorkerAction::Read
    ));
}

#[test]
fn response_without_session_is_sent_as_it_is() {
    let mut worker = StdioBusWorker::new();
    worker.run(line("{\"id\":5,\"method\":\"m\"}\n"));
    let response = b"{ \"id\": 5, \"result\": {} }".to_vec();
    match worker.run(WorkerEvent::Handled(Ok(Some(response)))) {
        WorkerAction::Send(bytes) => {
            assert_eq!(bytes, b"{ \"id\": 5, \"result\": {} }\n".to_vec());
        }
        other => panic!("unexpected action {other:?}"),
    }
}

#[test]
fn response_that_is_no_json_is_sent_as_it_is() {
    let mut worker = StdioBusWorker::new();
    worker.run(line("{\"id\":5,\"method\":\"m\",\"sessionId\":\"thread:t\"}\n"));
    match worker.run(WorkerEvent::Handled(Ok(Some(b"oops".to_vec())))) {
        WorkerAction::Send(bytes) => assert_eq!(bytes, b"oops\n".to_vec()),
        other => panic!("unexpected action {other:?}"),
    }
}

#[test]
fn failures_do_not_stop_the_worker() {
    let mut worker = StdioBusWorker::new();
    worker.run(line("{\"id\":1}\n"));
    assert!(matches!(
        worker.run(WorkerEvent::Handled(Err(WorkerError::Handler("bad".to_string())))),
        WorkerAction::Read
    ));
    worker.run(line("{\"id\":2}\n"));
    worker.run(WorkerEvent::Handled(Ok(Some(b"{}".to_vec()))));
    let failed = WorkerError::Io(IoError {
        kind: IoErrorKind::Other,
        message: "broken pipe".to_string(),
    });
    assert!(matches!(
        worker.run(WorkerEvent::Sent(Err(failed))),
        WorkerAction::Read
    ));
}

#[test]
fn end_of_input_stops_the_worker() {
    let mut worker = StdioBusWorker::new();
    assert!(matches!(
        worker.run(WorkerEvent::Read(ReadEvent::Closed)),
        WorkerAction::Stop
    ));

    let mut worker = StdioBusWorker::new();
    let failed = IoError {
        kind: IoErrorKind::Other,
        message: "gone".to_string(),
    };
    assert!(matches!(
        worker.run(WorkerEvent::Read(ReadEvent::Failed(failed))),
        WorkerAction::Stop
    ));
}

#[test]
fn shutdown_flag_is_looked_at() {
    let mut worker = StdioBusWorker::new();
    // The flag was written, but no shutdown was requested.
    assert!(matches!(
        worker.run(WorkerEvent::Read(ReadEvent::ShutdownChanged)),
        WorkerAction::Read
    ));
    worker.request_shutdown();
    assert!(matches!(
        worker.recv(ReadEvent::ShutdownChanged),
        Some(Err(WorkerError::Shutdown))
    ));
    assert!(matches!(
        worker.run(WorkerEvent::Read(ReadEvent::ShutdownChanged)),
        WorkerAction::NotifyShutdown
    ));
    assert!(matches!(
        worker.run(WorkerEvent::Drained),
        WorkerAction::Stop
    ));
}

#[test]
fn recv_tells_end_of_input() {
    let worker = StdioBusWorker::default();
    match worker.recv(ReadEvent::Closed) {
        Some(Err(WorkerError::Io(error))) => {
            assert_eq!(error.kind, IoErrorKind::UnexpectedEof);
            assert_eq!(error.message, "stdin closed");
        }
        other => panic!("unexpected {other:?}"),
    }
    assert!(worker.recv(ReadEvent::Line(" \t\r\n".to_string())).is_none());
    assert!(worker.recv(ReadEvent::Line("\u{2003}\u{a0}\n".to_string())).is_none());
    assert!(worker.recv(ReadEvent::Line("x\n".to_string())).is_some());
}

#[test]
fn errors_are_told_in_words() {
    let io = WorkerError::Io(IoError {
        kind: IoErrorKind::Other,
        message: "no".to_string(),
    });
    assert_eq!(io.to_string(), "I/O error: no");
    assert_eq!(
        WorkerError::Json("bad".to_string()).to_string(),
        "JSON serialization error: bad"
    );
    assert_eq!(
        WorkerError::Handler("x".to_string()).to_string(),
        "Handler error: x"
    );
    assert_eq!(WorkerError::Shutdown.to_string(), "Shutdown requested");
}

#[test]
fn json_errors_carry_the_parser_text() {
    let mut bytes = b"{".to_vec();
    let expected = serde_json::from_slice::<Value>(b"{").unwrap_err().to_string();
    match StdioBusWorker::inject_session_id(&mut bytes, "s") {
        Err(WorkerError::Json(text)) => assert_eq!(text, expected),
        other => panic!("unexpected {other:?}"),
    }
}

#[test]
fn written_line_is_read_back() {
    let mut response = bytes_of(r#"{"id":7,"result":{"text":"a\nb\u2003"}}"#);
    StdioBusWorker::inject_session_id(&mut response, "thread:é").unwrap();
    let written = StdioBusWorker::send(&response);
    assert_eq!(written.iter().filter(|byte| **byte == 10).count(), 1);
    let line = String::from_utf8(written).unwrap();
    match StdioBusWorker::new().recv(ReadEvent::Line(line)) {
        Some(Ok(message)) => {
            assert_eq!(message.raw, response);
            assert_eq!(message.routing.id, Some(RequestId::Integer(7)));
            assert_eq!(message.routing.session_id, Some("thread:é".to_string()));
            assert!(message.routing.is_response);
        }
        other => panic!("unexpected {other:?}"),
    }
}

#[test]
fn last_injection_counts() {
    let mut twice = bytes_of(r#"{"id":"a","params":{"n":[1,-2,null,true]}}"#);
    let mut once = twice.clone();
    StdioBusWorker::inject_session_id(&mut twice, "first").unwrap();
    StdioBusWorker::inject_session_id(&mut twice, "last").unwrap();
    StdioBusWorker::inject_session_id(&mut once, "last").unwrap();
    assert_eq!(twice, once);
    assert_eq!(
        String::from_utf8(once).unwrap(),
        r#"{"id":"a","params":{"n":[1,-2,null,true]},"sessionId":"last"}"#
    );
}

#[test]
fn worker_awaits_one_sort_of_event() {
    let mut worker = StdioBusWorker::new();
    assert!(worker.awaits(&line("{}\n")));
    assert!(!worker.awaits(&WorkerEvent::Handled(Ok(None))));
    assert!(!worker.awaits(&WorkerEvent::Sent(Ok(()))));
    assert!(!worker.awaits(&WorkerEvent::Drained));
    worker.run(line("{}\n"));
    assert!(!worker.awaits(&line("{}\n")));
    assert!(worker.awaits(&WorkerEvent::Handled(Ok(None))));
    worker.run(WorkerEvent::Handled(Ok(Some(b"{}".to_vec()))));
    assert!(worker.awaits(&WorkerEvent::Sent(Ok(()))));
    worker.run(WorkerEvent::Sent(Ok(())));
    worker.run(WorkerEvent::Read(ReadEvent::Closed));
    assert!(!worker.awaits(&line("{}\n")));
    assert!(!worker.awaits(&WorkerEvent::Drained));
}

#[test]
fn shutdown_comes_before_any_line() {
    let mut worker = StdioBusWorker::new();
    worker.request_shutdown();
    for event in [
        ReadEvent::Line("{\"id\":1}\n".to_string()),
        ReadEvent::Line("\n".to_string()),
        ReadEvent::Closed,
        ReadEvent::ShutdownChanged,
    ] {
        assert!(matches!(
            worker.recv(event),
            Some(Err(WorkerError::Shutdown))
        ));
    }
    assert!(matches!(
        worker.run(line("{\"id\":1}\n")),
        WorkerAction::NotifyShutdown
    ));
    assert!(matches!(
        worker.run(WorkerEvent::Drained),
        WorkerAction::Stop
    ));
    assert!(!worker.awaits(&line("{\"id\":2}\n")));
}

#[test]
fn shutdown_lets_a_request_finish() {
    let mut worker = StdioBusWorker::new();
    worker.run(line("{\"id\":1}\n"));
    worker.request_shutdown();
    assert!(matches!(
        worker.run(WorkerEvent::Handled(Ok(Some(b"{}".to_vec())))),
        WorkerAction::Send(_)
    ));
    assert!(matches!(
        worker.run(WorkerEvent::Sent(Ok(()))),
        WorkerAction::Read
    ));
    assert!(matches!(
        worker.run(line("{\"id\":2}\n")),
        WorkerAction::NotifyShutdown
    ));
}

#[test]
fn large_and_small_floats_can_be_read_back() {
    let mut floats = vec![1e308, -1e308, 5e-324, 2.2250738585072014e-308, -0.0, 1.1e24];
    for back in 0..1000_u64 {
        floats.push(f64::from_bits(f64::MAX.to_bits() - back));
        floats.push(f64::from_bits(f64::MIN.to_bits() - back));
    }
    for float in floats {
        let mut bytes = serde_json::to_vec(&Value::from(float)).unwrap();
        bytes.splice(0..0, *b"{\"id\":3,\"x\":");
        bytes.push(b'}');
        let before = serde_json::from_slice::<Value>(&bytes);
        assert!(before.is_ok(), "{float:e}");
        StdioBusWorker::inject_session_id(&mut bytes, "s").unwrap();
        let message = parse_message(bytes.clone());
        assert_eq!(message.routing.id, Some(RequestId::Integer(3)));
        assert_eq!(message.routing.session_id, Some("s".to_string()));
        let after: Value = serde_json::from_slice(&bytes).unwrap();
        assert!(after["x"].is_f64());
    }
}

#[test]
fn session_id_is_set_in_values() {
    let mut value = json(r#"{"id":1,"sessionId":"old"}"#);
    set_session_id(&mut value, "new");
    assert_eq!(value, json(r#"{"id":1,"sessionId":"new"}"#));
    let mut value = json("[1]");
    set_session_id(&mut value, "new");
    assert_eq!(value, json("[1]"));
}

#[test]
fn injection_keeps_what_reads_back() {
    let mut bytes = bytes_of(r#"{"id":1,"f":1.1e24,"n":{"a":[0.1,"t",null,true,-7]}}"#);
    let before: Value = serde_json::from_slice(&bytes).unwrap();
    StdioBusWorker::inject_session_id(&mut bytes, "s").unwrap();
    let after: Value = serde_json::from_slice(&bytes).unwrap();
    // Floats such as these are read back exactly.
    assert_eq!(after["n"], before["n"]);
    assert_eq!(after["id"], before["id"]);
    assert!(after["f"].is_f64());
    assert_eq!(after.as_object().unwrap().len(), 4);

    // This one is read back a little off, as it is when it is written alone.
    let float: Value = serde_json::from_str("11000000000000000e8").unwrap();
    let alone: Value = serde_json::from_slice(&serde_json::to_vec(&float).unwrap()).unwrap();
    assert_ne!(alone, float);
    let mut bytes = br#"{"x":11000000000000000e8}"#.to_vec();
    StdioBusWorker::inject_session_id(&mut bytes, "s").unwrap();
    let after: Value = serde_json::from_slice(&bytes).unwrap();
    assert_eq!(after["x"], alone);

    // JSON that is no object is kept.
    let mut bytes = br#"[1, "a", {"b": null}]"#.to_vec();
    StdioBusWorker::inject_session_id(&mut bytes, "s").unwrap();
    assert_eq!(bytes, br#"[1,"a",{"b":null}]"#.to_vec());
}

#[test]
fn last_injection_counts_up_to_floats() {
    let mut twice = br#"{"x":11000000000000000e8}"#.to_vec();
    let mut once = twice.clone();
    StdioBusWorker::inject_session_id(&mut twice, "first").unwrap();
    StdioBusWorker::inject_session_id(&mut twice, "last").unwrap();
    StdioBusWorker::inject_session_id(&mut once, "last").unwrap();
    let twice: Value = serde_json::from_slice(&twice).unwrap();
    let once: Value = serde_json::from_slice(&once).unwrap();
    assert_eq!(twice["sessionId"], once["sessionId"]);
    assert!(twice["x"].is_f64() && once["x"].is_f64());
    assert_eq!(twice.as_object().unwrap().len(), 2);
}
