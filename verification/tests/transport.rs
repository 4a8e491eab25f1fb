use stdio_bus::create_transport;
use stdio_bus::transport::{DirectStdioTransport, StdioBusWorkerTransport, Transport};
use stdio_bus::worker::{IoErrorKind, ReadEvent, WorkerError};

#[test]
fn create_transport_returns_correct_type() {
    // Worker mode should return StdioBusWorkerTransport
    let worker_transport = create_transport(/*worker_mode=*/ true);
    assert!(worker_transport.is_worker_mode());

    // Non-worker mode should return DirectStdioTransport
    let direct_transport = create_transport(/*worker_mode=*/ false);
    assert!(!direct_transport.is_worker_mode());
}

#[test]
fn direct_transport_properties() {
    let transport = create_transport(/*worker_mode=*/ false);
    assert!(!transport.is_worker_mode());
    assert!(transport.current_session_id().is_none());
}

#[test]
fn worker_transport_properties() {
    let transport = create_transport(/*worker_mode=*/ true);
    assert!(transport.is_worker_mode());
    // Session ID is None until a message is received
    assert!(transport.current_session_id().is_none());
}

#[test]
fn worker_transport_follows_the_session() {
    let mut transport = create_transport(true);
    assert_eq!(transport.send(b"not json").unwrap(), b"not json\n".to_vec());

    let line = "{\"id\":1,\"sessionId\":\"conn:9\"}\n".to_string();
    let message = transport.recv(ReadEvent::Line(line)).unwrap().unwrap();
    assert_eq!(message.routing.session_id, Some("conn:9".to_string()));
    assert_eq!(transport.current_session_id(), Some("conn:9"));
    assert_eq!(
        transport.send(b"{\"id\":1}").unwrap(),
        b"{\"id\":1,\"sessionId\":\"conn:9\"}\n".to_vec()
    );
    assert!(matches!(
        transport.send(b"not json"),
        Err(WorkerError::Json(_))
    ));

    // An error leaves the session, a message without one ends it.
    assert!(transport.recv(ReadEvent::Closed).unwrap().is_err());
    assert_eq!(transport.current_session_id(), Some("conn:9"));
    assert!(transport.recv(ReadEvent::Line("\n".to_string())).is_none());
    assert_eq!(transport.current_session_id(), Some("conn:9"));
    transport
        .recv(ReadEvent::Line("{\"id\":2}\n".to_string()))
        .unwrap()
        .unwrap();
    assert_eq!(transport.current_session_id(), None);
}

#[test]
fn direct_transport_takes_every_line() {
    let mut transport = DirectStdioTransport::default();
    let message = transport
        .recv(ReadEvent::Line("  \n".to_string()))
        .unwrap()
        .unwrap();
    assert!(message.raw.is_empty());
    let line = "{\"id\":1,\"sessionId\":\"conn:9\"}\n".to_string();
    transport.recv(ReadEvent::Line(line)).unwrap().unwrap();
    assert_eq!(transport.current_session_id(), None);
    assert_eq!(transport.send(b"{}").unwrap(), b"{}\n".to_vec());
    assert!(transport.recv(ReadEvent::ShutdownChanged).is_none());
    match transport.recv(ReadEvent::Closed) {
        Some(Err(WorkerError::Io(error))) => assert_eq!(error.kind, IoErrorKind::UnexpectedEof),
        other => panic!("unexpected {other:?}"),
    }
}

#[test]
fn worker_transport_starts_without_session() {
    let transport = StdioBusWorkerTransport::default();
    assert!(transport.is_worker_mode());
    assert_eq!(transport.current_session_id(), None);
}
