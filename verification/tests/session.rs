use stdio_bus::session::{
    conn_to_session_id, extract_mcp_server_name, extract_thread_id, mcp_to_session_id,
    thread_to_session_id, SessionType, CONN_PREFIX, MCP_PREFIX, THREAD_PREFIX,
};

#[test]
fn thread_prefix_is_correct() {
    assert_eq!(THREAD_PREFIX, "thread:");
}

#[test]
fn conn_prefix_is_correct() {
    assert_eq!(CONN_PREFIX, "conn:");
}

#[test]
fn mcp_prefix_is_correct() {
    assert_eq!(MCP_PREFIX, "mcp:");
}

#[test]
fn thread_to_session_id_formats_correctly() {
    assert_eq!(thread_to_session_id("abc123"), "thread:abc123");
    assert_eq!(thread_to_session_id(""), "thread:");
}

#[test]
fn conn_to_session_id_formats_correctly() {
    assert_eq!(conn_to_session_id(0), "conn:0");
    assert_eq!(conn_to_session_id(12345), "conn:12345");
    assert_eq!(conn_to_session_id(u64::MAX), format!("conn:{}", u64::MAX));
}

#[test]
fn mcp_to_session_id_formats_correctly() {
    assert_eq!(mcp_to_session_id("my-server"), "mcp:my-server");
    assert_eq!(mcp_to_session_id(""), "mcp:");
}

#[test]
fn extract_thread_id_works() {
    assert_eq!(extract_thread_id("thread:abc"), Some("abc"));
    assert_eq!(extract_thread_id("thread:"), Some(""));
    assert_eq!(extract_thread_id("conn:123"), None);
    assert_eq!(extract_thread_id("mcp:server"), None);
    assert_eq!(extract_thread_id("unknown"), None);
}

#[test]
fn extract_mcp_server_name_works() {
    assert_eq!(extract_mcp_server_name("mcp:my-server"), Some("my-server"));
    assert_eq!(extract_mcp_server_name("mcp:"), Some(""));
    assert_eq!(extract_mcp_server_name("thread:abc"), None);
    assert_eq!(extract_mcp_server_name("conn:123"), None);
    assert_eq!(extract_mcp_server_name("unknown"), None);
}

#[test]
fn session_type_from_session_id_parses_all_types() {
    assert_eq!(
        SessionType::from_session_id("thread:abc123"),
        SessionType::Thread("abc123".to_string())
    );
    assert_eq!(
        SessionType::from_session_id("conn:42"),
        SessionType::Connection(42)
    );
    assert_eq!(
        SessionType::from_session_id("mcp:my-server"),
        SessionType::Mcp("my-server".to_string())
    );
    assert_eq!(
        SessionType::from_session_id("unknown-format"),
        SessionType::Unknown("unknown-format".to_string())
    );
}

#[test]
fn session_type_handles_edge_cases() {
    // Empty values after prefix
    assert_eq!(
        SessionType::from_session_id("thread:"),
        SessionType::Thread("".to_string())
    );
    assert_eq!(
        SessionType::from_session_id("conn:0"),
        SessionType::Connection(0)
    );
    assert_eq!(
        SessionType::from_session_id("mcp:"),
        SessionType::Mcp("".to_string())
    );

    // Invalid connection ID (non-numeric)
    assert_eq!(
        SessionType::from_session_id("conn:not-a-number"),
        SessionType::Unknown("conn:not-a-number".to_string())
    );

    // Connection ID overflow (larger than u64::MAX)
    let overflow_id = format!("conn:{}0", u64::MAX);
    assert_eq!(
        SessionType::from_session_id(&overflow_id),
        SessionType::Unknown(overflow_id)
    );
}

#[test]
fn connection_numbers_are_read_like_integers() {
    for (text, expected) in [
        ("conn:18446744073709551615", Some(u64::MAX)),
        ("conn:18446744073709551616", None),
        ("conn:+7", Some(7)),
        ("conn:007", Some(7)),
        ("conn:+", None),
        ("conn:", None),
        ("conn:-1", None),
        ("conn:++1", None),
        ("conn: 1", None),
        ("conn:1 ", None),
        ("conn:٣", None),
    ] {
        let expected = match expected {
            Some(n) => SessionType::Connection(n),
            None => SessionType::Unknown(text.to_string()),
        };
        assert_eq!(SessionType::from_session_id(text), expected);
        assert_eq!(
            text["conn:".len()..].parse::<u64>().is_ok(),
            matches!(expected, SessionType::Connection(_))
        );
    }
}

#[test]
fn round_trips_keep_any_text() {
    for text in ["abc", "", "日本語-🎉", "thread:nested", "with spaces", "mcp:x"] {
        let thread = thread_to_session_id(text);
        assert_eq!(extract_thread_id(&thread), Some(text));
        assert_eq!(
            SessionType::from_session_id(&thread),
            SessionType::Thread(text.to_string())
        );
        let mcp = mcp_to_session_id(text);
        assert_eq!(extract_mcp_server_name(&mcp), Some(text));
        assert_eq!(
            SessionType::from_session_id(&mcp),
            SessionType::Mcp(text.to_string())
        );
    }
    for n in [0, 9, 10, 4294967296, u64::MAX] {
        assert_eq!(
            SessionType::from_session_id(&conn_to_session_id(n)),
            SessionType::Connection(n)
        );
    }
}

#[test]
fn session_ids_of_different_threads_differ() {
    assert_ne!(thread_to_session_id("a"), thread_to_session_id("b"));
    assert_ne!(mcp_to_session_id("a"), mcp_to_session_id("b"));
    assert_ne!(conn_to_session_id(1), conn_to_session_id(10));
}
