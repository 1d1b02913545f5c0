use mcp_gateway::{
    delivery_status, endpoint_data, lookup_post, open_fresh_sse_session, open_sse_session,
    post_response_status, ForwardAction, ForwardEvent, Forwarder,
    queue_disconnected_body, session_id, GatewayError, PostEventQuery, SessionRegistry,
    SseServerConfig, ACCEPTED, DEFAULT_AUTO_PING_INTERVAL_NS,
};

fn is_hyphenated_v4(s: &str) -> bool {
    let chars: Vec<char> = s.chars().collect();
    if chars.len() != 36 {
        return false;
    }
    for (i, c) in chars.iter().enumerate() {
        let hyphen = i == 8 || i == 13 || i == 18 || i == 23;
        if hyphen != (*c == '-') {
            return false;
        }
        if !hyphen && !(c.is_ascii_digit() || ('a'..='f').contains(c)) {
            return false;
        }
    }
    chars[14] == '4' && matches!(chars[19], '8' | '9' | 'a' | 'b')
}

#[test]
fn session_ids_are_lowercase_hyphenated_v4() {
    for _ in 0..50 {
        let id = session_id();
        assert!(is_hyphenated_v4(&id), "{id}");
    }
}

#[test]
fn session_ids_differ() {
    let a = session_id();
    let b = session_id();
    assert_ne!(a, b);
}

#[test]
fn registry_insert_get_remove() {
    let mut reg: SessionRegistry<u32> = SessionRegistry::new();
    assert!(reg.is_empty());
    reg.insert("a".to_string(), 1);
    reg.insert("b".to_string(), 2);
    assert_eq!(reg.len(), 2);
    assert_eq!(reg.get("a"), Some(&1));
    assert_eq!(reg.get("b"), Some(&2));
    assert_eq!(reg.get("c"), None);
    assert!(reg.contains("a"));
    assert!(reg.remove("a"));
    assert!(!reg.contains("a"));
    assert_eq!(reg.get("b"), Some(&2));
    assert_eq!(reg.len(), 1);
}

#[test]
fn registry_remove_is_idempotent() {
    let mut reg: SessionRegistry<u32> = SessionRegistry::new();
    reg.insert("s".to_string(), 7);
    assert!(reg.remove("s"));
    assert!(!reg.remove("s"));
    assert!(!reg.remove("never"));
    assert!(reg.is_empty());
}

#[test]
fn open_session_registers_and_announces_endpoint() {
    let mut reg: SessionRegistry<u8> = SessionRegistry::new();
    let (id, data) = open_fresh_sse_session(&mut reg, "/message", 9).unwrap();
    assert!(is_hyphenated_v4(&id));
    assert_eq!(data, format!("/message?sessionId={id}"));
    assert_eq!(reg.get(&id), Some(&9));
    assert_eq!(reg.len(), 1);
    assert!(reg.remove(&id));
    assert!(reg.is_empty());
}

#[test]
fn open_sessions_get_distinct_ids() {
    let mut reg: SessionRegistry<u8> = SessionRegistry::new();
    let mut ids = Vec::new();
    for i in 0..5u8 {
        let (id, _) = open_fresh_sse_session(&mut reg, "/message", i).unwrap();
        ids.push(id);
    }
    assert_eq!(reg.len(), 5);
    for (i, id) in ids.iter().enumerate() {
        assert_eq!(reg.get(id), Some(&(i as u8)));
    }
    for id in &ids {
        reg.remove(id);
    }
    assert!(reg.is_empty());
}

#[test]
fn endpoint_data_joins_path_and_id() {
    assert_eq!(
        endpoint_data("/message", "67e55044-10b1-426f-9247-bb680e5fe0c8"),
        "/message?sessionId=67e55044-10b1-426f-9247-bb680e5fe0c8"
    );
    assert_eq!(endpoint_data("/api/post", "x"), "/api/post?sessionId=x");
    assert_eq!(endpoint_data("", ""), "?sessionId=");
}

#[test]
fn post_to_unknown_session_is_not_found() {
    let reg: SessionRegistry<u8> = SessionRegistry::new();
    let query = PostEventQuery {
        session_id: "00000000-0000-0000-0000-000000000000".to_string(),
    };
    let found = lookup_post(&reg, &query);
    assert_eq!(found, Err(GatewayError::NoSuchSession));
    assert_eq!(post_response_status(found.is_ok(), true), 404);
    assert_eq!(GatewayError::NoSuchSession.status_code(), Some(404));
}

#[test]
fn post_to_open_session_is_accepted() {
    let mut reg: SessionRegistry<u8> = SessionRegistry::new();
    let (id, _) = open_fresh_sse_session(&mut reg, "/message", 3).unwrap();
    let query = PostEventQuery { session_id: id };
    assert_eq!(lookup_post(&reg, &query), Ok(&3));
    assert_eq!(delivery_status(true), Ok(ACCEPTED));
    assert_eq!(post_response_status(true, true), 202);
}

#[test]
fn post_after_close_is_never_accepted() {
    let mut reg: SessionRegistry<u8> = SessionRegistry::new();
    let (id, _) = open_fresh_sse_session(&mut reg, "/message", 3).unwrap();
    // The receiver is gone but the entry is still there: gone.
    assert_eq!(delivery_status(false), Err(GatewayError::SessionReceiverClosed));
    assert_eq!(post_response_status(true, false), 410);
    // After cleanup the entry is gone: not found.
    reg.remove(&id);
    let query = PostEventQuery { session_id: id };
    let status = post_response_status(lookup_post(&reg, &query).is_ok(), true);
    assert_eq!(status, 404);
    assert_ne!(status, 202);
}

#[test]
fn status_codes_of_errors() {
    assert_eq!(GatewayError::NoSuchSession.status_code(), Some(404));
    assert_eq!(GatewayError::SessionReceiverClosed.status_code(), Some(410));
    assert_eq!(GatewayError::QueueDisconnected.status_code(), Some(500));
    assert_eq!(GatewayError::SerializationFailed.status_code(), None);
    assert_eq!(GatewayError::FactoryFailed.status_code(), None);
    assert_eq!(GatewayError::BridgeSendFailed.status_code(), None);
    assert_eq!(GatewayError::BindFailed.status_code(), None);
    assert_eq!(
        queue_disconnected_body(),
        "fail to send out transport, it seems server is closed"
    );
}

#[test]
fn default_config() {
    let c = SseServerConfig::with_default_paths();
    assert_eq!(c.sse_path, "/sse");
    assert_eq!(c.post_path, "/message");
    assert_eq!(c.sse_keep_alive, None);
    assert_eq!(c.keep_alive_interval_ns(), 15_000_000_000);
    assert_eq!(DEFAULT_AUTO_PING_INTERVAL_NS, 15_000_000_000);
}

#[test]
fn configured_keep_alive_is_used() {
    let mut c = SseServerConfig::with_default_paths();
    c.sse_keep_alive = Some(100_000_000);
    assert_eq!(c.keep_alive_interval_ns(), 100_000_000);
    c.sse_keep_alive = Some(500);
    assert_eq!(c.keep_alive_interval_ns(), 500);
}

#[test]
fn open_with_given_id_refuses_a_registered_one() {
    let mut reg: SessionRegistry<u8> = SessionRegistry::new();
    let id = "67e55044-10b1-426f-9247-bb680e5fe0c8".to_string();
    assert_eq!(
        open_sse_session(&mut reg, "/message", id.clone(), 1),
        Some(format!("/message?sessionId={id}"))
    );
    assert_eq!(open_sse_session(&mut reg, "/message", id.clone(), 2), None);
    assert_eq!(reg.get(&id), Some(&1));
    assert_eq!(reg.len(), 1);
}

#[test]
fn registry_try_register() {
    let mut reg: SessionRegistry<u8> = SessionRegistry::new();
    assert!(reg.try_register("k".to_string(), 1));
    assert!(!reg.try_register("k".to_string(), 2));
    assert_eq!(reg.get("k"), Some(&1));
}

#[test]
fn happy_path_echo_round_trip() {
    let mut reg: SessionRegistry<u8> = SessionRegistry::new();
    let (id, data) = open_fresh_sse_session(&mut reg, "/message", 0).unwrap();
    assert_eq!(data, format!("/message?sessionId={id}"));
    let query = PostEventQuery { session_id: id.clone() };
    assert!(lookup_post(&reg, &query).is_ok());
    assert_eq!(post_response_status(true, true), 202);
    let request = r#"{"jsonrpc":"2.0","id":1,"method":"ping"}"#.to_string();
    let reply = r#"{"jsonrpc":"2.0","id":1,"result":"pong"}"#.to_string();
    let mut f = Forwarder::after_factory(true);
    match f.on_event::<String, String>(ForwardEvent::FromClient(request.clone())) {
        ForwardAction::SendToChild(m) => assert_eq!(m, request),
        _ => panic!("the client's message must go to the child"),
    }
    match f.on_event::<String, String>(ForwardEvent::FromChild(reply.clone())) {
        ForwardAction::SendToClient(m) => assert_eq!(m, reply),
        _ => panic!("the child's message must go to the client"),
    }
}

#[test]
fn factory_failure_leaves_registry_empty_after_disconnect() {
    let mut reg: SessionRegistry<u8> = SessionRegistry::new();
    let (id, data) = open_fresh_sse_session(&mut reg, "/message", 0).unwrap();
    assert!(data.starts_with("/message?sessionId="));
    let f = Forwarder::after_factory(false);
    assert!(!f.is_running());
    assert!(reg.remove(&id));
    assert!(reg.is_empty());
}

#[test]
fn graceful_shutdown_of_five_sessions() {
    let mut reg: SessionRegistry<u8> = SessionRegistry::new();
    let mut sessions = Vec::new();
    for i in 0..5u8 {
        let (id, _) = open_fresh_sse_session(&mut reg, "/message", i).unwrap();
        sessions.push((id, Forwarder::after_factory(true)));
    }
    assert_eq!(reg.len(), 5);
    for (id, f) in sessions.iter_mut() {
        assert!(matches!(f.on_event::<u8, u8>(ForwardEvent::Cancelled), ForwardAction::Exit));
        assert!(reg.remove(id));
        assert!(!reg.remove(id));
    }
    assert!(sessions.iter().all(|(_, f)| !f.is_running()));
    assert!(reg.is_empty());
}
