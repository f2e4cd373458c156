use mcp_inspector::classify::{classify_post_response, ResponseHead};
use mcp_inspector::client::build_http_client_with_headers;
use mcp_inspector::connect::{connection_target, ConnectPayload, ConnectResult, DEFAULT_URL};
use mcp_inspector::error::TransportError;
use mcp_inspector::headers::HeaderPair;
use mcp_inspector::outcome::TransportOutcome;
use mcp_inspector::request::HttpMethod;
use mcp_inspector::session::{AppState, SessionHandle};

fn text(s: &str) -> Option<String> {
    Some(s.to_string())
}

fn pair(name: &str, value: &str) -> HeaderPair {
    HeaderPair { name: name.to_string(), value: value.to_string() }
}

fn handle(connection: u32, endpoint: &str, session_id: Option<&str>) -> SessionHandle<u32> {
    SessionHandle {
        connection,
        endpoint: endpoint.to_string(),
        session_id: session_id.map(|s| s.to_string()),
    }
}

#[test]
fn target_of_an_absent_request_is_the_default() {
    let target = connection_target(None);
    assert_eq!(target.endpoint, "http://localhost:8003/mcp");
    assert_eq!(target.endpoint, DEFAULT_URL);
    assert!(target.headers.is_empty());
}

#[test]
fn target_of_a_blank_url_is_the_default() {
    for url in [None, text(""), text("   "), text("\t\n")] {
        let target = connection_target(Some(ConnectPayload { url, headers: None }));
        assert_eq!(target.endpoint, "http://localhost:8003/mcp");
    }
}

#[test]
fn target_url_is_trimmed() {
    let target = connection_target(Some(ConnectPayload {
        url: text("  http://test/mcp \n"),
        headers: None,
    }));
    assert_eq!(target.endpoint, "http://test/mcp");
}

#[test]
fn target_headers_are_cleaned() {
    let target = connection_target(Some(ConnectPayload {
        url: text("http://test/mcp"),
        headers: Some(vec![pair(" X-Test ", " 1 "), pair("", "2"), pair("Y", "  ")]),
    }));
    assert_eq!(target.headers, vec![pair("X-Test", "1")]);
    assert_eq!(target.header_tuples(), vec![("X-Test".to_string(), "1".to_string())]);
}

#[test]
fn default_payload_names_nothing() {
    assert_eq!(ConnectPayload::default(), ConnectPayload { url: None, headers: None });
}

#[test]
fn connect_scenario_yields_the_session_id() {
    let mut state: AppState<u32> = AppState::new();
    let target = connection_target(Some(ConnectPayload {
        url: text("http://test/mcp"),
        headers: Some(vec![pair("X-Test", "1")]),
    }));
    let config = build_http_client_with_headers(&target.header_tuples()).unwrap();
    assert_eq!(config.default_headers.pairs(), &vec![pair("X-Test", "1")]);
    let handshake = classify_post_response(ResponseHead {
        status: 200,
        content_type: text("application/json"),
        session_id: text("abc123"),
        www_authenticate: None,
    });
    let attempt = SessionHandle::open(1u32, target.endpoint.clone(), handshake);
    let report = state.finish_connect(target, attempt).unwrap();
    assert_eq!(
        report,
        ConnectResult {
            connected: true,
            url: "http://test/mcp".to_string(),
            headers: vec![pair("X-Test", "1")],
        }
    );
    let live = state.session().unwrap();
    assert_eq!(live.session_id, text("abc123"));
    assert_eq!(live.endpoint, "http://test/mcp");
    assert_eq!(live.connection, 1);
}

#[test]
fn open_takes_the_session_id_of_a_stream_reply() {
    let opened = SessionHandle::open(
        2u32,
        "http://test/mcp".to_string(),
        TransportOutcome::Stream { session_id: text("s9") },
    );
    assert_eq!(opened, Ok(handle(2, "http://test/mcp", Some("s9"))));
}

#[test]
fn open_without_a_session_id() {
    let opened = SessionHandle::open(
        2u32,
        "http://test/mcp".to_string(),
        TransportOutcome::Message { session_id: None },
    );
    assert_eq!(opened, Ok(handle(2, "http://test/mcp", None)));
}

#[test]
fn open_fails_when_the_handshake_is_only_acknowledged() {
    let opened = SessionHandle::open(2u32, "http://test/mcp".to_string(), TransportOutcome::Accepted);
    assert_eq!(opened, Err(TransportError::HandshakeFailed));
}

#[test]
fn open_hands_on_a_challenge() {
    let opened = SessionHandle::open(
        2u32,
        "http://test/mcp".to_string(),
        TransportOutcome::AuthRequired("Bearer".to_string()),
    );
    assert_eq!(opened, Err(TransportError::AuthRequired("Bearer".to_string())));
}

#[test]
fn open_hands_on_a_failure() {
    for error in [
        TransportError::HttpFailure(500),
        TransportError::NetworkFailure,
        TransportError::SerializationFailure,
        TransportError::UnexpectedContentType("text/html".to_string()),
    ] {
        let opened = SessionHandle::open(
            2u32,
            "http://test/mcp".to_string(),
            TransportOutcome::TransportError(error.clone()),
        );
        assert_eq!(opened, Err(error));
    }
}

#[test]
fn send_before_connect_is_not_connected() {
    let state: AppState<u32> = AppState::new();
    assert!(!state.is_connected());
    assert_eq!(state.send_message(None), Err(TransportError::NotConnected));
    assert_eq!(state.send_message(text("token")), Err(TransportError::NotConnected));
    assert_eq!(state.session(), Err(TransportError::NotConnected));
}

#[test]
fn second_connect_supersedes_the_first() {
    let mut state: AppState<u32> = AppState::new();
    let first = connection_target(Some(ConnectPayload { url: text("http://one/mcp"), headers: None }));
    let second = connection_target(Some(ConnectPayload { url: text("http://two/mcp"), headers: None }));
    assert!(state.finish_connect(first, Ok(handle(1, "http://one/mcp", Some("first")))).is_ok());
    assert_eq!(state.send_message(None).unwrap().session_id, text("first"));
    assert!(state.finish_connect(second, Ok(handle(2, "http://two/mcp", Some("second")))).is_ok());
    let request = state.send_message(None).unwrap();
    assert_eq!(request.session_id, text("second"));
    assert_eq!(request.uri, "http://two/mcp");
    assert_eq!(request.method, HttpMethod::Post);
    assert_eq!(state.session().unwrap().connection, 2);
}

#[test]
fn failed_connect_keeps_the_live_session() {
    let mut state: AppState<u32> = AppState::new();
    let first = connection_target(Some(ConnectPayload { url: text("http://one/mcp"), headers: None }));
    let second = connection_target(Some(ConnectPayload { url: text("http://two/mcp"), headers: None }));
    assert!(state.finish_connect(first, Ok(handle(1, "http://one/mcp", Some("first")))).is_ok());
    let failed = state.finish_connect(second, Err(TransportError::NetworkFailure));
    assert_eq!(failed, Err(TransportError::NetworkFailure));
    assert!(state.is_connected());
    assert_eq!(state.session(), Ok(&handle(1, "http://one/mcp", Some("first"))));
}

#[test]
fn failed_first_connect_leaves_the_state_disconnected() {
    let mut state: AppState<u32> = AppState::new();
    let target = connection_target(None);
    let failed = state.finish_connect(target, Err(TransportError::HandshakeFailed));
    assert_eq!(failed, Err(TransportError::HandshakeFailed));
    assert!(!state.is_connected());
}

#[test]
fn send_attaches_session_and_credential() {
    let live = handle(1, "http://test/mcp", Some("abc123"));
    let request = live.send_message(text("token"));
    assert_eq!(request.uri, "http://test/mcp");
    assert_eq!(request.session_id, text("abc123"));
    assert_eq!(request.bearer, text("token"));
    assert_eq!(request.accept, text("text/event-stream, application/json"));
    assert!(request.carries_message);
}

#[test]
fn record_takes_a_new_session_id() {
    let mut live = handle(1, "http://test/mcp", None);
    live.record(&TransportOutcome::Accepted);
    assert_eq!(live.session_id, None);
    live.record(&TransportOutcome::Message { session_id: text("a") });
    assert_eq!(live.session_id, text("a"));
    live.record(&TransportOutcome::Message { session_id: None });
    assert_eq!(live.session_id, text("a"));
    live.record(&TransportOutcome::Stream { session_id: text("b") });
    assert_eq!(live.session_id, text("b"));
    live.record(&TransportOutcome::AuthRequired("x".to_string()));
    live.record(&TransportOutcome::TransportError(TransportError::HttpFailure(500)));
    assert_eq!(live, handle(1, "http://test/mcp", Some("b")));
}

#[test]
fn record_outcome_updates_the_live_session() {
    let mut state: AppState<u32> = AppState::new();
    state.record_outcome(&TransportOutcome::Message { session_id: text("lost") });
    assert!(!state.is_connected());
    let target = connection_target(None);
    assert!(state.finish_connect(target, Ok(handle(1, DEFAULT_URL, None))).is_ok());
    assert_eq!(state.send_message(None).unwrap().session_id, None);
    state.record_outcome(&TransportOutcome::Message { session_id: text("abc123") });
    assert_eq!(state.send_message(None).unwrap().session_id, text("abc123"));
    state.record_outcome(&TransportOutcome::Accepted);
    assert_eq!(state.send_message(None).unwrap().session_id, text("abc123"));
}

#[test]
fn stream_needs_a_session_id() {
    assert_eq!(handle(1, "http://test/mcp", None).open_stream(None, None), None);
    let request = handle(1, "http://test/mcp", Some("abc123")).open_stream(text("ev-1"), None).unwrap();
    assert_eq!(request.method, HttpMethod::Get);
    assert_eq!(request.session_id, text("abc123"));
    assert_eq!(request.last_event_id, text("ev-1"));
    assert_eq!(request.accept, text("text/event-stream"));
}

#[test]
fn teardown_needs_a_session_id() {
    assert_eq!(handle(1, "http://test/mcp", None).delete_session(None), None);
    let request = handle(1, "http://test/mcp", Some("abc123")).delete_session(text("token")).unwrap();
    assert_eq!(request.method, HttpMethod::Delete);
    assert_eq!(request.session_id, text("abc123"));
    assert_eq!(request.bearer, text("token"));
}

#[test]
fn disconnect_clears_the_session() {
    let mut state: AppState<u32> = AppState::new();
    assert_eq!(state.disconnect(), None);
    let target = connection_target(None);
    assert!(state.finish_connect(target, Ok(handle(1, DEFAULT_URL, Some("abc123")))).is_ok());
    assert_eq!(state.disconnect(), Some(handle(1, DEFAULT_URL, Some("abc123"))));
    assert!(!state.is_connected());
    assert_eq!(state.send_message(None), Err(TransportError::NotConnected));
    assert_eq!(state.disconnect(), None);
}
