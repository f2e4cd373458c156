use mcp_inspector::media::accept_either;
use mcp_inspector::request::{
    delete_session_request, get_stream_request, post_message_request, HttpMethod, HttpRequest,
};

fn text(s: &str) -> Option<String> {
    Some(s.to_string())
}

#[test]
fn accept_names_both_media_types() {
    assert_eq!(accept_either(), "text/event-stream, application/json");
}

#[test]
fn post_request_without_session_or_credential() {
    let request = post_message_request("http://test/mcp", None, None);
    assert_eq!(
        request,
        HttpRequest {
            method: HttpMethod::Post,
            uri: "http://test/mcp".to_string(),
            accept: text("text/event-stream, application/json"),
            session_id: None,
            last_event_id: None,
            bearer: None,
            carries_message: true,
        }
    );
}

#[test]
fn post_request_carries_session_and_credential() {
    let request = post_message_request("http://test/mcp", text("abc123"), text("token"));
    assert_eq!(request.method, HttpMethod::Post);
    assert_eq!(request.session_id, text("abc123"));
    assert_eq!(request.bearer, text("token"));
    assert_eq!(request.last_event_id, None);
    assert!(request.carries_message);
}

#[test]
fn stream_request_asks_for_an_event_stream() {
    let request = get_stream_request("http://test/mcp", "abc123".to_string(), None, None);
    assert_eq!(
        request,
        HttpRequest {
            method: HttpMethod::Get,
            uri: "http://test/mcp".to_string(),
            accept: text("text/event-stream"),
            session_id: text("abc123"),
            last_event_id: None,
            bearer: None,
            carries_message: false,
        }
    );
}

#[test]
fn stream_request_resumes_after_an_event() {
    let request =
        get_stream_request("http://test/mcp", "abc123".to_string(), text("ev-7"), text("token"));
    assert_eq!(request.last_event_id, text("ev-7"));
    assert_eq!(request.bearer, text("token"));
    assert_eq!(request.session_id, text("abc123"));
}

#[test]
fn delete_request_names_the_session() {
    let request = delete_session_request("http://test/mcp", "abc123".to_string(), text("token"));
    assert_eq!(
        request,
        HttpRequest {
            method: HttpMethod::Delete,
            uri: "http://test/mcp".to_string(),
            accept: None,
            session_id: text("abc123"),
            last_event_id: None,
            bearer: text("token"),
            carries_message: false,
        }
    );
}
