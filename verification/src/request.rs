//! The three requests of the transport. Each describes one HTTP exchange.

use crate::media::{accept_either, either_media_type, event_stream_media_type, event_stream_mime_type};
use vstd::prelude::*;

verus! {

/// The HTTP method of a request.
#[derive(Debug, Clone, Copy, PartialEq, Eq, Structural)]
pub enum HttpMethod {
    Get,
    Post,
    Delete,
}

/// One HTTP request, to be sent as it stands. The headers of the connection's
/// header set go with it as with every request.
#[derive(Debug, PartialEq, Eq)]
pub struct HttpRequest {
    pub method: HttpMethod,
    pub uri: String,
    /// The value of the `Accept` header.
    pub accept: Option<String>,
    /// The value of the session header.
    pub session_id: Option<String>,
    /// The value of the header that resumes a stream after the named event.
    pub last_event_id: Option<String>,
    /// The bearer credential of the `Authorization` header.
    pub bearer: Option<String>,
    /// Whether the serialized message is the body.
    pub carries_message: bool,
}

/// What an [`HttpRequest`] says, with texts as sequences of characters.
pub struct RequestModel {
    pub method: HttpMethod,
    pub uri: Seq<char>,
    pub accept: Option<Seq<char>>,
    pub session_id: Option<Seq<char>>,
    pub last_event_id: Option<Seq<char>>,
    pub bearer: Option<Seq<char>>,
    pub carries_message: bool,
}

impl View for HttpRequest {
    type V = RequestModel;

    open spec fn view(&self) -> RequestModel {
        RequestModel {
            method: self.method,
            uri: self.uri@,
            accept: self.accept.deep_view(),
            session_id: self.session_id.deep_view(),
            last_event_id: self.last_event_id.deep_view(),
            bearer: self.bearer.deep_view(),
            carries_message: self.carries_message,
        }
    }
}

/// The POST that sends one message: it takes an event stream or a JSON
/// document in reply, and carries the session identifier and the credential
/// where there is one.
pub open spec fn post_message_model(
    uri: Seq<char>,
    session_id: Option<Seq<char>>,
    auth_header: Option<Seq<char>>,
) -> RequestModel {
    RequestModel {
        method: HttpMethod::Post,
        uri,
        accept: Some(either_media_type()),
        session_id,
        last_event_id: None,
        bearer: auth_header,
        carries_message: true,
    }
}

/// The GET that opens the event stream of a session, from the start or after
/// the event named by `last_event_id`.
pub open spec fn get_stream_model(
    uri: Seq<char>,
    session_id: Seq<char>,
    last_event_id: Option<Seq<char>>,
    auth_header: Option<Seq<char>>,
) -> RequestModel {
    RequestModel {
        method: HttpMethod::Get,
        uri,
        accept: Some(event_stream_media_type()),
        session_id: Some(session_id),
        last_event_id,
        bearer: auth_header,
        carries_message: false,
    }
}

/// The DELETE that ends a session.
pub open spec fn delete_session_model(
    uri: Seq<char>,
    session_id: Seq<char>,
    auth_header: Option<Seq<char>>,
) -> RequestModel {
    RequestModel {
        method: HttpMethod::Delete,
        uri,
        accept: None,
        session_id: Some(session_id),
        last_event_id: None,
        bearer: auth_header,
        carries_message: false,
    }
}

/// Describes the POST that sends one message to `uri`.
pub fn post_message_request(
    uri: &str,
    session_id: Option<String>,
    auth_header: Option<String>,
) -> (r: HttpRequest)
    ensures
        r@ == post_message_model(uri@, session_id.deep_view(), auth_header.deep_view()),
{
    HttpRequest {
        method: HttpMethod::Post,
        uri: uri.to_owned(),
        accept: Some(accept_either()),
        session_id,
        last_event_id: None,
        bearer: auth_header,
        carries_message: true,
    }
}

/// Describes the GET that opens the event stream of the session. A stream
/// belongs to a session, so the identifier is not optional.
pub fn get_stream_request(
    uri: &str,
    session_id: String,
    last_event_id: Option<String>,
    auth_header: Option<String>,
) -> (r: HttpRequest)
    ensures
        r@ == get_stream_model(
            uri@,
            session_id@,
            last_event_id.deep_view(),
            auth_header.deep_view(),
        ),
{
    HttpRequest {
        method: HttpMethod::Get,
        uri: uri.to_owned(),
        accept: Some(event_stream_mime_type().to_owned()),
        session_id: Some(session_id),
        last_event_id,
        bearer: auth_header,
        carries_message: false,
    }
}

/// Describes the DELETE that ends the session.
pub fn delete_session_request(uri: &str, session_id: String, auth_header: Option<String>) -> (r:
    HttpRequest)
    ensures
        r@ == delete_session_model(uri@, session_id@, auth_header.deep_view()),
{
    HttpRequest {
        method: HttpMethod::Delete,
        uri: uri.to_owned(),
        accept: None,
        session_id: Some(session_id),
        last_event_id: None,
        bearer: auth_header,
        carries_message: false,
    }
}

} // verus!
