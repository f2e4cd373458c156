//! Reading a response: the authentication challenge, and the shape of the
//! reply by status and media type.

use crate::error::{ErrorModel, TransportError};
use crate::media::{event_stream_media_type, event_stream_mime_type, json_media_type, json_mime_type};
use crate::outcome::{OutcomeModel, TransportOutcome};
use crate::text::starts_with;
use vstd::prelude::*;

verus! {

/// The message was taken in; a reply, if any, comes another way.
pub const STATUS_ACCEPTED: u16 = 202;

/// The request succeeded and there is no body.
pub const STATUS_NO_CONTENT: u16 = 204;

/// The server wants the client to authenticate.
pub const STATUS_UNAUTHORIZED: u16 = 401;

/// The server does not offer the method on this endpoint.
pub const STATUS_METHOD_NOT_ALLOWED: u16 = 405;

/// The status line and the headers of a response that the transport reads.
#[derive(Debug, PartialEq, Eq)]
pub struct ResponseHead {
    pub status: u16,
    /// The value of `Content-Type`.
    pub content_type: Option<String>,
    /// The value of the session header.
    pub session_id: Option<String>,
    /// The value of `WWW-Authenticate`.
    pub www_authenticate: Option<String>,
}

/// The server acknowledged without a payload.
pub open spec fn is_acknowledgement(status: u16) -> bool {
    status == STATUS_ACCEPTED || status == STATUS_NO_CONTENT
}

/// The status is in the 2xx range.
pub open spec fn is_success(status: u16) -> bool {
    200 <= status < 300
}

/// The status is neither in the 2xx nor in the 3xx range.
pub open spec fn is_failure(status: u16) -> bool {
    !(200 <= status < 400)
}

/// The challenge that the response raises: the one it carries, where its
/// status is 401.
pub open spec fn challenge_of(status: u16, challenge: Option<Seq<char>>) -> Option<Seq<char>> {
    if status == STATUS_UNAUTHORIZED {
        challenge
    } else {
        None
    }
}

/// The shape of a reply by its status and media type. The rows are tried in order.
pub open spec fn classified(
    status: u16,
    content_type: Option<Seq<char>>,
    session_id: Option<Seq<char>>,
) -> OutcomeModel {
    if is_acknowledgement(status) {
        OutcomeModel::Accepted
    } else if is_failure(status) {
        OutcomeModel::TransportError(ErrorModel::HttpFailure(status))
    } else {
        match content_type {
            Some(value) => if event_stream_media_type().is_prefix_of(value) {
                OutcomeModel::Stream(session_id)
            } else if json_media_type().is_prefix_of(value) {
                OutcomeModel::Message(session_id)
            } else {
                OutcomeModel::TransportError(ErrorModel::UnexpectedContentType(value))
            },
            // A server may leave the label off a stream.
            None => OutcomeModel::Stream(session_id),
        }
    }
}

/// The outcome of a POST: the challenge first, then the shape of the reply.
pub open spec fn post_outcome(
    status: u16,
    challenge: Option<Seq<char>>,
    content_type: Option<Seq<char>>,
    session_id: Option<Seq<char>>,
) -> OutcomeModel {
    match challenge_of(status, challenge) {
        Some(text) => OutcomeModel::AuthRequired(text),
        None => classified(status, content_type, session_id),
    }
}

/// Whether a GET opened an event stream.
pub open spec fn stream_opening(status: u16, content_type: Option<Seq<char>>) -> Result<
    (),
    ErrorModel,
> {
    if status == STATUS_METHOD_NOT_ALLOWED {
        Err(ErrorModel::StreamingNotSupported)
    } else if is_failure(status) {
        Err(ErrorModel::HttpFailure(status))
    } else {
        match content_type {
            Some(value) => if event_stream_media_type().is_prefix_of(value) {
                Ok(())
            } else {
                Err(ErrorModel::UnexpectedContentType(value))
            },
            None => Ok(()),
        }
    }
}

/// Whether a DELETE ended the session, or the server has no teardown to offer.
pub open spec fn session_teardown(status: u16) -> Result<(), ErrorModel> {
    if status == STATUS_METHOD_NOT_ALLOWED || is_success(status) {
        Ok(())
    } else {
        Err(ErrorModel::HttpFailure(status))
    }
}

/// Detects an authentication challenge: a 401 that carries a challenge header
/// yields the challenge, unchanged. Anything else yields nothing and is left
/// to [`classify_response`].
pub fn detect_auth_challenge(status: u16, challenge: Option<String>) -> (r: Option<String>)
    ensures
        r.deep_view() == challenge_of(status, challenge.deep_view()),
        r is Some <==> status == STATUS_UNAUTHORIZED && challenge is Some,
{
    if status == STATUS_UNAUTHORIZED {
        challenge
    } else {
        None
    }
}

/// Classifies a response by status and media type.
pub fn classify_response(
    status: u16,
    content_type: Option<String>,
    session_id: Option<String>,
) -> (r: TransportOutcome)
    ensures
        r@ == classified(status, content_type.deep_view(), session_id.deep_view()),
        is_acknowledgement(status) ==> r@ == OutcomeModel::Accepted,
{
    if status == STATUS_ACCEPTED || status == STATUS_NO_CONTENT {
        return TransportOutcome::Accepted;
    }
    if status < 200 || status >= 400 {
        return TransportOutcome::TransportError(TransportError::HttpFailure(status));
    }
    match content_type {
        Some(value) => {
            if starts_with(value.as_str(), event_stream_mime_type()) {
                TransportOutcome::Stream { session_id }
            } else if starts_with(value.as_str(), json_mime_type()) {
                TransportOutcome::Message { session_id }
            } else {
                TransportOutcome::TransportError(TransportError::UnexpectedContentType(value))
            }
        },
        None => TransportOutcome::Stream { session_id },
    }
}

/// Reads the response to a POST: an authentication challenge takes
/// precedence over everything else; the rest is classified.
pub fn classify_post_response(head: ResponseHead) -> (r: TransportOutcome)
    ensures
        r@ == post_outcome(
            head.status,
            head.www_authenticate.deep_view(),
            head.content_type.deep_view(),
            head.session_id.deep_view(),
        ),
        head.status == STATUS_UNAUTHORIZED && head.www_authenticate is Some ==> r@
            == OutcomeModel::AuthRequired(head.www_authenticate->0@),
        is_acknowledgement(head.status) ==> r@ == OutcomeModel::Accepted,
{
    match detect_auth_challenge(head.status, head.www_authenticate) {
        Some(challenge) => TransportOutcome::AuthRequired(challenge),
        None => classify_response(head.status, head.content_type, head.session_id),
    }
}

/// Reads the response to the GET that opens an event stream.
pub fn classify_stream_response(status: u16, content_type: Option<String>) -> (r: Result<
    (),
    TransportError,
>)
    ensures
        match r {
            Ok(()) => stream_opening(status, content_type.deep_view()) == Ok::<(), ErrorModel>(()),
            Err(e) => stream_opening(status, content_type.deep_view()) == Err::<(), _>(e@),
        },
        status == STATUS_METHOD_NOT_ALLOWED ==> r == Err::<(), _>(
            TransportError::StreamingNotSupported,
        ),
{
    if status == STATUS_METHOD_NOT_ALLOWED {
        return Err(TransportError::StreamingNotSupported);
    }
    if status < 200 || status >= 400 {
        return Err(TransportError::HttpFailure(status));
    }
    match content_type {
        Some(value) => {
            if starts_with(value.as_str(), event_stream_mime_type()) {
                Ok(())
            } else {
                Err(TransportError::UnexpectedContentType(value))
            }
        },
        None => Ok(()),
    }
}

/// Reads the response to the DELETE that ends a session. A server without
/// teardown answers "method not allowed", which is no failure: the local
/// state can be disposed of all the same.
pub fn classify_delete_response(status: u16) -> (r: Result<(), TransportError>)
    ensures
        r is Ok <==> status == STATUS_METHOD_NOT_ALLOWED || is_success(status),
        r is Err ==> r == Err::<(), _>(TransportError::HttpFailure(status)),
        match r {
            Ok(()) => session_teardown(status) == Ok::<(), ErrorModel>(()),
            Err(e) => session_teardown(status) == Err::<(), _>(e@),
        },
{
    if status == STATUS_METHOD_NOT_ALLOWED || (200 <= status && status < 300) {
        Ok(())
    } else {
        Err(TransportError::HttpFailure(status))
    }
}

/// A 401 that carries a challenge is an authentication request, whatever
/// else the response holds.
pub proof fn law_challenge_takes_precedence(
    challenge: Seq<char>,
    content_type: Option<Seq<char>>,
    session_id: Option<Seq<char>>,
)
    ensures
        post_outcome(STATUS_UNAUTHORIZED, Some(challenge), content_type, session_id)
            == OutcomeModel::AuthRequired(challenge),
{
}

/// A 202 or a 204 is an acknowledgement, whatever else the response holds.
pub proof fn law_acknowledgement_is_accepted(
    status: u16,
    challenge: Option<Seq<char>>,
    content_type: Option<Seq<char>>,
    session_id: Option<Seq<char>>,
)
    requires
        status == STATUS_ACCEPTED || status == STATUS_NO_CONTENT,
    ensures
        classified(status, content_type, session_id) == OutcomeModel::Accepted,
        post_outcome(status, challenge, content_type, session_id) == OutcomeModel::Accepted,
{
}

/// No text begins with both media types.
pub proof fn lemma_media_types_differ(value: Seq<char>)
    ensures
        !(event_stream_media_type().is_prefix_of(value) && json_media_type().is_prefix_of(value)),
{
    reveal_strlit("text/event-stream");
    reveal_strlit("application/json");
    if event_stream_media_type().is_prefix_of(value) && json_media_type().is_prefix_of(value) {
        assert(value[0] == event_stream_media_type()[0]);
        assert(value[0] == json_media_type()[0]);
    }
}

/// A reply that is neither an acknowledgement nor a failure, labelled with
/// a media type that begins with the JSON one, is a single message and carries
/// the session identifier of the response.
pub proof fn law_json_reply_is_message(
    status: u16,
    challenge: Option<Seq<char>>,
    content_type: Seq<char>,
    session_id: Option<Seq<char>>,
)
    requires
        !is_acknowledgement(status),
        !is_failure(status),
        json_media_type().is_prefix_of(content_type),
    ensures
        post_outcome(status, challenge, Some(content_type), session_id) == OutcomeModel::Message(
            session_id,
        ),
{
    lemma_media_types_differ(content_type);
}

/// A reply that is neither an acknowledgement nor a failure, labelled with
/// a media type that begins with the event-stream one, is a stream and carries
/// the session identifier of the response.
pub proof fn law_event_stream_reply_is_stream(
    status: u16,
    challenge: Option<Seq<char>>,
    content_type: Seq<char>,
    session_id: Option<Seq<char>>,
)
    requires
        !is_acknowledgement(status),
        !is_failure(status),
        event_stream_media_type().is_prefix_of(content_type),
    ensures
        post_outcome(status, challenge, Some(content_type), session_id) == OutcomeModel::Stream(
            session_id,
        ),
        stream_opening(status, Some(content_type)) == Ok::<(), ErrorModel>(()),
{
}

} // verus!
