//! The media types that a response body can be labelled with.

use rmcp::transport::common::http_header::{EVENT_STREAM_MIME_TYPE, JSON_MIME_TYPE};
use vstd::prelude::*;

verus! {

/// The media type of an event stream.
pub open spec fn event_stream_media_type() -> Seq<char> {
    "text/event-stream"@
}

/// The media type of a JSON document.
pub open spec fn json_media_type() -> Seq<char> {
    "application/json"@
}

/// What a request that takes either kind of reply puts in its `Accept` header.
pub open spec fn either_media_type() -> Seq<char> {
    event_stream_media_type() + ", "@ + json_media_type()
}

/// Reads the constant `EVENT_STREAM_MIME_TYPE` of
/// `rmcp::transport::common::http_header`, which is `text/event-stream`.
#[verifier::external_body]
pub(crate) fn event_stream_mime_type() -> (r: &'static str)
    ensures
        r@ == event_stream_media_type(),
{
    EVENT_STREAM_MIME_TYPE
}

/// Reads the constant `JSON_MIME_TYPE` of
/// `rmcp::transport::common::http_header`, which is `application/json`.
#[verifier::external_body]
pub(crate) fn json_mime_type() -> (r: &'static str)
    ensures
        r@ == json_media_type(),
{
    JSON_MIME_TYPE
}

/// The `Accept` value of a request that takes an event stream or a JSON document.
pub fn accept_either() -> (r: String)
    ensures
        r@ == either_media_type(),
{
    let mut accept = event_stream_mime_type().to_owned();
    accept.append(", ");
    accept.append(json_mime_type());
    accept
}

} // verus!
