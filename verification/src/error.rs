//! The failures that the transport reports to its caller.

use vstd::prelude::*;

verus! {

/// A failure of the transport. Every failure is handed to the immediate caller;
/// none is retried or swallowed.
#[derive(Debug, PartialEq, Eq)]
pub enum TransportError {
    /// A header pair cannot be encoded as an HTTP header; carries the pair's name.
    InvalidHeader(String),
    /// The server answered the first exchange without completing the handshake.
    HandshakeFailed,
    /// No session is live.
    NotConnected,
    /// The server answered with a failure status.
    HttpFailure(u16),
    /// The response is labelled with a media type that the transport does not read.
    UnexpectedContentType(String),
    /// The server does not push events for this session. This does not change
    /// while the session lasts.
    StreamingNotSupported,
    /// The server asks for authentication; carries its challenge as received.
    AuthRequired(String),
    /// A message could not be written as, or read from, JSON.
    SerializationFailure,
    /// The exchange did not complete on the network.
    NetworkFailure,
}

/// What a [`TransportError`] says, with texts as sequences of characters.
pub enum ErrorModel {
    InvalidHeader(Seq<char>),
    HandshakeFailed,
    NotConnected,
    HttpFailure(u16),
    UnexpectedContentType(Seq<char>),
    StreamingNotSupported,
    AuthRequired(Seq<char>),
    SerializationFailure,
    NetworkFailure,
}

impl View for TransportError {
    type V = ErrorModel;

    open spec fn view(&self) -> ErrorModel {
        match self {
            TransportError::InvalidHeader(name) => ErrorModel::InvalidHeader(name@),
            TransportError::HandshakeFailed => ErrorModel::HandshakeFailed,
            TransportError::NotConnected => ErrorModel::NotConnected,
            TransportError::HttpFailure(status) => ErrorModel::HttpFailure(*status),
            TransportError::UnexpectedContentType(value) => ErrorModel::UnexpectedContentType(
                value@,
            ),
            TransportError::StreamingNotSupported => ErrorModel::StreamingNotSupported,
            TransportError::AuthRequired(challenge) => ErrorModel::AuthRequired(challenge@),
            TransportError::SerializationFailure => ErrorModel::SerializationFailure,
            TransportError::NetworkFailure => ErrorModel::NetworkFailure,
        }
    }
}

impl Clone for TransportError {
    fn clone(&self) -> (r: Self)
        ensures
            r == *self,
    {
        match self {
            TransportError::InvalidHeader(name) => TransportError::InvalidHeader(name.clone()),
            TransportError::HandshakeFailed => TransportError::HandshakeFailed,
            TransportError::NotConnected => TransportError::NotConnected,
            TransportError::HttpFailure(status) => TransportError::HttpFailure(*status),
            TransportError::UnexpectedContentType(value) => TransportError::UnexpectedContentType(
                value.clone(),
            ),
            TransportError::StreamingNotSupported => TransportError::StreamingNotSupported,
            TransportError::AuthRequired(challenge) => TransportError::AuthRequired(
                challenge.clone(),
            ),
            TransportError::SerializationFailure => TransportError::SerializationFailure,
            TransportError::NetworkFailure => TransportError::NetworkFailure,
        }
    }
}

} // verus!
