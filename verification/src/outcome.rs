//! What one exchange with the server comes to.

use crate::error::{ErrorModel, TransportError};
use vstd::prelude::*;

verus! {

/// The outcome of sending one message. The same send can come to any of the
/// first three shapes; the server chooses.
#[derive(Debug, PartialEq, Eq)]
pub enum TransportOutcome {
    /// The server acknowledged the message and sends no payload.
    Accepted,
    /// The body is one JSON reply. `session_id` is the session identifier that
    /// came with the response, if one did.
    Message { session_id: Option<String> },
    /// The body is an open stream of server events, delivered as they arrive.
    Stream { session_id: Option<String> },
    /// The server asks for authentication first; carries its challenge as received.
    AuthRequired(String),
    /// The exchange failed.
    TransportError(TransportError),
}

/// What a [`TransportOutcome`] says, with texts as sequences of characters.
pub enum OutcomeModel {
    Accepted,
    Message(Option<Seq<char>>),
    Stream(Option<Seq<char>>),
    AuthRequired(Seq<char>),
    TransportError(ErrorModel),
}

impl View for TransportOutcome {
    type V = OutcomeModel;

    open spec fn view(&self) -> OutcomeModel {
        match self {
            TransportOutcome::Accepted => OutcomeModel::Accepted,
            TransportOutcome::Message { session_id } => OutcomeModel::Message(
                session_id.deep_view(),
            ),
            TransportOutcome::Stream { session_id } => OutcomeModel::Stream(
                session_id.deep_view(),
            ),
            TransportOutcome::AuthRequired(challenge) => OutcomeModel::AuthRequired(challenge@),
            TransportOutcome::TransportError(e) => OutcomeModel::TransportError(e@),
        }
    }
}

impl OutcomeModel {
    /// The session identifier that the outcome carries, if any.
    pub open spec fn session_id(self) -> Option<Seq<char>> {
        match self {
            OutcomeModel::Message(id) => id,
            OutcomeModel::Stream(id) => id,
            _ => None,
        }
    }
}

impl TransportOutcome {
    /// The session identifier that came with the response, if the outcome carries one.
    pub fn session_id(&self) -> (r: Option<&String>)
        ensures
            r.deep_view() == self@.session_id(),
    {
        match self {
            TransportOutcome::Message { session_id } => session_id.as_ref(),
            TransportOutcome::Stream { session_id } => session_id.as_ref(),
            _ => None,
        }
    }
}

} // verus!
