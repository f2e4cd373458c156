//! The one live session of an application: how it comes to be, how messages
//! go out on it, and how it ends.

use crate::connect::{ConnectResult, ConnectionTarget};
use crate::error::{ErrorModel, TransportError};
use crate::outcome::{OutcomeModel, TransportOutcome};
use crate::request::{
    delete_session_model, delete_session_request, get_stream_model, get_stream_request,
    post_message_model, post_message_request, HttpRequest, RequestModel,
};
use crate::text::clone_optional;
use vstd::prelude::*;

verus! {

/// An established session: the connection that carries it, where it goes, and
/// the identifier that the server gave it. The identifier is absent until the
/// server supplies one and goes with every request from then on.
#[derive(Debug, PartialEq, Eq)]
pub struct SessionHandle<C> {
    pub connection: C,
    pub endpoint: String,
    pub session_id: Option<String>,
}

/// What the first exchange of a connection establishes: the session
/// identifier that came with the reply, where the server did reply.
pub open spec fn handshake_session(outcome: OutcomeModel) -> Result<Option<Seq<char>>, ErrorModel> {
    match outcome {
        OutcomeModel::Message(session_id) => Ok(session_id),
        OutcomeModel::Stream(session_id) => Ok(session_id),
        OutcomeModel::Accepted => Err(ErrorModel::HandshakeFailed),
        OutcomeModel::AuthRequired(challenge) => Err(ErrorModel::AuthRequired(challenge)),
        OutcomeModel::TransportError(e) => Err(e),
    }
}

/// The session identifier after an exchange: the one the server supplied
/// with it, else the one held before.
pub open spec fn session_after(held: Option<Seq<char>>, outcome: OutcomeModel) -> Option<
    Seq<char>,
> {
    match outcome.session_id() {
        Some(id) => Some(id),
        None => held,
    }
}

impl<C> SessionHandle<C> {
    /// Makes the handle of a connection from the outcome of its handshake. A
    /// reply establishes the session; an acknowledgement without a reply does
    /// not; a challenge or a failure is handed on as it is.
    pub fn open(connection: C, endpoint: String, handshake: TransportOutcome) -> (r: Result<
        SessionHandle<C>,
        TransportError,
    >)
        ensures
            match r {
                Ok(handle) => {
                    &&& handshake_session(handshake@) == Ok::<_, ErrorModel>(
                        handle.session_id.deep_view(),
                    )
                    &&& handle.connection == connection
                    &&& handle.endpoint == endpoint
                },
                Err(e) => handshake_session(handshake@) == Err::<Option<Seq<char>>, _>(e@),
            },
    {
        match handshake {
            TransportOutcome::Message { session_id } => Ok(
                SessionHandle { connection, endpoint, session_id },
            ),
            TransportOutcome::Stream { session_id } => Ok(
                SessionHandle { connection, endpoint, session_id },
            ),
            TransportOutcome::Accepted => Err(TransportError::HandshakeFailed),
            TransportOutcome::AuthRequired(challenge) => Err(
                TransportError::AuthRequired(challenge),
            ),
            TransportOutcome::TransportError(e) => Err(e),
        }
    }

    /// Describes the request that sends one message on this session.
    pub fn send_message(&self, auth_header: Option<String>) -> (r: HttpRequest)
        ensures
            r@ == post_message_model(
                self.endpoint@,
                self.session_id.deep_view(),
                auth_header.deep_view(),
            ),
    {
        post_message_request(self.endpoint.as_str(), clone_optional(&self.session_id), auth_header)
    }

    /// Takes note of the outcome of an exchange: a session identifier that
    /// the server supplied with it replaces the one held.
    pub fn record(&mut self, outcome: &TransportOutcome)
        ensures
            final(self).session_id.deep_view() == session_after(
                old(self).session_id.deep_view(),
                outcome@,
            ),
            final(self).connection == old(self).connection,
            final(self).endpoint == old(self).endpoint,
    {
        match outcome.session_id() {
            Some(id) => {
                self.session_id = Some(id.clone());
            },
            None => {},
        }
    }

    /// Describes the request that opens the event stream of this session,
    /// from the start or after the event named by `last_event_id`. There is
    /// none before the server has supplied a session identifier.
    pub fn open_stream(&self, last_event_id: Option<String>, auth_header: Option<String>) -> (r:
        Option<HttpRequest>)
        ensures
            r is Some <==> self.session_id is Some,
            r matches Some(request) ==> request@ == get_stream_model(
                self.endpoint@,
                self.session_id->0@,
                last_event_id.deep_view(),
                auth_header.deep_view(),
            ),
    {
        match &self.session_id {
            Some(id) => Some(
                get_stream_request(self.endpoint.as_str(), id.clone(), last_event_id, auth_header),
            ),
            None => None,
        }
    }

    /// Describes the request that ends this session on the server. There is
    /// none before the server has supplied a session identifier.
    pub fn delete_session(&self, auth_header: Option<String>) -> (r: Option<HttpRequest>)
        ensures
            r is Some <==> self.session_id is Some,
            r matches Some(request) ==> request@ == delete_session_model(
                self.endpoint@,
                self.session_id->0@,
                auth_header.deep_view(),
            ),
    {
        match &self.session_id {
            Some(id) => Some(
                delete_session_request(self.endpoint.as_str(), id.clone(), auth_header),
            ),
            None => None,
        }
    }
}

/// The session slot after a connect attempt: a success replaces whatever was
/// there, a failure leaves it as it was.
pub open spec fn slot_after_connect<C>(
    slot: Option<SessionHandle<C>>,
    attempt: Result<SessionHandle<C>, TransportError>,
) -> Option<SessionHandle<C>> {
    match attempt {
        Ok(handle) => Some(handle),
        Err(_) => slot,
    }
}

/// The request that sends a message on the session in the slot.
pub open spec fn send_on_slot<C>(
    slot: Option<SessionHandle<C>>,
    auth_header: Option<Seq<char>>,
) -> Result<RequestModel, ErrorModel> {
    match slot {
        Some(handle) => Ok(
            post_message_model(handle.endpoint@, handle.session_id.deep_view(), auth_header),
        ),
        None => Err(ErrorModel::NotConnected),
    }
}

/// The state of the application: at most one live session.
#[derive(Debug)]
pub struct AppState<C> {
    session: Option<SessionHandle<C>>,
}

impl<C> AppState<C> {
    /// The live session, if there is one.
    pub closed spec fn live(&self) -> Option<SessionHandle<C>> {
        self.session
    }

    /// The state without a session.
    pub fn new() -> (r: Self)
        ensures
            r.live() is None,
    {
        AppState { session: None }
    }

    /// Tells whether a session is live.
    pub fn is_connected(&self) -> (r: bool)
        ensures
            r == self.live() is Some,
    {
        self.session.is_some()
    }

    /// The live session. Fails with `NotConnected` where there is none.
    pub fn session(&self) -> (r: Result<&SessionHandle<C>, TransportError>)
        ensures
            match r {
                Ok(handle) => self.live() == Some(*handle),
                Err(e) => self.live() is None && e == TransportError::NotConnected,
            },
    {
        match &self.session {
            Some(handle) => Ok(handle),
            None => Err(TransportError::NotConnected),
        }
    }

    /// Ends a connect attempt. A session that was established becomes the
    /// live one, in place of any that was live before. A failed attempt leaves
    /// the state as it was and its error goes to the caller.
    pub fn finish_connect(
        &mut self,
        target: ConnectionTarget,
        attempt: Result<SessionHandle<C>, TransportError>,
    ) -> (r: Result<ConnectResult, TransportError>)
        ensures
            final(self).live() == slot_after_connect(old(self).live(), attempt),
            match r {
                Ok(report) => {
                    &&& attempt is Ok
                    &&& report.connected
                    &&& report.url == target.endpoint
                    &&& report.headers == target.headers
                },
                Err(e) => attempt == Err::<SessionHandle<C>, _>(e),
            },
    {
        match attempt {
            Ok(handle) => {
                self.session = Some(handle);
                Ok(target.connected())
            },
            Err(e) => Err(e),
        }
    }

    /// Describes the request that sends one message on the live session.
    /// Fails with `NotConnected` where there is none.
    pub fn send_message(&self, auth_header: Option<String>) -> (r: Result<
        HttpRequest,
        TransportError,
    >)
        ensures
            match r {
                Ok(request) => send_on_slot(self.live(), auth_header.deep_view()) == Ok::<
                    _,
                    ErrorModel,
                >(request@),
                Err(e) => self.live() is None && e == TransportError::NotConnected,
            },
    {
        match &self.session {
            Some(handle) => Ok(handle.send_message(auth_header)),
            None => Err(TransportError::NotConnected),
        }
    }

    /// Takes note of the outcome of an exchange on the live session. Without
    /// a live session nothing changes.
    pub fn record_outcome(&mut self, outcome: &TransportOutcome)
        ensures
            match old(self).live() {
                Some(before) => final(self).live() matches Some(after) && {
                    &&& after.session_id.deep_view() == session_after(
                        before.session_id.deep_view(),
                        outcome@,
                    )
                    &&& after.connection == before.connection
                    &&& after.endpoint == before.endpoint
                },
                None => final(self).live() is None,
            },
    {
        match &mut self.session {
            Some(handle) => {
                handle.record(outcome);
            },
            None => {},
        }
    }

    /// Gives up the live session. The state is without a session afterwards,
    /// whatever becomes of the teardown on the server.
    pub fn disconnect(&mut self) -> (r: Option<SessionHandle<C>>)
        ensures
            final(self).live() is None,
            r == old(self).live(),
    {
        self.session.take()
    }
}

/// Of two connects that succeed one after the other, the second supersedes
/// the first: it is the live session, whatever was live before, and a message
/// sent afterwards goes out with its identifier.
pub proof fn law_second_connect_supersedes<C>(
    slot: Option<SessionHandle<C>>,
    first: SessionHandle<C>,
    second: SessionHandle<C>,
    auth_header: Option<Seq<char>>,
)
    ensures
        slot_after_connect(
            slot_after_connect(slot, Ok::<_, TransportError>(first)),
            Ok::<_, TransportError>(second),
        ) == Some(second),
        send_on_slot(
            slot_after_connect(
                slot_after_connect(slot, Ok::<_, TransportError>(first)),
                Ok::<_, TransportError>(second),
            ),
            auth_header,
        ) == Ok::<_, ErrorModel>(
            post_message_model(second.endpoint@, second.session_id.deep_view(), auth_header),
        ),
{
}

/// A connect that fails leaves the live session, if any, as it was.
pub proof fn law_failed_connect_keeps_session<C>(
    slot: Option<SessionHandle<C>>,
    error: TransportError,
)
    ensures
        slot_after_connect(slot, Err::<SessionHandle<C>, _>(error)) == slot,
{
}

/// Without a session no message goes out: sending fails with `NotConnected`.
pub proof fn law_send_needs_session<C>(auth_header: Option<Seq<char>>)
    ensures
        send_on_slot(None::<SessionHandle<C>>, auth_header) == Err::<RequestModel, _>(
            ErrorModel::NotConnected,
        ),
{
}

/// Once the server has supplied a session identifier, every later exchange
/// leaves the handle with one.
pub proof fn law_session_id_stays(held: Seq<char>, outcome: OutcomeModel)
    ensures
        session_after(Some(held), outcome) is Some,
        outcome.session_id() is None ==> session_after(Some(held), outcome) == Some(held),
{
}

} // verus!
