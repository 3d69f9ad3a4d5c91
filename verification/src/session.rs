//! The handshake state of one peer link, and what it lets through.

use crate::correlation::opt_identity;
use crate::envelope::MessageBody;
use crate::identity::{AgentIdentity, IdentityModel};
use vstd::prelude::*;

verus! {

/// Where a peer link stands in its handshake.
#[derive(Debug, Clone, Copy, PartialEq, Eq, Structural)]
pub enum SessionState {
    /// Nothing was exchanged yet.
    Unauthenticated,
    /// This side has sent its proof of identity and waits for the peer's.
    AwaitingAck,
    /// Both sides are authenticated.
    Established,
    /// The link is over. Nothing passes any more.
    Closed,
}

/// Why a session refused an envelope.
#[derive(Debug, Clone, Copy, PartialEq, Eq, Structural)]
pub enum SessionError {
    /// The session is not in a state that lets this family through.
    SessionNotEstablished,
    /// The peer's acknowledgement did not come in time; the session is closed.
    HandshakeTimeout,
}

/// Mathematical value of a [`HandshakeSession`].
pub struct SessionModel {
    pub state: SessionState,
    pub peer_identity: Option<IdentityModel>,
    pub established_at: Option<u64>,
    /// How long this side waits for the peer's acknowledgement.
    pub ack_timeout: u64,
    /// The time after which the wait is over; set while awaiting.
    pub ack_deadline: Option<u64>,
}

/// `now + timeout`, held at the largest timestamp.
pub open spec fn deadline_after(now: u64, timeout: u64) -> u64 {
    if now + timeout > u64::MAX {
        u64::MAX
    } else {
        (now + timeout) as u64
    }
}

impl SessionModel {
    /// A session before anything was exchanged.
    pub open spec fn initial(ack_timeout: u64) -> SessionModel {
        SessionModel {
            state: SessionState::Unauthenticated,
            peer_identity: None,
            established_at: None,
            ack_timeout,
            ack_deadline: None,
        }
    }

    /// Whether the fields fit the state: a peer and a time of establishment
    /// are recorded together, always once established and never before; a
    /// deadline is set exactly while awaiting.
    pub open spec fn wf(self) -> bool {
        &&& (self.peer_identity is Some <==> self.established_at is Some)
        &&& (self.state == SessionState::Established ==> self.peer_identity is Some)
        &&& (self.state == SessionState::Unauthenticated || self.state == SessionState::AwaitingAck
            ==> self.peer_identity is None)
        &&& (self.state == SessionState::AwaitingAck <==> self.ack_deadline is Some)
    }

    /// Whether the wait for the peer's acknowledgement is over at `now`.
    pub open spec fn timed_out(self, now: u64) -> bool {
        self.state == SessionState::AwaitingAck && self.ack_deadline is Some && now
            > self.ack_deadline->0
    }

    /// The session, closed. What was recorded of the peer stays.
    pub open spec fn closed(self) -> SessionModel {
        SessionModel { state: SessionState::Closed, ack_deadline: None, ..self }
    }

    /// The session once the clock shows `now`: closed if the wait is over.
    pub open spec fn after_expire(self, now: u64) -> SessionModel {
        if self.timed_out(now) {
            self.closed()
        } else {
            self
        }
    }

    /// Whether the state lets an incoming message of this family through:
    /// before the session is established only a HandshakeAck, once it is
    /// established every family but HandshakeAck, after it is closed none.
    pub open spec fn lets_in(self, family: MessageBody) -> bool {
        match self.state {
            SessionState::Unauthenticated => family == MessageBody::HandshakeAck,
            SessionState::AwaitingAck => family == MessageBody::HandshakeAck,
            SessionState::Established => family != MessageBody::HandshakeAck,
            SessionState::Closed => false,
        }
    }

    /// Whether the state lets an outgoing message of this family through:
    /// before the session is established only a HandshakeAck, once it is
    /// established every family, after it is closed none.
    pub open spec fn lets_out(self, family: MessageBody) -> bool {
        match self.state {
            SessionState::Unauthenticated => family == MessageBody::HandshakeAck,
            SessionState::AwaitingAck => family == MessageBody::HandshakeAck,
            SessionState::Established => true,
            SessionState::Closed => false,
        }
    }

    /// The outcome of a verified envelope of this family arriving at `now`.
    pub open spec fn receive_outcome(self, family: MessageBody, now: u64) -> Result<
        (),
        SessionError,
    > {
        if self.timed_out(now) {
            Err(SessionError::HandshakeTimeout)
        } else if !self.lets_in(family) {
            Err(SessionError::SessionNotEstablished)
        } else {
            Ok(())
        }
    }

    /// The session after a verified envelope of this family arrived from
    /// `sender` at `now`.
    pub open spec fn after_receive(self, family: MessageBody, sender: IdentityModel, now: u64) -> SessionModel {
        if self.timed_out(now) {
            self.closed()
        } else if self.lets_in(family) && family == MessageBody::HandshakeAck {
            SessionModel {
                state: SessionState::Established,
                peer_identity: Some(sender),
                established_at: Some(now),
                ack_timeout: self.ack_timeout,
                ack_deadline: None,
            }
        } else {
            self
        }
    }

    /// The outcome of sending a message of this family at `now`.
    pub open spec fn send_outcome(self, family: MessageBody, now: u64) -> Result<(), SessionError> {
        if self.timed_out(now) {
            Err(SessionError::HandshakeTimeout)
        } else if !self.lets_out(family) {
            Err(SessionError::SessionNotEstablished)
        } else {
            Ok(())
        }
    }

    /// The session after a message of this family was sent at `now`: the
    /// first proof of identity starts the wait for the peer's.
    pub open spec fn after_send(self, family: MessageBody, now: u64) -> SessionModel {
        if self.timed_out(now) {
            self.closed()
        } else if self.state == SessionState::Unauthenticated && family
            == MessageBody::HandshakeAck {
            SessionModel {
                state: SessionState::AwaitingAck,
                ack_deadline: Some(deadline_after(now, self.ack_timeout)),
                ..self
            }
        } else {
            self
        }
    }
}

/// The handshake state machine of one peer link.
#[derive(Debug)]
pub struct HandshakeSession {
    state: SessionState,
    peer_identity: Option<AgentIdentity>,
    established_at: Option<u64>,
    ack_timeout: u64,
    ack_deadline: Option<u64>,
}

impl View for HandshakeSession {
    type V = SessionModel;

    closed spec fn view(&self) -> SessionModel {
        SessionModel {
            state: self.state,
            peer_identity: opt_identity(self.peer_identity),
            established_at: self.established_at,
            ack_timeout: self.ack_timeout,
            ack_deadline: self.ack_deadline,
        }
    }
}

impl HandshakeSession {
    /// A session before anything was exchanged. `ack_timeout` is how long
    /// this side will wait for the peer's acknowledgement.
    pub fn new(ack_timeout: u64) -> (r: Self)
        ensures
            r@ == SessionModel::initial(ack_timeout),
    {
        HandshakeSession {
            state: SessionState::Unauthenticated,
            peer_identity: None,
            established_at: None,
            ack_timeout,
            ack_deadline: None,
        }
    }

    /// The state of the session.
    pub fn state(&self) -> (r: SessionState)
        ensures
            r == self@.state,
    {
        self.state
    }

    /// The peer, once one was authenticated.
    pub fn peer_identity(&self) -> (r: &Option<AgentIdentity>)
        ensures
            opt_identity(*r) == self@.peer_identity,
    {
        &self.peer_identity
    }

    /// The time at which the session was established.
    pub fn established_at(&self) -> (r: Option<u64>)
        ensures
            r == self@.established_at,
    {
        self.established_at
    }

    fn is_timed_out(&self, now: u64) -> (r: bool)
        ensures
            r == self@.timed_out(now),
    {
        match self.state {
            SessionState::AwaitingAck => match self.ack_deadline {
                Some(deadline) => now > deadline,
                None => false,
            },
            _ => false,
        }
    }

    /// Whether the state lets an incoming message of this family through.
    pub fn admits_inbound(&self, family: MessageBody) -> (r: bool)
        ensures
            r == self@.lets_in(family),
    {
        match self.state {
            SessionState::Unauthenticated => family == MessageBody::HandshakeAck,
            SessionState::AwaitingAck => family == MessageBody::HandshakeAck,
            SessionState::Established => family != MessageBody::HandshakeAck,
            SessionState::Closed => false,
        }
    }

    /// Whether the state lets an outgoing message of this family through.
    pub fn admits_outbound(&self, family: MessageBody) -> (r: bool)
        ensures
            r == self@.lets_out(family),
    {
        match self.state {
            SessionState::Unauthenticated => family == MessageBody::HandshakeAck,
            SessionState::AwaitingAck => family == MessageBody::HandshakeAck,
            SessionState::Established => true,
            SessionState::Closed => false,
        }
    }

    /// Closes the session, for an explicit close or because the transport
    /// went down. What was recorded of the peer stays readable.
    pub fn close(&mut self)
        ensures
            final(self)@ == old(self)@.closed(),
    {
        self.state = SessionState::Closed;
        self.ack_deadline = None;
    }

    /// Lets the clock act on the session: if the wait for the peer's
    /// acknowledgement is over at `now`, the session is closed and the
    /// timeout reported.
    pub fn expire(&mut self, now: u64) -> (r: Result<(), SessionError>)
        ensures
            final(self)@ == old(self)@.after_expire(now),
            r == (if old(self)@.timed_out(now) {
                Err::<(), SessionError>(SessionError::HandshakeTimeout)
            } else {
                Ok::<(), SessionError>(())
            }),
    {
        if self.is_timed_out(now) {
            self.close();
            Err(SessionError::HandshakeTimeout)
        } else {
            Ok(())
        }
    }

    /// A verified envelope of this family arrived from `sender` at `now`.
    /// The first verified HandshakeAck establishes the session with its
    /// sender as the peer.
    pub fn on_receive(&mut self, family: MessageBody, sender: &AgentIdentity, now: u64) -> (r: Result<
        (),
        SessionError,
    >)
        ensures
            r == old(self)@.receive_outcome(family, now),
            final(self)@ == old(self)@.after_receive(family, sender@, now),
    {
        if self.is_timed_out(now) {
            self.close();
            return Err(SessionError::HandshakeTimeout);
        }
        if !self.admits_inbound(family) {
            return Err(SessionError::SessionNotEstablished);
        }
        if family == MessageBody::HandshakeAck {
            self.state = SessionState::Established;
            self.peer_identity = Some(sender.clone());
            self.established_at = Some(now);
            self.ack_deadline = None;
        }
        Ok(())
    }

    /// A message of this family is about to be sent at `now`. The first
    /// proof of identity that goes out starts the wait for the peer's.
    pub fn on_send(&mut self, family: MessageBody, now: u64) -> (r: Result<(), SessionError>)
        ensures
            r == old(self)@.send_outcome(family, now),
            final(self)@ == old(self)@.after_send(family, now),
    {
        if self.is_timed_out(now) {
            self.close();
            return Err(SessionError::HandshakeTimeout);
        }
        if !self.admits_outbound(family) {
            return Err(SessionError::SessionNotEstablished);
        }
        if self.state == SessionState::Unauthenticated {
            let deadline = if self.ack_timeout <= u64::MAX - now {
                now + self.ack_timeout
            } else {
                u64::MAX
            };
            self.state = SessionState::AwaitingAck;
            self.ack_deadline = Some(deadline);
        }
        Ok(())
    }
}

/// A new session is well formed, and every step leaves a well-formed session
/// well formed.
pub proof fn steps_keep_sessions_well_formed(
    session: SessionModel,
    family: MessageBody,
    sender: IdentityModel,
    now: u64,
    ack_timeout: u64,
)
    requires
        session.wf(),
    ensures
        SessionModel::initial(ack_timeout).wf(),
        session.closed().wf(),
        session.after_expire(now).wf(),
        session.after_receive(family, sender, now).wf(),
        session.after_send(family, now).wf(),
{
}

/// Before a session is established nothing but a HandshakeAck passes, in
/// either direction; once it is closed nothing passes at all.
pub proof fn nothing_passes_before_establishment(
    session: SessionModel,
    family: MessageBody,
    sender: IdentityModel,
    now: u64,
)
    requires
        session.state != SessionState::Established,
        family != MessageBody::HandshakeAck || session.state == SessionState::Closed,
    ensures
        session.send_outcome(family, now) is Err,
        session.receive_outcome(family, now) is Err,
        !session.timed_out(now) ==> session.send_outcome(family, now) == Err::<(), SessionError>(
            SessionError::SessionNotEstablished,
        ) && session.receive_outcome(family, now) == Err::<(), SessionError>(
            SessionError::SessionNotEstablished,
        ),
        session.after_send(family, now).state != SessionState::Established,
        session.after_receive(family, sender, now).state != SessionState::Established,
{
}

/// An established session lets every family but HandshakeAck through, in
/// both directions, and stays as it is.
pub proof fn established_is_steady(
    session: SessionModel,
    family: MessageBody,
    sender: IdentityModel,
    now: u64,
)
    requires
        session.state == SessionState::Established,
        family != MessageBody::HandshakeAck,
    ensures
        session.send_outcome(family, now) is Ok,
        session.receive_outcome(family, now) is Ok,
        session.after_send(family, now) == session,
        session.after_receive(family, sender, now) == session,
{
}

/// A closed session stays closed.
pub proof fn closed_is_terminal(
    session: SessionModel,
    family: MessageBody,
    sender: IdentityModel,
    now: u64,
)
    requires
        session.state == SessionState::Closed,
    ensures
        session.after_send(family, now) == session,
        session.after_receive(family, sender, now) == session,
        session.after_expire(now) == session,
        session.closed().state == SessionState::Closed,
{
}

/// An Invoke sent on a new session is refused. After the handshake, on the
/// side that sent its proof first and got the peer's in time, the same
/// Invoke is let through.
pub proof fn invoke_passes_once_the_initiator_is_acknowledged(
    ack_timeout: u64,
    begun: u64,
    acknowledged: u64,
    peer: IdentityModel,
    now: u64,
)
    requires
        acknowledged <= deadline_after(begun, ack_timeout),
    ensures
        SessionModel::initial(ack_timeout).send_outcome(MessageBody::Invoke, now) == Err::<
            (),
            SessionError,
        >(SessionError::SessionNotEstablished),
        SessionModel::initial(ack_timeout).send_outcome(MessageBody::HandshakeAck, begun) is Ok,
        SessionModel::initial(ack_timeout).after_send(
            MessageBody::HandshakeAck,
            begun,
        ).receive_outcome(MessageBody::HandshakeAck, acknowledged) is Ok,
        SessionModel::initial(ack_timeout).after_send(MessageBody::HandshakeAck, begun).after_receive(
            MessageBody::HandshakeAck,
            peer,
            acknowledged,
        ).send_outcome(MessageBody::Invoke, now) is Ok,
        SessionModel::initial(ack_timeout).after_send(MessageBody::HandshakeAck, begun).after_receive(
            MessageBody::HandshakeAck,
            peer,
            acknowledged,
        ) == (SessionModel {
            state: SessionState::Established,
            peer_identity: Some(peer),
            established_at: Some(acknowledged),
            ack_timeout,
            ack_deadline: None,
        }),
{
}

/// On the side that is contacted first, the peer's verified proof of
/// identity establishes the session at once, and an Invoke is let through
/// from then on.
pub proof fn invoke_passes_once_the_responder_is_contacted(
    ack_timeout: u64,
    contacted: u64,
    peer: IdentityModel,
    now: u64,
)
    ensures
        SessionModel::initial(ack_timeout).receive_outcome(MessageBody::Invoke, now) == Err::<
            (),
            SessionError,
        >(SessionError::SessionNotEstablished),
        SessionModel::initial(ack_timeout).receive_outcome(MessageBody::HandshakeAck, contacted) is Ok,
        SessionModel::initial(ack_timeout).after_receive(
            MessageBody::HandshakeAck,
            peer,
            contacted,
        ).send_outcome(MessageBody::Invoke, now) is Ok,
        SessionModel::initial(ack_timeout).after_receive(
            MessageBody::HandshakeAck,
            peer,
            contacted,
        ).receive_outcome(MessageBody::Invoke, now) is Ok,
{
}

/// A wait that is over closes the session at the next step, whatever the
/// step, and the step fails with the timeout.
pub proof fn overdue_wait_closes_the_session(
    session: SessionModel,
    family: MessageBody,
    sender: IdentityModel,
    now: u64,
)
    requires
        session.timed_out(now),
    ensures
        session.send_outcome(family, now) == Err::<(), SessionError>(SessionError::HandshakeTimeout),
        session.receive_outcome(family, now) == Err::<(), SessionError>(
            SessionError::HandshakeTimeout,
        ),
        session.after_send(family, now).state == SessionState::Closed,
        session.after_receive(family, sender, now).state == SessionState::Closed,
        session.after_expire(now).state == SessionState::Closed,
{
}

} // verus!
