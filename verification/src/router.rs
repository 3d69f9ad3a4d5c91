//! The composition root: one endpoint's codec, replay guard and correlation
//! tracker, through which every envelope of its peer links passes.

use crate::auth::{
    sealed, verdict, Algorithm, AuthCodec, AuthContext, AuthError, Credential, CredentialModel,
    SignError,
};
use crate::correlation::{
    after_resolve, bound_to, dropped_ids, kept, opt_identity, overdue_at, registration, resolution,
    texts, CorrelationError, CorrelationTracker, PendingInvocation, PendingModel,
};
use crate::entropy::{hex, NONCE_BYTES};
use crate::envelope::{Envelope, EnvelopeModel, MessageBody};
use crate::identity::{opt_chars, AgentIdentity, IdentityModel};
use crate::replay::{purged, GuardModel, ReplayError, ReplayGuard};
use crate::session::{HandshakeSession, SessionError, SessionModel};
use vstd::prelude::*;

verus! {

/// Why the router refused an envelope. Every refusal reaches the caller.
#[derive(Debug, Clone, Copy, PartialEq, Eq, Structural)]
pub enum Rejection {
    /// A field that the message's family requires is missing.
    MalformedEnvelope,
    /// The session does not let the envelope through.
    Session(SessionError),
    /// The authentication data does not hold.
    Auth(AuthError),
    /// The envelope is a replay or dated too far from the present.
    Replay(ReplayError),
    /// The envelope does not fit what is pending.
    Correlation(CorrelationError),
    /// No authentication data could be made for an outgoing message.
    Signing(SignError),
}

/// An outgoing message before it is signed: what its sender chooses of the
/// envelope.
#[derive(Debug)]
pub struct Draft {
    pub message_id: String,
    pub parent_id: Option<String>,
    pub correlation_id: Option<String>,
    pub body: MessageBody,
}

/// One endpoint's shared state: the credentials on file, the replay guard
/// and the pending invocations.
pub struct EnvelopeRouter {
    pub codec: AuthCodec,
    pub guard: ReplayGuard,
    pub tracker: CorrelationTracker,
}

/// Mathematical value of an [`EnvelopeRouter`].
pub struct RouterModel {
    pub credentials: Seq<CredentialModel>,
    pub guard: GuardModel,
    pub pending: Seq<PendingModel>,
}

impl View for EnvelopeRouter {
    type V = RouterModel;

    open spec fn view(&self) -> RouterModel {
        RouterModel { credentials: self.codec@, guard: self.guard@, pending: self.tracker@ }
    }
}

/// Where one envelope leaves the router and the session, and how it fared:
/// for an envelope that came in and was accepted, the invocation it
/// answers, if it is an answer.
pub struct Routed {
    pub router: RouterModel,
    pub session: SessionModel,
    pub outcome: Result<Option<PendingModel>, Rejection>,
}

/// What becomes of an envelope that arrives with `body` at `now`. The
/// stations it passes, in this order: the required fields, the session's
/// state, the authentication data, the replay guard, and for an answer the
/// pending invocations. The first that refuses it ends the way; what the
/// earlier ones recorded stays recorded.
pub open spec fn inbound(
    router: RouterModel,
    session: SessionModel,
    envelope: EnvelopeModel,
    body: Seq<u8>,
    now: u64,
) -> Routed {
    if !envelope.complete() {
        Routed { router, session, outcome: Err(Rejection::MalformedEnvelope) }
    } else if session.receive_outcome(envelope.body, now) is Err {
        Routed {
            router,
            session: session.after_expire(now),
            outcome: Err(Rejection::Session(session.receive_outcome(envelope.body, now)->Err_0)),
        }
    } else if verdict(router.credentials, envelope.sender, envelope.auth, body) is Err {
        Routed {
            router,
            session,
            outcome: Err(
                Rejection::Auth(
                    verdict(router.credentials, envelope.sender, envelope.auth, body)->Err_0,
                ),
            ),
        }
    } else {
        let admission = router.guard.admission(
            envelope.sender,
            envelope.auth.nonce,
            envelope.auth.issued_at,
            now,
        );
        let guard = router.guard.after_admit(
            envelope.sender,
            envelope.auth.nonce,
            envelope.auth.issued_at,
            now,
        );
        if admission is Err {
            Routed {
                router: RouterModel { guard, ..router },
                session,
                outcome: Err(Rejection::Replay(admission->Err_0)),
            }
        } else {
            let session = session.after_receive(envelope.body, envelope.sender, now);
            if envelope.body.answers() {
                Routed {
                    router: RouterModel {
                        guard,
                        pending: after_resolve(router.pending, envelope, now),
                        ..router
                    },
                    session,
                    outcome: match resolution(router.pending, envelope, now) {
                        Ok(entry) => Ok(Some(entry)),
                        Err(e) => Err(Rejection::Correlation(e)),
                    },
                }
            } else {
                Routed { router: RouterModel { guard, ..router }, session, outcome: Ok(None) }
            }
        }
    }
}

/// What becomes of a message of this id and family that is about to be sent
/// at `now`. An answer must name what it answers; the session must let the
/// family out; an Invoke is registered under its message id, to be answered
/// by `responder` no later than `deadline`.
pub open spec fn outbound(
    router: RouterModel,
    session: SessionModel,
    message_id: Seq<char>,
    family: MessageBody,
    correlation_id: Option<Seq<char>>,
    now: u64,
    deadline: u64,
    responder: Option<IdentityModel>,
) -> Routed {
    if family.answers() && correlation_id is None {
        Routed { router, session, outcome: Err(Rejection::MalformedEnvelope) }
    } else if session.send_outcome(family, now) is Err {
        Routed {
            router,
            session: session.after_expire(now),
            outcome: Err(Rejection::Session(session.send_outcome(family, now)->Err_0)),
        }
    } else if family == MessageBody::Invoke && registration(router.pending, message_id) is Err {
        Routed {
            router,
            session,
            outcome: Err(Rejection::Correlation(CorrelationError::DuplicateCorrelation)),
        }
    } else {
        Routed {
            router: if family == MessageBody::Invoke {
                RouterModel {
                    pending: router.pending.push(
                        PendingModel {
                            correlation_id: message_id,
                            initiated_at: now,
                            deadline,
                            responder,
                        },
                    ),
                    ..router
                }
            } else {
                router
            },
            session: session.after_send(family, now),
            outcome: Ok(None),
        }
    }
}

/// Whether what a call returned is the outcome that the model gives.
pub open spec fn reports(
    returned: Result<Option<PendingInvocation>, Rejection>,
    outcome: Result<Option<PendingModel>, Rejection>,
) -> bool {
    match returned {
        Ok(Some(entry)) => outcome == Ok::<Option<PendingModel>, Rejection>(Some(entry@)),
        Ok(None) => outcome == Ok::<Option<PendingModel>, Rejection>(None),
        Err(e) => outcome == Err::<Option<PendingModel>, Rejection>(e),
    }
}

impl EnvelopeRouter {
    /// Whether the router is well formed: its tracker is.
    pub open spec fn wf(&self) -> bool {
        self.tracker.wf()
    }

    /// A router with no credential on file, nothing recorded and nothing
    /// pending, whose replay guard has the given window and skew.
    pub fn new(window: u64, skew: u64) -> (r: Self)
        ensures
            r.wf(),
            r@ == (RouterModel {
                credentials: Seq::empty(),
                guard: GuardModel { window, skew, records: Seq::empty() },
                pending: Seq::empty(),
            }),
    {
        EnvelopeRouter {
            codec: AuthCodec::new(),
            guard: ReplayGuard::new(window, skew),
            tracker: CorrelationTracker::new(),
        }
    }

    /// Puts a credential on file.
    pub fn enroll(&mut self, credential: Credential)
        requires
            old(self).wf(),
        ensures
            final(self).wf(),
            final(self)@ == (RouterModel {
                credentials: old(self)@.credentials.push(credential@),
                ..old(self)@
            }),
    {
        self.codec.enroll(credential);
    }

    /// Takes in an envelope that arrived on the link of `session`, with the
    /// body as it was received. On success it returns the invocation that
    /// the envelope answers, if it is an answer.
    pub fn accept_inbound(
        &mut self,
        session: &mut HandshakeSession,
        envelope: &Envelope,
        body: &[u8],
        now: u64,
    ) -> (r: Result<Option<PendingInvocation>, Rejection>)
        requires
            old(self).wf(),
        ensures
            final(self).wf(),
            final(self)@ == inbound(old(self)@, old(session)@, envelope@, body@, now).router,
            final(session)@ == inbound(old(self)@, old(session)@, envelope@, body@, now).session,
            reports(r, inbound(old(self)@, old(session)@, envelope@, body@, now).outcome),
    {
        if !envelope.is_complete() {
            return Err(Rejection::MalformedEnvelope);
        }
        match session.expire(now) {
            Err(e) => {
                return Err(Rejection::Session(e));
            },
            Ok(()) => {},
        }
        if !session.admits_inbound(envelope.body) {
            return Err(Rejection::Session(SessionError::SessionNotEstablished));
        }
        match self.codec.verify(envelope, body) {
            Err(e) => {
                return Err(Rejection::Auth(e));
            },
            Ok(()) => {},
        }
        match self.guard.admit_nonce(
            &envelope.sender,
            &envelope.auth.nonce,
            envelope.auth.issued_at,
            now,
        ) {
            Err(e) => {
                return Err(Rejection::Replay(e));
            },
            Ok(()) => {},
        }
        let _ = session.on_receive(envelope.body, &envelope.sender, now);
        if envelope.body.is_reply() {
            match self.tracker.resolve(envelope, now) {
                Ok(entry) => Ok(Some(entry)),
                Err(e) => Err(Rejection::Correlation(e)),
            }
        } else {
            Ok(None)
        }
    }

    /// Lets out a signed envelope on the link of `session`. An Invoke is
    /// registered under its message id, to be answered by `responder` (by
    /// anyone, if `None`) no later than `deadline`.
    pub fn admit_outbound(
        &mut self,
        session: &mut HandshakeSession,
        envelope: &Envelope,
        now: u64,
        deadline: u64,
        responder: Option<AgentIdentity>,
    ) -> (r: Result<(), Rejection>)
        requires
            old(self).wf(),
        ensures
            final(self).wf(),
            final(self)@ == outbound(
                old(self)@,
                old(session)@,
                envelope@.message_id,
                envelope@.body,
                envelope@.correlation_id,
                now,
                deadline,
                opt_identity(responder),
            ).router,
            final(session)@ == outbound(
                old(self)@,
                old(session)@,
                envelope@.message_id,
                envelope@.body,
                envelope@.correlation_id,
                now,
                deadline,
                opt_identity(responder),
            ).session,
            match r {
                Ok(()) => outbound(
                    old(self)@,
                    old(session)@,
                    envelope@.message_id,
                    envelope@.body,
                    envelope@.correlation_id,
                    now,
                    deadline,
                    opt_identity(responder),
                ).outcome is Ok,
                Err(e) => outbound(
                    old(self)@,
                    old(session)@,
                    envelope@.message_id,
                    envelope@.body,
                    envelope@.correlation_id,
                    now,
                    deadline,
                    opt_identity(responder),
                ).outcome == Err::<Option<PendingModel>, Rejection>(e),
            },
    {
        if !envelope.is_complete() {
            return Err(Rejection::MalformedEnvelope);
        }
        match session.expire(now) {
            Err(e) => {
                return Err(Rejection::Session(e));
            },
            Ok(()) => {},
        }
        if !session.admits_outbound(envelope.body) {
            return Err(Rejection::Session(SessionError::SessionNotEstablished));
        }
        if envelope.body == MessageBody::Invoke {
            match self.tracker.register_invoke(
                envelope.message_id.clone(),
                now,
                deadline,
                responder,
            ) {
                Err(e) => {
                    return Err(Rejection::Correlation(e));
                },
                Ok(()) => {},
            }
        }
        let _ = session.on_send(envelope.body, now);
        Ok(())
    }

    /// Wraps an outgoing message in an envelope sent now, with the
    /// authentication data that was made for it, and lets it out on the link
    /// of `session` as [`EnvelopeRouter::admit_outbound`] does. Where no
    /// authentication data could be made, the failure is handed on and
    /// nothing has changed.
    pub fn emit_signed(
        &mut self,
        session: &mut HandshakeSession,
        draft: Draft,
        sender: AgentIdentity,
        signed: Result<AuthContext, SignError>,
        now: u64,
        deadline: u64,
        responder: Option<AgentIdentity>,
    ) -> (r: Result<Envelope, Rejection>)
        requires
            old(self).wf(),
        ensures
            final(self).wf(),
            match signed {
                Err(e) => {
                    &&& r is Err
                    &&& r->Err_0 == Rejection::Signing(e)
                    &&& final(self)@ == old(self)@
                    &&& final(session)@ == old(session)@
                },
                Ok(auth) => {
                    &&& final(self)@ == outbound(
                        old(self)@,
                        old(session)@,
                        draft.message_id@,
                        draft.body,
                        opt_chars(draft.correlation_id),
                        now,
                        deadline,
                        opt_identity(responder),
                    ).router
                    &&& final(session)@ == outbound(
                        old(self)@,
                        old(session)@,
                        draft.message_id@,
                        draft.body,
                        opt_chars(draft.correlation_id),
                        now,
                        deadline,
                        opt_identity(responder),
                    ).session
                    &&& match r {
                        Ok(envelope) => {
                            &&& envelope@.message_id == draft.message_id@
                            &&& envelope@.parent_id == opt_chars(draft.parent_id)
                            &&& envelope@.correlation_id == opt_chars(draft.correlation_id)
                            &&& envelope@.body == draft.body
                            &&& envelope@.sender == sender@
                            &&& envelope@.auth == auth@
                            &&& envelope@.annotations == Map::<String, String>::empty()
                            &&& outbound(
                                old(self)@,
                                old(session)@,
                                draft.message_id@,
                                draft.body,
                                opt_chars(draft.correlation_id),
                                now,
                                deadline,
                                opt_identity(responder),
                            ).outcome is Ok
                        },
                        Err(e) => outbound(
                            old(self)@,
                            old(session)@,
                            draft.message_id@,
                            draft.body,
                            opt_chars(draft.correlation_id),
                            now,
                            deadline,
                            opt_identity(responder),
                        ).outcome == Err::<Option<PendingModel>, Rejection>(e),
                    }
                },
            },
    {
        let auth = match signed {
            Ok(auth) => auth,
            Err(e) => {
                return Err(Rejection::Signing(e));
            },
        };
        let mut envelope = Envelope::new(draft.message_id, sender, auth, draft.body);
        envelope.parent_id = draft.parent_id;
        envelope.correlation_id = draft.correlation_id;
        match self.admit_outbound(session, &envelope, now, deadline, responder) {
            Ok(()) => Ok(envelope),
            Err(e) => Err(e),
        }
    }

    /// Signs an outgoing message, wraps it in an envelope sent now, and lets
    /// it out on the link of `session` as [`EnvelopeRouter::admit_outbound`]
    /// does. The signature is made under HMAC-SHA256 with a fresh nonce and
    /// `now` as the time of issue. Where no nonce can be had, nothing has
    /// changed.
    pub fn emit_outbound(
        &mut self,
        session: &mut HandshakeSession,
        draft: Draft,
        sender: AgentIdentity,
        secret: &[u8],
        body: &[u8],
        now: u64,
        deadline: u64,
        responder: Option<AgentIdentity>,
    ) -> (r: Result<Envelope, Rejection>)
        requires
            old(self).wf(),
        ensures
            final(self).wf(),
            match r {
                Ok(envelope) => {
                    &&& envelope@.message_id == draft.message_id@
                    &&& envelope@.parent_id == opt_chars(draft.parent_id)
                    &&& envelope@.correlation_id == opt_chars(draft.correlation_id)
                    &&& envelope@.body == draft.body
                    &&& envelope@.sender == sender@
                    &&& envelope@.annotations == Map::<String, String>::empty()
                    &&& envelope@.auth == sealed(
                        body@,
                        sender@,
                        secret@,
                        Algorithm::HmacSha256,
                        envelope@.auth.nonce,
                        now,
                    )
                    &&& exists|seed: Seq<u8>|
                        seed.len() == NONCE_BYTES && envelope@.auth.nonce == #[trigger] hex(seed)
                    &&& outbound(
                        old(self)@,
                        old(session)@,
                        draft.message_id@,
                        draft.body,
                        opt_chars(draft.correlation_id),
                        now,
                        deadline,
                        opt_identity(responder),
                    ).outcome is Ok
                },
                Err(Rejection::Signing(_)) => true,
                Err(e) => outbound(
                    old(self)@,
                    old(session)@,
                    draft.message_id@,
                    draft.body,
                    opt_chars(draft.correlation_id),
                    now,
                    deadline,
                    opt_identity(responder),
                ).outcome == Err::<Option<PendingModel>, Rejection>(e),
            },
            r matches Err(Rejection::Signing(_)) ==> final(self)@ == old(self)@ && final(session)@
                == old(session)@,
            !(r matches Err(Rejection::Signing(_))) ==> final(self)@ == outbound(
                old(self)@,
                old(session)@,
                draft.message_id@,
                draft.body,
                opt_chars(draft.correlation_id),
                now,
                deadline,
                opt_identity(responder),
            ).router && final(session)@ == outbound(
                old(self)@,
                old(session)@,
                draft.message_id@,
                draft.body,
                opt_chars(draft.correlation_id),
                now,
                deadline,
                opt_identity(responder),
            ).session,
    {
        let signed = AuthCodec::sign(body, &sender, secret, now);
        self.emit_signed(session, draft, sender, signed, now, deadline, responder)
    }

    /// Closes the link of `session`, for an explicit close or because the
    /// transport went down. The invocations that only its peer could have
    /// answered are taken out, and their correlation ids returned for the
    /// caller to fail them.
    pub fn close(&mut self, session: &mut HandshakeSession) -> (ids: Vec<String>)
        requires
            old(self).wf(),
        ensures
            final(self).wf(),
            final(session)@ == old(session)@.closed(),
            final(self)@.credentials == old(self)@.credentials,
            final(self)@.guard == old(self)@.guard,
            match old(session)@.peer_identity {
                Some(peer) => final(self)@.pending == kept(old(self)@.pending, bound_to(peer))
                    && texts(ids@) == dropped_ids(old(self)@.pending, bound_to(peer)),
                None => final(self)@.pending == old(self)@.pending && ids@.len() == 0,
            },
    {
        let ids = match session.peer_identity() {
            Some(peer) => self.tracker.expire_peer(peer),
            None => Vec::new(),
        };
        session.close();
        ids
    }

    /// Takes out the invocations whose deadline lies before `now` and
    /// returns their correlation ids, in the order of their registration,
    /// for the caller to fail them with a timeout. The replay guard drops
    /// the records that have left its window.
    pub fn sweep(&mut self, now: u64) -> (ids: Vec<String>)
        requires
            old(self).wf(),
        ensures
            final(self).wf(),
            final(self)@ == (RouterModel {
                credentials: old(self)@.credentials,
                guard: GuardModel {
                    records: purged(old(self)@.guard.records, old(self)@.guard.window, now),
                    ..old(self)@.guard
                },
                pending: kept(old(self)@.pending, overdue_at(now)),
            }),
            texts(ids@) == dropped_ids(old(self)@.pending, overdue_at(now)),
    {
        self.guard.purge(now);
        self.tracker.sweep(now)
    }
}

/// An answer whose authentication data holds and whose nonce is new, but
/// which comes from another sender than the pending invocation expects, is
/// refused with `ResponderMismatch`, and the invocation stays pending.
pub proof fn verified_answer_from_another_sender_is_refused(
    router: RouterModel,
    session: SessionModel,
    envelope: EnvelopeModel,
    body: Seq<u8>,
    now: u64,
)
    requires
        envelope.body.answers(),
        envelope.correlation_id is Some,
        session.receive_outcome(envelope.body, now) is Ok,
        verdict(router.credentials, envelope.sender, envelope.auth, body) is Ok,
        router.guard.admission(envelope.sender, envelope.auth.nonce, envelope.auth.issued_at, now)
            is Ok,
        crate::correlation::place_of(router.pending, envelope.correlation_id->0) is Some,
        !router.pending[crate::correlation::place_of(
            router.pending,
            envelope.correlation_id->0,
        )->0].expects(envelope.sender),
    ensures
        inbound(router, session, envelope, body, now).outcome == Err::<
            Option<PendingModel>,
            Rejection,
        >(Rejection::Correlation(CorrelationError::ResponderMismatch)),
        inbound(router, session, envelope, body, now).router.pending == router.pending,
{
}

/// No application traffic is taken in before the session is established:
/// whatever its authentication data, an envelope other than a HandshakeAck
/// is refused by the session, and neither the replay guard nor the tracker
/// learns of it.
pub proof fn traffic_before_establishment_is_refused(
    router: RouterModel,
    session: SessionModel,
    envelope: EnvelopeModel,
    body: Seq<u8>,
    now: u64,
)
    requires
        envelope.complete(),
        session.state != crate::session::SessionState::Established,
        envelope.body != MessageBody::HandshakeAck,
    ensures
        inbound(router, session, envelope, body, now).outcome is Err,
        inbound(router, session, envelope, body, now).outcome->Err_0 is Session,
        inbound(router, session, envelope, body, now).router == router,
{
}

/// An envelope that was taken in is refused as a replay when it arrives a
/// second time while its time of issue is inside the window and the session
/// still lets its family in.
pub proof fn envelope_taken_in_twice_is_replay(
    router: RouterModel,
    session: SessionModel,
    envelope: EnvelopeModel,
    body: Seq<u8>,
    first_now: u64,
    now: u64,
)
    requires
        inbound(router, session, envelope, body, first_now).outcome is Ok,
        inbound(router, session, envelope, body, first_now).session.receive_outcome(
            envelope.body,
            now,
        ) is Ok,
        crate::replay::timely(router.guard.window, router.guard.skew, envelope.auth.issued_at, now),
    ensures
        inbound(
            inbound(router, session, envelope, body, first_now).router,
            inbound(router, session, envelope, body, first_now).session,
            envelope,
            body,
            now,
        ).outcome == Err::<Option<PendingModel>, Rejection>(
            Rejection::Replay(ReplayError::NonceReplay),
        ),
{
    crate::replay::resubmission_inside_window_is_replay(
        router.guard,
        envelope.sender,
        envelope.auth.nonce,
        envelope.auth.issued_at,
        first_now,
        envelope.auth.issued_at,
        now,
    );
}

/// What its sender signed is taken in: an envelope that is no answer, signed
/// with the secret on file for its sender under a permitted algorithm,
/// dated inside the window, with a nonce that its sender has not used inside
/// the window, passes every station of an established session, and its
/// nonce is recorded.
pub proof fn signed_timely_envelope_is_taken_in(
    router: RouterModel,
    session: SessionModel,
    envelope: EnvelopeModel,
    body: Seq<u8>,
    algorithm: Algorithm,
    now: u64,
)
    requires
        session.state == crate::session::SessionState::Established,
        envelope.body != MessageBody::HandshakeAck,
        !envelope.body.answers(),
        crate::auth::on_file(router.credentials, envelope.sender) is Some,
        crate::auth::on_file(router.credentials, envelope.sender)->0.algorithms.contains(algorithm),
        envelope.auth == sealed(
            body,
            envelope.sender,
            crate::auth::on_file(router.credentials, envelope.sender)->0.secret,
            algorithm,
            envelope.auth.nonce,
            envelope.auth.issued_at,
        ),
        crate::replay::timely(router.guard.window, router.guard.skew, envelope.auth.issued_at, now),
        !crate::replay::seen(
            purged(router.guard.records, router.guard.window, now),
            envelope.sender,
            envelope.auth.nonce,
        ),
    ensures
        inbound(router, session, envelope, body, now).outcome == Ok::<
            Option<PendingModel>,
            Rejection,
        >(None),
        inbound(router, session, envelope, body, now).session == session,
        inbound(router, session, envelope, body, now).router.pending == router.pending,
        inbound(router, session, envelope, body, now).router.guard.records == purged(
            router.guard.records,
            router.guard.window,
            now,
        ).push(
            crate::replay::RecordModel {
                identity: envelope.sender,
                nonce: envelope.auth.nonce,
                issued_at: envelope.auth.issued_at,
            },
        ),
{
    crate::auth::signed_body_verifies(
        router.credentials,
        envelope.sender,
        crate::auth::on_file(router.credentials, envelope.sender)->0.secret,
        algorithm,
        body,
        envelope.auth.nonce,
        envelope.auth.issued_at,
    );
}

} // verus!
