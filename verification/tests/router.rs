use pap::auth::{Algorithm, AuthCodec, AuthError, Credential, SignError};
use pap::correlation::CorrelationError;
use pap::envelope::{Envelope, MessageBody};
use pap::identity::AgentIdentity;
use pap::replay::ReplayError;
use pap::router::{Draft, EnvelopeRouter, Rejection};
use pap::session::{HandshakeSession, SessionError, SessionState};

const SAT_SECRET: &[u8] = b"satellite-secret";
const STATION_SECRET: &[u8] = b"station-secret";

fn sat() -> AgentIdentity {
    AgentIdentity::new("sat-1".to_string(), "edge".to_string())
}

fn hub() -> AgentIdentity {
    AgentIdentity::new("station".to_string(), "core".to_string())
}

fn endpoint() -> EnvelopeRouter {
    let mut router = EnvelopeRouter::new(300, 5);
    router.enroll(Credential {
        identity: sat(),
        secret: SAT_SECRET.to_vec(),
        algorithms: vec![Algorithm::HmacSha256],
    });
    router.enroll(Credential {
        identity: hub(),
        secret: STATION_SECRET.to_vec(),
        algorithms: vec![Algorithm::HmacSha256],
    });
    router
}

fn envelope(
    id: &str,
    sender: AgentIdentity,
    secret: &[u8],
    family: MessageBody,
    correlation: Option<&str>,
    body: &[u8],
    nonce: &str,
    issued_at: u64,
) -> Envelope {
    let auth = AuthCodec::sign_with(
        body,
        &sender,
        secret,
        Algorithm::HmacSha256,
        nonce.to_string(),
        issued_at,
    );
    let mut envelope = Envelope::new(id.to_string(), sender, auth, family);
    envelope.correlation_id = correlation.map(|c| c.to_string());
    envelope
}

fn rejection<T>(result: Result<T, Rejection>) -> Rejection {
    match result {
        Ok(_) => panic!("expected a rejection"),
        Err(e) => e,
    }
}

fn link_to_hub(router: &mut EnvelopeRouter) -> HandshakeSession {
    let mut session = HandshakeSession::new(100);
    let proof = envelope("h1", sat(), SAT_SECRET, MessageBody::HandshakeAck, None, b"", "h-1", 0);
    assert_eq!(router.admit_outbound(&mut session, &proof, 0, 0, None), Ok(()));
    let ack = envelope("h2", hub(), STATION_SECRET, MessageBody::HandshakeAck, None, b"", "h-2", 1);
    assert!(matches!(router.accept_inbound(&mut session, &ack, b"", 1), Ok(None)));
    assert_eq!(session.state(), SessionState::Established);
    session
}

#[test]
fn a_new_router_is_empty() {
    let router = EnvelopeRouter::new(300, 5);
    assert_eq!(router.guard.window(), 300);
    assert_eq!(router.guard.skew(), 5);
    assert_eq!(router.guard.len(), 0);
    assert_eq!(router.tracker.len(), 0);
    assert!(!router.codec.knows(&sat()));
}

#[test]
fn the_handshake_establishes_the_session_on_both_sides() {
    let mut satellite_side = endpoint();
    let mut station_side = endpoint();
    let mut at_satellite = HandshakeSession::new(100);
    let mut at_station = HandshakeSession::new(100);
    let proof = envelope("h1", sat(), SAT_SECRET, MessageBody::HandshakeAck, None, b"hi", "h-1", 0);
    assert_eq!(satellite_side.admit_outbound(&mut at_satellite, &proof, 0, 0, None), Ok(()));
    assert_eq!(at_satellite.state(), SessionState::AwaitingAck);
    assert!(matches!(station_side.accept_inbound(&mut at_station, &proof, b"hi", 1), Ok(None)));
    assert_eq!(at_station.state(), SessionState::Established);
    assert_eq!(*at_station.peer_identity(), Some(sat()));
    assert_eq!(at_station.established_at(), Some(1));
    let ack = envelope("h2", hub(), STATION_SECRET, MessageBody::HandshakeAck, None, b"", "h-2", 1);
    assert_eq!(station_side.admit_outbound(&mut at_station, &ack, 1, 0, None), Ok(()));
    assert!(matches!(satellite_side.accept_inbound(&mut at_satellite, &ack, b"", 2), Ok(None)));
    assert_eq!(at_satellite.state(), SessionState::Established);
    assert_eq!(*at_satellite.peer_identity(), Some(hub()));
    assert_eq!(at_satellite.established_at(), Some(2));
}

#[test]
fn an_invoke_is_registered_and_its_response_resolved() {
    let mut router = endpoint();
    let mut session = link_to_hub(&mut router);
    let invoke = envelope("m1", sat(), SAT_SECRET, MessageBody::Invoke, None, b"do", "n-1", 2);
    assert_eq!(router.admit_outbound(&mut session, &invoke, 2, 32, Some(hub())), Ok(()));
    assert!(router.tracker.is_pending(&"m1".to_string()));
    let response =
        envelope("m2", hub(), STATION_SECRET, MessageBody::Response, Some("m1"), b"ok", "n-2", 10);
    let entry = router
        .accept_inbound(&mut session, &response, b"ok", 12)
        .expect("accepted")
        .expect("an answer");
    assert_eq!(entry.correlation_id, "m1");
    assert_eq!(entry.initiated_at, 2);
    assert_eq!(entry.deadline, 32);
    assert_eq!(entry.responder, Some(hub()));
    assert_eq!(router.tracker.len(), 0);
    let duplicate =
        envelope("m3", hub(), STATION_SECRET, MessageBody::Response, Some("m1"), b"ok", "n-3", 11);
    assert_eq!(
        rejection(router.accept_inbound(&mut session, &duplicate, b"ok", 13)),
        Rejection::Correlation(CorrelationError::UnknownCorrelation)
    );
    assert_eq!(session.state(), SessionState::Established);
}

#[test]
fn an_event_is_taken_in_without_touching_the_tracker() {
    let mut router = endpoint();
    let mut session = link_to_hub(&mut router);
    assert_eq!(router.tracker.register_invoke("m1".to_string(), 0, 50, None), Ok(()));
    let event = envelope("e1", hub(), STATION_SECRET, MessageBody::Event, Some("m1"), b"x", "n", 5);
    assert!(matches!(router.accept_inbound(&mut session, &event, b"x", 5), Ok(None)));
    assert_eq!(router.tracker.len(), 1);
}

#[test]
fn an_answer_without_correlation_id_is_malformed() {
    let mut router = endpoint();
    let mut session = link_to_hub(&mut router);
    let records = router.guard.len();
    let response = envelope("m2", hub(), STATION_SECRET, MessageBody::Response, None, b"", "n", 5);
    assert_eq!(
        rejection(router.accept_inbound(&mut session, &response, b"", 5)),
        Rejection::MalformedEnvelope
    );
    assert_eq!(router.admit_outbound(&mut session, &response, 5, 9, None), Err(Rejection::MalformedEnvelope));
    assert_eq!(router.guard.len(), records);
}

#[test]
fn application_traffic_before_the_handshake_is_refused() {
    let mut router = endpoint();
    let mut session = HandshakeSession::new(100);
    let invoke = envelope("m1", hub(), STATION_SECRET, MessageBody::Invoke, None, b"", "n", 5);
    assert_eq!(
        rejection(router.accept_inbound(&mut session, &invoke, b"", 5)),
        Rejection::Session(SessionError::SessionNotEstablished)
    );
    assert_eq!(
        router.admit_outbound(&mut session, &invoke, 5, 9, None),
        Err(Rejection::Session(SessionError::SessionNotEstablished))
    );
    assert_eq!(router.guard.len(), 0);
    assert_eq!(router.tracker.len(), 0);
    assert_eq!(session.state(), SessionState::Unauthenticated);
}

#[test]
fn a_late_acknowledgement_is_a_handshake_timeout() {
    let mut router = endpoint();
    let mut session = HandshakeSession::new(100);
    let proof = envelope("h1", sat(), SAT_SECRET, MessageBody::HandshakeAck, None, b"", "h-1", 0);
    assert_eq!(router.admit_outbound(&mut session, &proof, 0, 0, None), Ok(()));
    let ack = envelope("h2", hub(), STATION_SECRET, MessageBody::HandshakeAck, None, b"", "h-2", 101);
    assert_eq!(
        rejection(router.accept_inbound(&mut session, &ack, b"", 101)),
        Rejection::Session(SessionError::HandshakeTimeout)
    );
    assert_eq!(session.state(), SessionState::Closed);
    assert_eq!(
        router.admit_outbound(&mut session, &proof, 102, 0, None),
        Err(Rejection::Session(SessionError::SessionNotEstablished))
    );
}

#[test]
fn an_unverified_handshake_ack_does_not_establish_the_session() {
    let mut router = endpoint();
    let mut session = HandshakeSession::new(100);
    let forged = envelope("h1", hub(), b"guess", MessageBody::HandshakeAck, None, b"", "h-1", 0);
    assert_eq!(
        rejection(router.accept_inbound(&mut session, &forged, b"", 0)),
        Rejection::Auth(AuthError::BadSignature)
    );
    assert_eq!(session.state(), SessionState::Unauthenticated);
    assert_eq!(router.guard.len(), 0);
}

#[test]
fn every_authentication_failure_reaches_the_caller() {
    let mut router = endpoint();
    let mut session = link_to_hub(&mut router);
    let records = router.guard.len();
    let event = envelope("e1", hub(), STATION_SECRET, MessageBody::Event, None, b"body", "n", 5);
    assert_eq!(
        rejection(router.accept_inbound(&mut session, &event, b"bodz", 5)),
        Rejection::Auth(AuthError::PayloadMismatch)
    );
    let mut other = envelope("e1", hub(), STATION_SECRET, MessageBody::Event, None, b"body", "n", 5);
    other.auth.algorithm = "Ed25519".to_string();
    assert_eq!(
        rejection(router.accept_inbound(&mut session, &other, b"body", 5)),
        Rejection::Auth(AuthError::UnknownAlgorithm)
    );
    let stranger = AgentIdentity::new("sat-9".to_string(), "edge".to_string());
    let unknown = envelope("e1", stranger, b"k", MessageBody::Event, None, b"body", "n", 5);
    assert_eq!(
        rejection(router.accept_inbound(&mut session, &unknown, b"body", 5)),
        Rejection::Auth(AuthError::UnknownSender)
    );
    let forged = envelope("e1", hub(), SAT_SECRET, MessageBody::Event, None, b"body", "n", 5);
    assert_eq!(
        rejection(router.accept_inbound(&mut session, &forged, b"body", 5)),
        Rejection::Auth(AuthError::BadSignature)
    );
    assert_eq!(router.guard.len(), records);
    assert!(matches!(router.accept_inbound(&mut session, &event, b"body", 5), Ok(None)));
}

#[test]
fn an_envelope_delivered_twice_is_a_replay() {
    let mut router = endpoint();
    let mut session = link_to_hub(&mut router);
    let event = envelope("e1", hub(), STATION_SECRET, MessageBody::Event, None, b"x", "n-7", 5);
    assert!(matches!(router.accept_inbound(&mut session, &event, b"x", 5), Ok(None)));
    assert_eq!(
        rejection(router.accept_inbound(&mut session, &event, b"x", 6)),
        Rejection::Replay(ReplayError::NonceReplay)
    );
    assert_eq!(
        rejection(router.accept_inbound(&mut session, &event, b"x", 306)),
        Rejection::Replay(ReplayError::StaleTimestamp)
    );
    let early = envelope("e2", hub(), STATION_SECRET, MessageBody::Event, None, b"x", "n-8", 400);
    assert_eq!(
        rejection(router.accept_inbound(&mut session, &early, b"x", 394)),
        Rejection::Replay(ReplayError::StaleTimestamp)
    );
}

#[test]
fn a_replayed_response_does_not_resolve_anything() {
    let mut router = endpoint();
    let mut session = link_to_hub(&mut router);
    let invoke = envelope("m1", sat(), SAT_SECRET, MessageBody::Invoke, None, b"", "n-1", 2);
    assert_eq!(router.admit_outbound(&mut session, &invoke, 2, 32, None), Ok(()));
    let response =
        envelope("m2", hub(), STATION_SECRET, MessageBody::Response, Some("m1"), b"", "n-2", 3);
    assert!(matches!(router.accept_inbound(&mut session, &response, b"", 3), Ok(Some(_))));
    let again = envelope("m3", sat(), SAT_SECRET, MessageBody::Invoke, None, b"", "n-3", 4);
    assert_eq!(router.admit_outbound(&mut session, &again, 4, 34, None), Ok(()));
    assert_eq!(
        rejection(router.accept_inbound(&mut session, &response, b"", 5)),
        Rejection::Replay(ReplayError::NonceReplay)
    );
    assert!(router.tracker.is_pending(&"m3".to_string()));
}

#[test]
fn a_verified_response_from_another_sender_is_a_responder_mismatch() {
    let mut router = endpoint();
    let mut session = link_to_hub(&mut router);
    let invoke = envelope("m1", sat(), SAT_SECRET, MessageBody::Invoke, None, b"", "n-1", 2);
    assert_eq!(router.admit_outbound(&mut session, &invoke, 2, 32, Some(hub())), Ok(()));
    let spoofed = envelope("m2", sat(), SAT_SECRET, MessageBody::Response, Some("m1"), b"", "n-2", 3);
    assert_eq!(router.codec.verify(&spoofed, b""), Ok(()));
    assert_eq!(
        rejection(router.accept_inbound(&mut session, &spoofed, b"", 3)),
        Rejection::Correlation(CorrelationError::ResponderMismatch)
    );
    assert!(router.tracker.is_pending(&"m1".to_string()));
    let genuine =
        envelope("m3", hub(), STATION_SECRET, MessageBody::Response, Some("m1"), b"", "n-3", 4);
    assert!(matches!(router.accept_inbound(&mut session, &genuine, b"", 4), Ok(Some(_))));
}

#[test]
fn a_response_after_the_deadline_is_expired() {
    let mut router = endpoint();
    let mut session = link_to_hub(&mut router);
    let invoke = envelope("m1", sat(), SAT_SECRET, MessageBody::Invoke, None, b"", "n-1", 2);
    assert_eq!(router.admit_outbound(&mut session, &invoke, 2, 30, None), Ok(()));
    let late = envelope("m2", hub(), STATION_SECRET, MessageBody::Response, Some("m1"), b"", "n-2", 40);
    assert_eq!(
        rejection(router.accept_inbound(&mut session, &late, b"", 40)),
        Rejection::Correlation(CorrelationError::Expired)
    );
    assert_eq!(router.tracker.len(), 0);
}

#[test]
fn sending_an_invoke_under_a_pending_id_is_a_duplicate() {
    let mut router = endpoint();
    let mut session = link_to_hub(&mut router);
    let invoke = envelope("m1", sat(), SAT_SECRET, MessageBody::Invoke, None, b"", "n-1", 2);
    assert_eq!(router.admit_outbound(&mut session, &invoke, 2, 32, None), Ok(()));
    assert_eq!(
        router.admit_outbound(&mut session, &invoke, 3, 33, None),
        Err(Rejection::Correlation(CorrelationError::DuplicateCorrelation))
    );
    assert_eq!(router.tracker.len(), 1);
    let event = envelope("m1", sat(), SAT_SECRET, MessageBody::Event, None, b"", "n-2", 2);
    assert_eq!(router.admit_outbound(&mut session, &event, 3, 33, None), Ok(()));
    assert_eq!(router.tracker.len(), 1);
}

#[test]
fn closing_a_link_fails_what_only_its_peer_could_answer() {
    let mut router = endpoint();
    let mut session = link_to_hub(&mut router);
    for (id, responder) in [("a", Some(hub())), ("b", None), ("c", Some(sat())), ("d", Some(hub()))] {
        let invoke = envelope(id, sat(), SAT_SECRET, MessageBody::Invoke, None, b"", id, 2);
        assert_eq!(router.admit_outbound(&mut session, &invoke, 2, 32, responder), Ok(()));
    }
    assert_eq!(router.close(&mut session), vec!["a".to_string(), "d".to_string()]);
    assert_eq!(session.state(), SessionState::Closed);
    assert_eq!(router.tracker.len(), 2);
    let late = envelope("r", hub(), STATION_SECRET, MessageBody::Response, Some("a"), b"", "n", 3);
    assert_eq!(
        rejection(router.accept_inbound(&mut session, &late, b"", 3)),
        Rejection::Session(SessionError::SessionNotEstablished)
    );
    let mut fresh = HandshakeSession::new(100);
    assert_eq!(router.close(&mut fresh), Vec::<String>::new());
    assert_eq!(fresh.state(), SessionState::Closed);
    assert_eq!(router.tracker.len(), 2);
}

#[test]
fn sweeping_the_router_reports_timeouts_and_purges_the_guard() {
    let mut router = endpoint();
    let mut session = link_to_hub(&mut router);
    let one = envelope("m1", sat(), SAT_SECRET, MessageBody::Invoke, None, b"", "n-1", 2);
    let two = envelope("m2", sat(), SAT_SECRET, MessageBody::Invoke, None, b"", "n-2", 2);
    assert_eq!(router.admit_outbound(&mut session, &one, 2, 30, None), Ok(()));
    assert_eq!(router.admit_outbound(&mut session, &two, 2, 400, None), Ok(()));
    assert_eq!(router.guard.len(), 1);
    assert_eq!(router.sweep(30), Vec::<String>::new());
    assert_eq!(router.sweep(31), vec!["m1".to_string()]);
    assert_eq!(router.guard.len(), 1);
    assert_eq!(router.sweep(302), Vec::<String>::new());
    assert_eq!(router.guard.len(), 0);
    assert_eq!(router.sweep(401), vec!["m2".to_string()]);
    assert_eq!(router.sweep(401), Vec::<String>::new());
}

#[test]
fn an_emitted_invoke_is_signed_registered_and_verifies() {
    let mut router = endpoint();
    let mut session = link_to_hub(&mut router);
    let draft = Draft {
        message_id: "m1".to_string(),
        parent_id: Some("p0".to_string()),
        correlation_id: None,
        body: MessageBody::Invoke,
    };
    let envelope = router
        .emit_outbound(&mut session, draft, sat(), SAT_SECRET, b"do it", 7, 37, Some(hub()))
        .expect("emitted");
    assert_eq!(envelope.message_id, "m1");
    assert_eq!(envelope.parent_id, Some("p0".to_string()));
    assert_eq!(envelope.correlation_id, None);
    assert_eq!(envelope.body, MessageBody::Invoke);
    assert_eq!(envelope.sender, sat());
    assert!(envelope.annotations.is_empty());
    assert_eq!(envelope.auth.issued_at, 7);
    assert_eq!(envelope.auth.algorithm, "HMAC-SHA256");
    assert_eq!(envelope.auth.nonce.len(), 32);
    assert_eq!(router.codec.verify(&envelope, b"do it"), Ok(()));
    assert_eq!(router.codec.verify(&envelope, b"do iT"), Err(AuthError::PayloadMismatch));
    let entry = router.tracker.cancel(&"m1".to_string()).expect("registered");
    assert_eq!(entry.initiated_at, 7);
    assert_eq!(entry.deadline, 37);
    assert_eq!(entry.responder, Some(hub()));
}

#[test]
fn emitting_is_gated_like_admitting() {
    let mut router = endpoint();
    let mut fresh = HandshakeSession::new(100);
    let invoke = || Draft {
        message_id: "m1".to_string(),
        parent_id: None,
        correlation_id: None,
        body: MessageBody::Invoke,
    };
    assert_eq!(
        rejection(router.emit_outbound(&mut fresh, invoke(), sat(), SAT_SECRET, b"", 1, 9, None)),
        Rejection::Session(SessionError::SessionNotEstablished)
    );
    assert_eq!(router.tracker.len(), 0);
    let mut session = link_to_hub(&mut router);
    assert!(router.emit_outbound(&mut session, invoke(), sat(), SAT_SECRET, b"", 1, 9, None).is_ok());
    assert_eq!(
        rejection(router.emit_outbound(&mut session, invoke(), sat(), SAT_SECRET, b"", 2, 9, None)),
        Rejection::Correlation(CorrelationError::DuplicateCorrelation)
    );
    let nameless = Draft {
        message_id: "m2".to_string(),
        parent_id: None,
        correlation_id: None,
        body: MessageBody::Error,
    };
    assert_eq!(
        rejection(router.emit_outbound(&mut session, nameless, sat(), SAT_SECRET, b"", 2, 9, None)),
        Rejection::MalformedEnvelope
    );
    let answer = Draft {
        message_id: "m3".to_string(),
        parent_id: None,
        correlation_id: Some("q1".to_string()),
        body: MessageBody::Response,
    };
    let envelope = router
        .emit_outbound(&mut session, answer, sat(), SAT_SECRET, b"", 2, 9, None)
        .expect("emitted");
    assert_eq!(envelope.correlation_id, Some("q1".to_string()));
    assert_eq!(router.tracker.len(), 1);
}

#[test]
fn an_emitted_handshake_starts_the_wait() {
    let mut router = endpoint();
    let mut session = HandshakeSession::new(100);
    let proof = Draft {
        message_id: "h1".to_string(),
        parent_id: None,
        correlation_id: None,
        body: MessageBody::HandshakeAck,
    };
    let envelope = router
        .emit_outbound(&mut session, proof, sat(), SAT_SECRET, b"hello", 5, 0, None)
        .expect("emitted");
    assert_eq!(session.state(), SessionState::AwaitingAck);
    assert_eq!(router.tracker.len(), 0);
    let mut station_side = endpoint();
    let mut at_station = HandshakeSession::new(100);
    assert!(matches!(
        station_side.accept_inbound(&mut at_station, &envelope, b"hello", 6),
        Ok(None)
    ));
    assert_eq!(*at_station.peer_identity(), Some(sat()));
}

#[test]
fn a_failed_signature_is_handed_on_and_changes_nothing() {
    let mut router = endpoint();
    let mut session = HandshakeSession::new(100);
    let proof = Draft {
        message_id: "h1".to_string(),
        parent_id: None,
        correlation_id: None,
        body: MessageBody::HandshakeAck,
    };
    let outcome = router.emit_signed(
        &mut session,
        proof,
        sat(),
        Err(SignError::EntropyUnavailable),
        5,
        0,
        None,
    );
    assert_eq!(rejection(outcome), Rejection::Signing(SignError::EntropyUnavailable));
    assert_eq!(session.state(), SessionState::Unauthenticated);
    let mut session = link_to_hub(&mut router);
    let invoke = Draft {
        message_id: "m1".to_string(),
        parent_id: None,
        correlation_id: None,
        body: MessageBody::Invoke,
    };
    let outcome = router.emit_signed(
        &mut session,
        invoke,
        sat(),
        Err(SignError::EntropyUnavailable),
        5,
        9,
        None,
    );
    assert_eq!(rejection(outcome), Rejection::Signing(SignError::EntropyUnavailable));
    assert_eq!(router.tracker.len(), 0);
    assert_eq!(session.state(), SessionState::Established);
}

#[test]
fn an_envelope_emitted_with_given_auth_carries_it() {
    let mut router = endpoint();
    let mut session = link_to_hub(&mut router);
    let auth = AuthCodec::sign_with(
        b"do",
        &sat(),
        SAT_SECRET,
        Algorithm::HmacSha256,
        "n-77".to_string(),
        5,
    );
    let signature = auth.signature.clone();
    let invoke = Draft {
        message_id: "m1".to_string(),
        parent_id: None,
        correlation_id: None,
        body: MessageBody::Invoke,
    };
    let envelope = router
        .emit_signed(&mut session, invoke, sat(), Ok(auth), 5, 35, None)
        .expect("emitted");
    assert_eq!(envelope.auth.nonce, "n-77");
    assert_eq!(envelope.auth.signature, signature);
    assert_eq!(envelope.message_id, "m1");
    assert!(router.tracker.is_pending(&"m1".to_string()));
    assert_eq!(router.codec.verify(&envelope, b"do"), Ok(()));
}
