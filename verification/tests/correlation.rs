use pap::auth::{Algorithm, AuthCodec};
use pap::correlation::{CorrelationError, CorrelationTracker};
use pap::envelope::{Envelope, MessageBody};
use pap::identity::AgentIdentity;

fn satellite_one() -> AgentIdentity {
    let mut id = AgentIdentity::new("sat-1".to_string(), "edge".to_string());
    id.version = None;
    id
}

fn station_one() -> AgentIdentity {
    AgentIdentity::new("station".to_string(), "core".to_string())
}

fn answer(family: MessageBody, sender: AgentIdentity, correlation: Option<&str>) -> Envelope {
    let auth = AuthCodec::sign_with(b"", &sender, b"k", Algorithm::HmacSha256, "n".to_string(), 0);
    let mut envelope = Envelope::new("r1".to_string(), sender, auth, family);
    envelope.correlation_id = correlation.map(|c| c.to_string());
    envelope
}

fn error_of<T>(result: Result<T, CorrelationError>) -> CorrelationError {
    match result {
        Ok(_) => panic!("expected an error"),
        Err(e) => e,
    }
}

#[test]
fn a_new_tracker_has_nothing_pending() {
    let tracker = CorrelationTracker::new();
    assert_eq!(tracker.len(), 0);
    assert!(!tracker.is_pending(&"m1".to_string()));
}

#[test]
fn registering_makes_an_id_pending() {
    let mut tracker = CorrelationTracker::new();
    assert_eq!(tracker.register_invoke("m1".to_string(), 0, 30, None), Ok(()));
    assert!(tracker.is_pending(&"m1".to_string()));
    assert!(!tracker.is_pending(&"m2".to_string()));
    assert_eq!(tracker.len(), 1);
}

#[test]
fn registering_a_pending_id_again_is_a_duplicate() {
    let mut tracker = CorrelationTracker::new();
    assert_eq!(tracker.register_invoke("m1".to_string(), 0, 30, None), Ok(()));
    assert_eq!(
        tracker.register_invoke("m1".to_string(), 5, 60, Some(station_one())),
        Err(CorrelationError::DuplicateCorrelation)
    );
    assert_eq!(tracker.len(), 1);
    let entry = tracker.cancel(&"m1".to_string()).expect("pending");
    assert_eq!(entry.deadline, 30);
    assert_eq!(entry.responder, None);
}

#[test]
fn a_satellite_invokes_and_the_station_responds() {
    let mut tracker = CorrelationTracker::new();
    assert_eq!(tracker.register_invoke("m1".to_string(), 0, 30, None), Ok(()));
    let response = answer(MessageBody::Response, station_one(), Some("m1"));
    let entry = tracker.resolve(&response, 10).expect("the pending entry");
    assert_eq!(entry.correlation_id, "m1");
    assert_eq!(entry.initiated_at, 0);
    assert_eq!(entry.deadline, 30);
    assert_eq!(entry.responder, None);
    assert_eq!(tracker.len(), 0);
    assert_eq!(
        error_of(tracker.resolve(&response, 11)),
        CorrelationError::UnknownCorrelation
    );
    assert_eq!(
        error_of(tracker.resolve(&response, 40)),
        CorrelationError::UnknownCorrelation
    );
}

#[test]
fn an_answer_after_the_deadline_is_expired_and_takes_the_entry_along() {
    let mut tracker = CorrelationTracker::new();
    assert_eq!(tracker.register_invoke("m1".to_string(), 0, 30, None), Ok(()));
    let response = answer(MessageBody::Response, station_one(), Some("m1"));
    assert_eq!(error_of(tracker.resolve(&response, 40)), CorrelationError::Expired);
    assert_eq!(tracker.len(), 0);
    assert_eq!(
        error_of(tracker.resolve(&response, 41)),
        CorrelationError::UnknownCorrelation
    );
    assert_eq!(
        error_of(tracker.resolve(&response, 10)),
        CorrelationError::UnknownCorrelation
    );
}

#[test]
fn an_answer_at_the_deadline_is_in_time() {
    let mut tracker = CorrelationTracker::new();
    assert_eq!(tracker.register_invoke("m1".to_string(), 0, 30, None), Ok(()));
    let response = answer(MessageBody::Response, station_one(), Some("m1"));
    assert!(tracker.resolve(&response, 30).is_ok());
    assert_eq!(tracker.register_invoke("m2".to_string(), 0, 30, None), Ok(()));
    let late = answer(MessageBody::Error, station_one(), Some("m2"));
    assert_eq!(error_of(tracker.resolve(&late, 31)), CorrelationError::Expired);
}

#[test]
fn of_two_answers_to_c1_exactly_one_resolves() {
    let mut tracker = CorrelationTracker::new();
    assert_eq!(tracker.register_invoke("c1".to_string(), 0, 30, None), Ok(()));
    let first = answer(MessageBody::Response, station_one(), Some("c1"));
    let second = answer(MessageBody::Error, station_one(), Some("c1"));
    let outcomes = [tracker.resolve(&first, 5), tracker.resolve(&second, 5)];
    let successes = outcomes.iter().filter(|o| o.is_ok()).count();
    let unknown = outcomes
        .iter()
        .filter(|o| matches!(o, Err(CorrelationError::UnknownCorrelation)))
        .count();
    assert_eq!(successes, 1);
    assert_eq!(unknown, 1);
    assert!(outcomes[0].is_ok());
}

#[test]
fn an_answer_from_another_sender_is_a_mismatch_and_leaves_the_entry() {
    let mut tracker = CorrelationTracker::new();
    assert_eq!(
        tracker.register_invoke("m1".to_string(), 0, 30, Some(station_one())),
        Ok(())
    );
    let spoofed = answer(MessageBody::Response, satellite_one(), Some("m1"));
    assert_eq!(
        error_of(tracker.resolve(&spoofed, 10)),
        CorrelationError::ResponderMismatch
    );
    assert!(tracker.is_pending(&"m1".to_string()));
    assert_eq!(
        error_of(tracker.resolve(&spoofed, 40)),
        CorrelationError::ResponderMismatch
    );
    assert!(tracker.is_pending(&"m1".to_string()));
    let genuine = answer(MessageBody::Response, station_one(), Some("m1"));
    let entry = tracker.resolve(&genuine, 10).expect("the pending entry");
    assert_eq!(entry.responder, Some(station_one()));
    assert_eq!(tracker.len(), 0);
}

#[test]
fn an_answer_to_nothing_pending_is_unknown() {
    let mut tracker = CorrelationTracker::new();
    assert_eq!(tracker.register_invoke("m1".to_string(), 0, 30, None), Ok(()));
    let orphan = answer(MessageBody::Response, station_one(), Some("m9"));
    assert_eq!(
        error_of(tracker.resolve(&orphan, 10)),
        CorrelationError::UnknownCorrelation
    );
    assert_eq!(tracker.len(), 1);
}

#[test]
fn an_envelope_that_is_no_answer_resolves_nothing() {
    let mut tracker = CorrelationTracker::new();
    assert_eq!(tracker.register_invoke("m1".to_string(), 0, 30, None), Ok(()));
    for family in [
        MessageBody::Invoke,
        MessageBody::Event,
        MessageBody::Control,
        MessageBody::HandshakeAck,
    ] {
        let envelope = answer(family, station_one(), Some("m1"));
        assert_eq!(
            error_of(tracker.resolve(&envelope, 10)),
            CorrelationError::UnknownCorrelation
        );
    }
    let nameless = answer(MessageBody::Response, station_one(), None);
    assert_eq!(
        error_of(tracker.resolve(&nameless, 10)),
        CorrelationError::UnknownCorrelation
    );
    assert_eq!(tracker.len(), 1);
}

#[test]
fn a_cancelled_invocation_is_not_reinstated_by_its_answer() {
    let mut tracker = CorrelationTracker::new();
    assert_eq!(tracker.register_invoke("m1".to_string(), 3, 30, None), Ok(()));
    assert_eq!(tracker.register_invoke("m2".to_string(), 4, 30, None), Ok(()));
    let entry = tracker.cancel(&"m1".to_string()).expect("pending");
    assert_eq!(entry.correlation_id, "m1");
    assert_eq!(entry.initiated_at, 3);
    assert!(tracker.cancel(&"m1".to_string()).is_none());
    assert_eq!(tracker.len(), 1);
    let response = answer(MessageBody::Response, station_one(), Some("m1"));
    assert_eq!(
        error_of(tracker.resolve(&response, 10)),
        CorrelationError::UnknownCorrelation
    );
    assert!(!tracker.is_pending(&"m1".to_string()));
    assert!(tracker.is_pending(&"m2".to_string()));
    assert_eq!(tracker.register_invoke("m1".to_string(), 11, 40, None), Ok(()));
}

#[test]
fn sweep_reports_the_overdue_ids_in_order_of_registration() {
    let mut tracker = CorrelationTracker::new();
    assert_eq!(tracker.register_invoke("a".to_string(), 0, 50, None), Ok(()));
    assert_eq!(tracker.register_invoke("b".to_string(), 0, 10, None), Ok(()));
    assert_eq!(tracker.register_invoke("c".to_string(), 0, 31, None), Ok(()));
    assert_eq!(tracker.register_invoke("d".to_string(), 0, 30, None), Ok(()));
    assert_eq!(tracker.register_invoke("e".to_string(), 0, 5, None), Ok(()));
    assert_eq!(tracker.sweep(31), vec!["b".to_string(), "d".to_string(), "e".to_string()]);
    assert_eq!(tracker.len(), 2);
    assert!(tracker.is_pending(&"a".to_string()));
    assert!(tracker.is_pending(&"c".to_string()));
    assert!(!tracker.is_pending(&"b".to_string()));
}

#[test]
fn sweeping_again_reports_nothing_again() {
    let mut tracker = CorrelationTracker::new();
    assert_eq!(tracker.register_invoke("a".to_string(), 0, 50, None), Ok(()));
    assert_eq!(tracker.register_invoke("b".to_string(), 0, 10, None), Ok(()));
    assert_eq!(tracker.sweep(5), Vec::<String>::new());
    assert_eq!(tracker.sweep(11), vec!["b".to_string()]);
    assert_eq!(tracker.sweep(11), Vec::<String>::new());
    assert_eq!(tracker.sweep(51), vec!["a".to_string()]);
    assert_eq!(tracker.sweep(u64::MAX), Vec::<String>::new());
    assert_eq!(tracker.len(), 0);
}

#[test]
fn an_entry_at_its_deadline_is_not_swept() {
    let mut tracker = CorrelationTracker::new();
    assert_eq!(tracker.register_invoke("a".to_string(), 0, 30, None), Ok(()));
    assert_eq!(tracker.sweep(30), Vec::<String>::new());
    assert!(tracker.is_pending(&"a".to_string()));
    assert_eq!(tracker.sweep(31), vec!["a".to_string()]);
}

#[test]
fn a_swept_invocation_is_unknown_to_a_late_answer() {
    let mut tracker = CorrelationTracker::new();
    assert_eq!(tracker.register_invoke("m1".to_string(), 0, 30, None), Ok(()));
    assert_eq!(tracker.sweep(31), vec!["m1".to_string()]);
    let response = answer(MessageBody::Response, station_one(), Some("m1"));
    assert_eq!(
        error_of(tracker.resolve(&response, 32)),
        CorrelationError::UnknownCorrelation
    );
}

#[test]
fn expiring_a_peer_takes_out_what_only_that_peer_could_answer() {
    let mut tracker = CorrelationTracker::new();
    assert_eq!(tracker.register_invoke("a".to_string(), 0, 50, Some(station_one())), Ok(()));
    assert_eq!(tracker.register_invoke("b".to_string(), 0, 50, None), Ok(()));
    assert_eq!(tracker.register_invoke("c".to_string(), 0, 50, Some(satellite_one())), Ok(()));
    assert_eq!(tracker.register_invoke("d".to_string(), 0, 50, Some(station_one())), Ok(()));
    assert_eq!(
        tracker.expire_peer(&station_one()),
        vec!["a".to_string(), "d".to_string()]
    );
    assert_eq!(tracker.len(), 2);
    assert!(tracker.is_pending(&"b".to_string()));
    assert!(tracker.is_pending(&"c".to_string()));
    assert_eq!(tracker.expire_peer(&station_one()), Vec::<String>::new());
    let late = answer(MessageBody::Response, station_one(), Some("a"));
    assert_eq!(
        error_of(tracker.resolve(&late, 1)),
        CorrelationError::UnknownCorrelation
    );
}
