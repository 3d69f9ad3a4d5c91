use pap::encoding::{push_be32, push_be64};
use pap::identity::AgentIdentity;

fn full_identity() -> AgentIdentity {
    AgentIdentity {
        agent: "sat-1".to_string(),
        cluster: "edge".to_string(),
        version: Some("1.2".to_string()),
        instance: Some("a".to_string()),
    }
}

#[test]
fn new_identity_has_no_optional_fields() {
    let id = AgentIdentity::new("sat-1".to_string(), "edge".to_string());
    assert_eq!(id.agent, "sat-1");
    assert_eq!(id.cluster, "edge");
    assert_eq!(id.version, None);
    assert_eq!(id.instance, None);
}

#[test]
fn identities_are_equal_when_all_four_fields_match() {
    assert!(full_identity().same_as(&full_identity()));
    assert_eq!(full_identity(), full_identity());
    assert_eq!(full_identity().clone(), full_identity());
}

#[test]
fn identities_differ_when_one_field_differs() {
    let base = full_identity();
    let mut other = full_identity();
    other.agent = "sat-2".to_string();
    assert!(!base.same_as(&other));
    let mut other = full_identity();
    other.cluster = "core".to_string();
    assert!(!base.same_as(&other));
    let mut other = full_identity();
    other.version = Some("1.3".to_string());
    assert!(!base.same_as(&other));
    let mut other = full_identity();
    other.instance = Some("b".to_string());
    assert_ne!(base, other);
}

#[test]
fn an_absent_field_differs_from_every_present_value() {
    let base = AgentIdentity::new("sat-1".to_string(), "edge".to_string());
    let mut other = AgentIdentity::new("sat-1".to_string(), "edge".to_string());
    other.version = Some(String::new());
    assert!(!base.same_as(&other));
    assert!(!other.same_as(&base));
    let mut other = AgentIdentity::new("sat-1".to_string(), "edge".to_string());
    other.instance = Some(String::new());
    assert_ne!(base, other);
}

#[test]
fn canonical_bytes_of_an_identity_without_optional_fields() {
    let id = AgentIdentity::new("sat-1".to_string(), "edge".to_string());
    let mut expected = vec![0, 0, 0, 0, 0, 0, 0, 5];
    expected.extend_from_slice(b"sat-1");
    expected.extend_from_slice(&[0, 0, 0, 0, 0, 0, 0, 4]);
    expected.extend_from_slice(b"edge");
    expected.push(0);
    expected.push(0);
    assert_eq!(id.canonical_bytes(), expected);
}

#[test]
fn canonical_bytes_of_an_identity_with_optional_fields() {
    let mut expected = vec![0, 0, 0, 0, 0, 0, 0, 5];
    expected.extend_from_slice(b"sat-1");
    expected.extend_from_slice(&[0, 0, 0, 0, 0, 0, 0, 4]);
    expected.extend_from_slice(b"edge");
    expected.extend_from_slice(&[1, 0, 0, 0, 0, 0, 0, 0, 3]);
    expected.extend_from_slice(b"1.2");
    expected.extend_from_slice(&[1, 0, 0, 0, 0, 0, 0, 0, 1]);
    expected.extend_from_slice(b"a");
    assert_eq!(full_identity().canonical_bytes(), expected);
}

#[test]
fn canonical_bytes_count_bytes_not_characters() {
    let id = AgentIdentity::new("é".to_string(), String::new());
    let expected = vec![0, 0, 0, 0, 0, 0, 0, 2, 0xc3, 0xa9, 0, 0, 0, 0, 0, 0, 0, 0, 0, 0];
    assert_eq!(id.canonical_bytes(), expected);
}

#[test]
fn canonical_bytes_keep_field_boundaries_apart() {
    let one = AgentIdentity::new("ab".to_string(), "c".to_string());
    let two = AgentIdentity::new("a".to_string(), "bc".to_string());
    assert_ne!(one.canonical_bytes(), two.canonical_bytes());
    let mut absent = AgentIdentity::new("a".to_string(), "b".to_string());
    absent.instance = Some("x".to_string());
    let mut present = AgentIdentity::new("a".to_string(), "b".to_string());
    present.version = Some("x".to_string());
    assert_ne!(absent.canonical_bytes(), present.canonical_bytes());
}

#[test]
fn push_be64_appends_most_significant_byte_first() {
    let mut out = vec![0xffu8];
    push_be64(&mut out, 0x0102_0304_0506_0708);
    assert_eq!(out, vec![0xff, 1, 2, 3, 4, 5, 6, 7, 8]);
}

#[test]
fn push_be32_appends_most_significant_byte_first() {
    let mut out = Vec::new();
    push_be32(&mut out, 0xdead_beef);
    assert_eq!(out, vec![0xde, 0xad, 0xbe, 0xef]);
}
