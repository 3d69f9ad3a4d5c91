//! Participant identities and their canonical byte form.

use crate::encoding::{be64, be64_injective, push_be64};
use vstd::prelude::*;

verus! {

/// Identity of a Satellite or Station.
#[derive(Debug)]
pub struct AgentIdentity {
    pub agent: String,
    pub cluster: String,
    pub version: Option<String>,
    pub instance: Option<String>,
}

/// Mathematical value of an [`AgentIdentity`]: its four fields as character
/// sequences. Two identities are the same participant exactly when their
/// models are equal.
pub struct IdentityModel {
    pub agent: Seq<char>,
    pub cluster: Seq<char>,
    pub version: Option<Seq<char>>,
    pub instance: Option<Seq<char>>,
}

/// Character sequence of an optional string, absence kept apart from every
/// present value.
pub open spec fn opt_chars(s: Option<String>) -> Option<Seq<char>> {
    match s {
        Some(t) => Some(t@),
        None => None,
    }
}

impl View for AgentIdentity {
    type V = IdentityModel;

    open spec fn view(&self) -> IdentityModel {
        IdentityModel {
            agent: self.agent@,
            cluster: self.cluster@,
            version: opt_chars(self.version),
            instance: opt_chars(self.instance),
        }
    }
}

/// A byte string preceded by its length as eight big-endian bytes.
pub open spec fn framed(bytes: Seq<u8>) -> Seq<u8> {
    be64(bytes.len() as u64) + bytes
}

/// A required text field: its UTF-8 bytes, framed.
pub open spec fn text_field(s: Seq<char>) -> Seq<u8> {
    framed(vstd::utf8::encode_utf8(s))
}

/// An optional text field: the sentinel byte 0 when absent, else the byte 1
/// followed by the field.
pub open spec fn optional_field(s: Option<Seq<char>>) -> Seq<u8> {
    match s {
        None => seq![0u8],
        Some(t) => seq![1u8] + text_field(t),
    }
}

/// Whether the UTF-8 form of `s` has a length that eight bytes can hold, as
/// that of every string in memory has.
pub open spec fn measurable(s: Seq<char>) -> bool {
    vstd::utf8::encode_utf8(s).len() <= u64::MAX
}

impl IdentityModel {
    /// Whether every field is measurable.
    pub open spec fn fits(self) -> bool {
        &&& measurable(self.agent)
        &&& measurable(self.cluster)
        &&& (self.version is Some ==> measurable(self.version->0))
        &&& (self.instance is Some ==> measurable(self.instance->0))
    }
}

/// Canonical byte string of an identity: agent, cluster, version, instance,
/// in that order.
pub open spec fn canonical(id: IdentityModel) -> Seq<u8> {
    text_field(id.agent) + text_field(id.cluster) + optional_field(id.version) + optional_field(
        id.instance,
    )
}

fn push_text(out: &mut Vec<u8>, s: &String)
    ensures
        final(out)@ == old(out)@ + text_field(s@),
        measurable(s@),
{
    let bytes = s.as_str().as_bytes();
    push_be64(out, bytes.len() as u64);
    out.extend_from_slice(bytes);
    assert(out@ =~= old(out)@ + text_field(s@));
}

fn push_optional(out: &mut Vec<u8>, s: &Option<String>)
    ensures
        final(out)@ == old(out)@ + optional_field(opt_chars(*s)),
        opt_chars(*s) is Some ==> measurable(opt_chars(*s)->0),
{
    match s {
        None => {
            out.push(0u8);
            assert(out@ =~= old(out)@ + optional_field(opt_chars(*s)));
        },
        Some(t) => {
            out.push(1u8);
            push_text(out, t);
            assert(out@ =~= old(out)@ + optional_field(opt_chars(*s)));
        },
    }
}

fn same_optional(a: &Option<String>, b: &Option<String>) -> (r: bool)
    ensures
        r == (opt_chars(*a) == opt_chars(*b)),
{
    match a {
        None => b.is_none(),
        Some(x) => match b {
            None => false,
            Some(y) => *x == *y,
        },
    }
}

/// A copy of an optional string.
pub(crate) fn copy_optional(s: &Option<String>) -> (r: Option<String>)
    ensures
        r == *s,
{
    match s {
        None => None,
        Some(t) => Some(t.clone()),
    }
}

impl AgentIdentity {
    /// An identity with the two required fields and neither optional one.
    pub fn new(agent: String, cluster: String) -> (r: Self)
        ensures
            r@ == (IdentityModel { agent: agent@, cluster: cluster@, version: None, instance: None }),
    {
        AgentIdentity { agent, cluster, version: None, instance: None }
    }

    /// Whether both identities name the same participant: all four fields
    /// match, an absent field matching only an absent one.
    pub fn same_as(&self, other: &AgentIdentity) -> (r: bool)
        ensures
            r == (self@ == other@),
    {
        self.agent == other.agent && self.cluster == other.cluster && same_optional(
            &self.version,
            &other.version,
        ) && same_optional(&self.instance, &other.instance)
    }

    /// The canonical byte string that stands for this identity in signed
    /// material.
    pub fn canonical_bytes(&self) -> (r: Vec<u8>)
        ensures
            r@ == canonical(self@),
            self@.fits(),
    {
        let mut out: Vec<u8> = Vec::new();
        push_text(&mut out, &self.agent);
        push_text(&mut out, &self.cluster);
        push_optional(&mut out, &self.version);
        push_optional(&mut out, &self.instance);
        assert(out@ =~= canonical(self@));
        out
    }
}

impl Clone for AgentIdentity {
    fn clone(&self) -> (r: Self)
        ensures
            r == *self,
    {
        AgentIdentity {
            agent: self.agent.clone(),
            cluster: self.cluster.clone(),
            version: copy_optional(&self.version),
            instance: copy_optional(&self.instance),
        }
    }
}

impl PartialEq for AgentIdentity {
    fn eq(&self, other: &AgentIdentity) -> (r: bool) {
        self.same_as(other)
    }
}

impl Eq for AgentIdentity {

}

impl vstd::std_specs::cmp::PartialEqSpecImpl for AgentIdentity {
    open spec fn obeys_eq_spec() -> bool {
        true
    }

    open spec fn eq_spec(&self, other: &AgentIdentity) -> bool {
        self@ == other@
    }
}

/// A text field can be read back from the front of a byte string: two
/// strings that begin with a text field and are equal begin with the same
/// text and go on alike.
pub proof fn text_field_reads_back(a: Seq<char>, a_rest: Seq<u8>, b: Seq<char>, b_rest: Seq<u8>)
    requires
        measurable(a),
        measurable(b),
        text_field(a) + a_rest == text_field(b) + b_rest,
    ensures
        a == b,
        a_rest == b_rest,
{
    let ua = vstd::utf8::encode_utf8(a);
    let ub = vstd::utf8::encode_utf8(b);
    let whole_a = text_field(a) + a_rest;
    let whole_b = text_field(b) + b_rest;
    assert(whole_a.subrange(0, 8) =~= be64(ua.len() as u64));
    assert(whole_b.subrange(0, 8) =~= be64(ub.len() as u64));
    be64_injective(ua.len() as u64, ub.len() as u64);
    assert(ua.len() == ub.len());
    assert(whole_a.subrange(8, 8 + ua.len() as int) =~= ua);
    assert(whole_b.subrange(8, 8 + ub.len() as int) =~= ub);
    assert(whole_a.subrange(8 + ua.len() as int, whole_a.len() as int) =~= a_rest);
    assert(whole_b.subrange(8 + ub.len() as int, whole_b.len() as int) =~= b_rest);
    vstd::utf8::encode_utf8_decode_utf8(a);
    vstd::utf8::encode_utf8_decode_utf8(b);
}

/// An optional field can be read back from the front of a byte string.
pub proof fn optional_field_reads_back(
    a: Option<Seq<char>>,
    a_rest: Seq<u8>,
    b: Option<Seq<char>>,
    b_rest: Seq<u8>,
)
    requires
        a is Some ==> measurable(a->0),
        b is Some ==> measurable(b->0),
        optional_field(a) + a_rest == optional_field(b) + b_rest,
    ensures
        a == b,
        a_rest == b_rest,
{
    let whole_a = optional_field(a) + a_rest;
    let whole_b = optional_field(b) + b_rest;
    assert(whole_a[0] == (if a is Some { 1u8 } else { 0u8 }));
    assert(whole_b[0] == (if b is Some { 1u8 } else { 0u8 }));
    if a is Some {
        assert(whole_a.subrange(1, whole_a.len() as int) =~= text_field(a->0) + a_rest);
        assert(whole_b.subrange(1, whole_b.len() as int) =~= text_field(b->0) + b_rest);
        text_field_reads_back(a->0, a_rest, b->0, b_rest);
    } else {
        assert(whole_a.subrange(1, whole_a.len() as int) =~= a_rest);
        assert(whole_b.subrange(1, whole_b.len() as int) =~= b_rest);
    }
}

/// The canonical form tells identities apart: two identities with the same
/// canonical bytes are the same in all four fields.
pub proof fn canonical_is_injective(a: IdentityModel, b: IdentityModel)
    requires
        a.fits(),
        b.fits(),
        canonical(a) == canonical(b),
    ensures
        a == b,
{
    let empty = Seq::<u8>::empty();
    let a3 = optional_field(a.instance) + empty;
    let b3 = optional_field(b.instance) + empty;
    let a2 = optional_field(a.version) + a3;
    let b2 = optional_field(b.version) + b3;
    let a1 = text_field(a.cluster) + a2;
    let b1 = text_field(b.cluster) + b2;
    assert(text_field(a.agent) + a1 =~= canonical(a));
    assert(text_field(b.agent) + b1 =~= canonical(b));
    text_field_reads_back(a.agent, a1, b.agent, b1);
    text_field_reads_back(a.cluster, a2, b.cluster, b2);
    optional_field_reads_back(a.version, a3, b.version, b3);
    optional_field_reads_back(a.instance, empty, b.instance, empty);
}

} // verus!
