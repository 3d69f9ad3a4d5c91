//! The envelope that wraps every protocol message.

use crate::auth::{AuthContext, AuthModel};
use crate::identity::{copy_optional, opt_chars, AgentIdentity, IdentityModel};
use std::collections::BTreeMap;
use std::time::SystemTime;
use vstd::prelude::*;

verus! {

/// A point of the system's wall clock. Nothing is known of a value of it:
/// an envelope carries its time of sending and no rule reads it.
#[verifier::external_type_specification]
#[verifier::external_body]
pub struct ExWallClockTime(std::time::SystemTime);

/// `SystemTime::now` reads the wall clock. Nothing is claimed of the time it
/// returns.
pub assume_specification[ std::time::SystemTime::now ]() -> (t: std::time::SystemTime)
;

/// The family of a message. The family alone decides how an envelope is
/// correlated and whether a session admits it.
#[derive(Debug, Clone, Copy, PartialEq, Eq, Structural)]
pub enum MessageBody {
    Invoke,
    Response,
    Event,
    Error,
    Control,
    HandshakeAck,
}

impl MessageBody {
    /// Whether a message of this family answers an Invoke.
    pub open spec fn answers(self) -> bool {
        self == MessageBody::Response || self == MessageBody::Error
    }

    /// Whether a message of this family answers an Invoke: a Response or an
    /// Error does, no other family.
    #[verifier::when_used_as_spec(answers)]
    pub fn is_reply(self) -> (r: bool)
        ensures
            r == self.answers(),
    {
        match self {
            MessageBody::Response => true,
            MessageBody::Error => true,
            _ => false,
        }
    }
}

/// Wrapper around every protocol message.
#[derive(Debug)]
pub struct Envelope {
    pub message_id: String,
    pub parent_id: Option<String>,
    pub correlation_id: Option<String>,
    pub sent_at: SystemTime,
    pub sender: AgentIdentity,
    pub auth: AuthContext,
    pub annotations: BTreeMap<String, String>,
    pub body: MessageBody,
}

/// Mathematical value of an [`Envelope`].
pub struct EnvelopeModel {
    pub message_id: Seq<char>,
    pub parent_id: Option<Seq<char>>,
    pub correlation_id: Option<Seq<char>>,
    pub sent_at: SystemTime,
    pub sender: IdentityModel,
    pub auth: AuthModel,
    pub annotations: Map<String, String>,
    pub body: MessageBody,
}

impl View for Envelope {
    type V = EnvelopeModel;

    open spec fn view(&self) -> EnvelopeModel {
        EnvelopeModel {
            message_id: self.message_id@,
            parent_id: opt_chars(self.parent_id),
            correlation_id: opt_chars(self.correlation_id),
            sent_at: self.sent_at,
            sender: self.sender@,
            auth: self.auth@,
            annotations: self.annotations@,
            body: self.body,
        }
    }
}

impl Clone for Envelope {
    fn clone(&self) -> (r: Self)
        ensures
            r@ == self@,
    {
        Envelope {
            message_id: self.message_id.clone(),
            parent_id: copy_optional(&self.parent_id),
            correlation_id: copy_optional(&self.correlation_id),
            sent_at: self.sent_at,
            sender: self.sender.clone(),
            auth: self.auth.clone(),
            annotations: self.annotations.clone(),
            body: self.body,
        }
    }
}

impl EnvelopeModel {
    /// Whether every field that the message's family requires is there: an
    /// answer names the Invoke it answers.
    pub open spec fn complete(self) -> bool {
        self.body.answers() ==> self.correlation_id is Some
    }
}

impl Envelope {
    /// A new envelope sent now, with no parent, no correlation and no
    /// annotations.
    pub fn new(message_id: String, sender: AgentIdentity, auth: AuthContext, body: MessageBody) -> (r:
        Self)
        ensures
            r@ == (EnvelopeModel {
                message_id: message_id@,
                parent_id: None,
                correlation_id: None,
                sent_at: r@.sent_at,
                sender: sender@,
                auth: auth@,
                annotations: Map::empty(),
                body,
            }),
    {
        let sent_at = SystemTime::now();
        Envelope::sent(message_id, sender, auth, body, sent_at)
    }

    /// A new envelope sent at `sent_at`, with no parent, no correlation and
    /// no annotations.
    pub fn sent(
        message_id: String,
        sender: AgentIdentity,
        auth: AuthContext,
        body: MessageBody,
        sent_at: SystemTime,
    ) -> (r: Self)
        ensures
            r@ == (EnvelopeModel {
                message_id: message_id@,
                parent_id: None,
                correlation_id: None,
                sent_at,
                sender: sender@,
                auth: auth@,
                annotations: Map::empty(),
                body,
            }),
    {
        Envelope {
            message_id,
            parent_id: None,
            correlation_id: None,
            sent_at,
            sender,
            auth,
            annotations: BTreeMap::new(),
            body,
        }
    }

    /// Whether every field that the message's family requires is there.
    pub fn is_complete(&self) -> (r: bool)
        ensures
            r == self@.complete(),
    {
        !self.body.is_reply() || self.correlation_id.is_some()
    }
}

} // verus!
