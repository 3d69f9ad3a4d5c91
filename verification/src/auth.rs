//! Authentication data of an envelope: how it is made and how it is checked.

use crate::encoding::{be64, push_be64};
use crate::entropy::{fresh_nonce, hex, NONCE_BYTES};
use crate::envelope::Envelope;
use crate::hmac::{bytes_equal, hmac_sha256, tag};
use crate::identity::{canonical, AgentIdentity, IdentityModel};
use crate::sha256::{digest, sha256};
use vstd::prelude::*;
use vstd::string::*;

verus! {

/// A signing scheme that this crate can compute.
#[derive(Debug, Clone, Copy, PartialEq, Eq, Structural)]
pub enum Algorithm {
    /// HMAC with SHA-256 under a secret that both sides hold.
    HmacSha256,
}

/// The name under which an algorithm travels in an envelope.
pub open spec fn algorithm_name(algorithm: Algorithm) -> Seq<char> {
    match algorithm {
        Algorithm::HmacSha256 => "HMAC-SHA256"@,
    }
}

/// The registered algorithm of that name, if there is one.
pub open spec fn registered(name: Seq<char>) -> Option<Algorithm> {
    if name == "HMAC-SHA256"@ {
        Some(Algorithm::HmacSha256)
    } else {
        None
    }
}

/// The signature of `material` under `secret`.
pub open spec fn signature_of(algorithm: Algorithm, secret: Seq<u8>, material: Seq<u8>) -> Seq<u8> {
    match algorithm {
        Algorithm::HmacSha256 => hmac_sha256(secret, material),
    }
}

impl Algorithm {
    /// The name under which this algorithm travels in an envelope.
    pub fn name(&self) -> (r: String)
        ensures
            r@ == algorithm_name(*self),
    {
        match self {
            Algorithm::HmacSha256 => String::from_str("HMAC-SHA256"),
        }
    }

    /// The registered algorithm called `name`; `None` for every other name.
    pub fn from_name(name: &String) -> (r: Option<Algorithm>)
        ensures
            r == registered(name@),
    {
        let known = String::from_str("HMAC-SHA256");
        if *name == known {
            Some(Algorithm::HmacSha256)
        } else {
            None
        }
    }

    /// The signature of `material` under `secret`.
    pub fn signature(&self, secret: &[u8], material: &[u8]) -> (r: Vec<u8>)
        ensures
            r@ == signature_of(*self, secret@, material@),
    {
        match self {
            Algorithm::HmacSha256 => tag(secret, material),
        }
    }
}

/// Every registered algorithm is found again under its own name.
pub proof fn registered_name_round_trip(algorithm: Algorithm)
    ensures
        registered(algorithm_name(algorithm)) == Some(algorithm),
{
}

/// Authentication data attached to every envelope. `issued_at` counts
/// milliseconds since the Unix epoch.
#[derive(Debug)]
pub struct AuthContext {
    pub signature: Vec<u8>,
    pub algorithm: String,
    pub payload_hash: Vec<u8>,
    pub nonce: String,
    pub issued_at: u64,
}

/// Mathematical value of an [`AuthContext`].
pub struct AuthModel {
    pub signature: Seq<u8>,
    pub algorithm: Seq<char>,
    pub payload_hash: Seq<u8>,
    pub nonce: Seq<char>,
    pub issued_at: u64,
}

impl View for AuthContext {
    type V = AuthModel;

    open spec fn view(&self) -> AuthModel {
        AuthModel {
            signature: self.signature@,
            algorithm: self.algorithm@,
            payload_hash: self.payload_hash@,
            nonce: self.nonce@,
            issued_at: self.issued_at,
        }
    }
}

impl Clone for AuthContext {
    fn clone(&self) -> (r: Self)
        ensures
            r@ == self@,
    {
        AuthContext {
            signature: self.signature.clone(),
            algorithm: self.algorithm.clone(),
            payload_hash: self.payload_hash.clone(),
            nonce: self.nonce.clone(),
            issued_at: self.issued_at,
        }
    }
}

/// Why an envelope failed authentication.
#[derive(Debug, Clone, Copy, PartialEq, Eq, Structural)]
pub enum AuthError {
    /// The body received does not hash to the payload hash of the envelope.
    PayloadMismatch,
    /// The signature is not the sender's signature of the signed material.
    BadSignature,
    /// The algorithm is not registered, or not permitted to the sender.
    UnknownAlgorithm,
    /// No credential is on file for the sender.
    UnknownSender,
}

/// Why no authentication data could be made.
#[derive(Debug, Clone, Copy, PartialEq, Eq, Structural)]
pub enum SignError {
    /// The operating system's random source gave no nonce.
    EntropyUnavailable,
}

/// The bytes that a signature covers: the payload hash, the nonce, the time
/// of issue and the sender's canonical identity, in that order.
pub open spec fn signed_material(
    payload_hash: Seq<u8>,
    nonce: Seq<char>,
    issued_at: u64,
    sender: IdentityModel,
) -> Seq<u8> {
    payload_hash + vstd::utf8::encode_utf8(nonce) + be64(issued_at) + canonical(sender)
}

/// The authentication data that `sender`, holding `secret`, attaches to
/// `body` with the given nonce and time of issue.
pub open spec fn sealed(
    body: Seq<u8>,
    sender: IdentityModel,
    secret: Seq<u8>,
    algorithm: Algorithm,
    nonce: Seq<char>,
    issued_at: u64,
) -> AuthModel {
    AuthModel {
        signature: signature_of(
            algorithm,
            secret,
            signed_material(sha256(body), nonce, issued_at, sender),
        ),
        algorithm: algorithm_name(algorithm),
        payload_hash: sha256(body),
        nonce,
        issued_at,
    }
}

/// What is on file for one participant: the secret its signatures are made
/// with and the algorithms it may use.
#[derive(Debug)]
pub struct Credential {
    pub identity: AgentIdentity,
    pub secret: Vec<u8>,
    pub algorithms: Vec<Algorithm>,
}

/// Mathematical value of a [`Credential`].
pub struct CredentialModel {
    pub identity: IdentityModel,
    pub secret: Seq<u8>,
    pub algorithms: Seq<Algorithm>,
}

impl View for Credential {
    type V = CredentialModel;

    open spec fn view(&self) -> CredentialModel {
        CredentialModel {
            identity: self.identity@,
            secret: self.secret@,
            algorithms: self.algorithms@,
        }
    }
}

impl Credential {
    /// Whether this credential permits `algorithm`.
    pub fn permits(&self, algorithm: Algorithm) -> (r: bool)
        ensures
            r == self@.algorithms.contains(algorithm),
    {
        let mut i: usize = 0;
        while i < self.algorithms.len()
            invariant
                i <= self.algorithms.len(),
                forall|j: int| 0 <= j < i ==> self.algorithms@[j] != algorithm,
            decreases self.algorithms.len() - i,
        {
            if self.algorithms[i] == algorithm {
                return true;
            }
            i += 1;
        }
        false
    }
}

/// The credential on file for `id`: among those enrolled for it, the one
/// enrolled last.
pub open spec fn on_file(credentials: Seq<CredentialModel>, id: IdentityModel) -> Option<
    CredentialModel,
>
    decreases credentials.len(),
{
    if credentials.len() == 0 {
        None
    } else if credentials.last().identity == id {
        Some(credentials.last())
    } else {
        on_file(credentials.drop_last(), id)
    }
}

/// The outcome of checking authentication data `auth`, claimed by `sender`,
/// against the body received. The payload hash is judged first and by
/// itself; then the algorithm's name, the sender's credential, the
/// algorithms it permits, and last the signature.
pub open spec fn verdict(
    credentials: Seq<CredentialModel>,
    sender: IdentityModel,
    auth: AuthModel,
    body: Seq<u8>,
) -> Result<(), AuthError> {
    if sha256(body) != auth.payload_hash {
        Err(AuthError::PayloadMismatch)
    } else {
        match registered(auth.algorithm) {
            None => Err(AuthError::UnknownAlgorithm),
            Some(algorithm) => match on_file(credentials, sender) {
                None => Err(AuthError::UnknownSender),
                Some(credential) => if !credential.algorithms.contains(algorithm) {
                    Err(AuthError::UnknownAlgorithm)
                } else if signature_of(
                    algorithm,
                    credential.secret,
                    signed_material(auth.payload_hash, auth.nonce, auth.issued_at, sender),
                ) != auth.signature {
                    Err(AuthError::BadSignature)
                } else {
                    Ok(())
                },
            },
        }
    }
}

/// Signs outgoing bodies and verifies incoming ones against the credentials
/// on file.
pub struct AuthCodec {
    credentials: Vec<Credential>,
}

impl View for AuthCodec {
    type V = Seq<CredentialModel>;

    closed spec fn view(&self) -> Seq<CredentialModel> {
        Seq::new(self.credentials@.len(), |i: int| self.credentials@[i]@)
    }
}

fn material(payload_hash: &Vec<u8>, nonce: &String, issued_at: u64, sender: &AgentIdentity) -> (r:
    Vec<u8>)
    ensures
        r@ == signed_material(payload_hash@, nonce@, issued_at, sender@),
{
    let mut out: Vec<u8> = Vec::new();
    out.extend_from_slice(payload_hash.as_slice());
    out.extend_from_slice(nonce.as_str().as_bytes());
    push_be64(&mut out, issued_at);
    let id = sender.canonical_bytes();
    out.extend_from_slice(id.as_slice());
    assert(out@ =~= signed_material(payload_hash@, nonce@, issued_at, sender@));
    out
}

impl AuthCodec {
    /// A codec with no credential on file.
    pub fn new() -> (r: Self)
        ensures
            r@ == Seq::<CredentialModel>::empty(),
    {
        let r = AuthCodec { credentials: Vec::new() };
        assert(r@ =~= Seq::<CredentialModel>::empty());
        r
    }

    /// Puts a credential on file. It replaces what was on file for the same
    /// identity.
    pub fn enroll(&mut self, credential: Credential)
        ensures
            final(self)@ == old(self)@.push(credential@),
            on_file(final(self)@, credential@.identity) == Some(credential@),
            forall|id: IdentityModel|
                id != credential@.identity ==> on_file(final(self)@, id) == on_file(old(self)@, id),
    {
        self.credentials.push(credential);
        assert(self@ =~= old(self)@.push(credential@));
        assert(self@.drop_last() =~= old(self)@);
    }

    fn locate(&self, id: &AgentIdentity) -> (r: Option<usize>)
        ensures
            match r {
                Some(i) => i < self.credentials@.len() && on_file(self@, id@) == Some(
                    self.credentials@[i as int]@,
                ),
                None => on_file(self@, id@) is None,
            },
    {
        let mut i: usize = self.credentials.len();
        assert(self@.take(i as int) =~= self@);
        while i > 0
            invariant
                i <= self.credentials@.len(),
                on_file(self@, id@) == on_file(self@.take(i as int), id@),
            decreases i,
        {
            i -= 1;
            assert(self@.take(i + 1).last() == self.credentials@[i as int]@);
            assert(self@.take(i + 1).drop_last() =~= self@.take(i as int));
            if self.credentials[i].identity.same_as(id) {
                return Some(i);
            }
        }
        None
    }

    /// Whether a credential is on file for `id`.
    pub fn knows(&self, id: &AgentIdentity) -> (r: bool)
        ensures
            r == on_file(self@, id@).is_some(),
    {
        self.locate(id).is_some()
    }

    /// The authentication data for `body`, sent by `sender` who holds
    /// `secret`, with the nonce and the time of issue that the caller chose.
    pub fn sign_with(
        body: &[u8],
        sender: &AgentIdentity,
        secret: &[u8],
        algorithm: Algorithm,
        nonce: String,
        issued_at: u64,
    ) -> (r: AuthContext)
        ensures
            r@ == sealed(body@, sender@, secret@, algorithm, nonce@, issued_at),
    {
        let payload_hash = digest(body);
        let covered = material(&payload_hash, &nonce, issued_at, sender);
        let signature = algorithm.signature(secret, covered.as_slice());
        AuthContext { signature, algorithm: algorithm.name(), payload_hash, nonce, issued_at }
    }

    /// The authentication data for `body` under HMAC-SHA256, issued at `now`,
    /// with the nonce that was had for it; where none was had, the failure
    /// `EntropyUnavailable`.
    pub fn sign_from(
        nonce: Option<String>,
        body: &[u8],
        sender: &AgentIdentity,
        secret: &[u8],
        now: u64,
    ) -> (r: Result<AuthContext, SignError>)
        ensures
            match nonce {
                Some(n) => r is Ok && r->Ok_0@ == sealed(
                    body@,
                    sender@,
                    secret@,
                    Algorithm::HmacSha256,
                    n@,
                    now,
                ),
                None => r is Err && r->Err_0 == SignError::EntropyUnavailable,
            },
    {
        match nonce {
            Some(n) => Ok(Self::sign_with(body, sender, secret, Algorithm::HmacSha256, n, now)),
            None => Err(SignError::EntropyUnavailable),
        }
    }

    /// The authentication data for `body`, sent by `sender` who holds
    /// `secret`, issued at `now`, under HMAC-SHA256 and a fresh nonce of 128
    /// random bits. It fails only when no nonce could be had:
    /// [`AuthCodec::sign_from`] decides what comes of the nonce.
    pub fn sign(body: &[u8], sender: &AgentIdentity, secret: &[u8], now: u64) -> (r: Result<
        AuthContext,
        SignError,
    >)
        ensures
            match r {
                Ok(auth) => auth@ == sealed(
                    body@,
                    sender@,
                    secret@,
                    Algorithm::HmacSha256,
                    auth@.nonce,
                    now,
                ) && exists|seed: Seq<u8>| seed.len() == NONCE_BYTES && auth@.nonce == #[trigger] hex(seed),
                Err(e) => e == SignError::EntropyUnavailable,
            },
    {
        Self::sign_from(fresh_nonce(), body, sender, secret, now)
    }

    /// Checks authentication data `auth`, claimed by `sender`, against the
    /// body as it was received. Nothing is recorded: whether the envelope
    /// was seen before is not this function's concern.
    pub fn verify_auth(&self, sender: &AgentIdentity, auth: &AuthContext, body: &[u8]) -> (r: Result<
        (),
        AuthError,
    >)
        ensures
            r == verdict(self@, sender@, auth@, body@),
    {
        let recomputed = digest(body);
        if !bytes_equal(recomputed.as_slice(), auth.payload_hash.as_slice()) {
            return Err(AuthError::PayloadMismatch);
        }
        let algorithm = match Algorithm::from_name(&auth.algorithm) {
            Some(a) => a,
            None => {
                return Err(AuthError::UnknownAlgorithm);
            },
        };
        let at = match self.locate(sender) {
            Some(i) => i,
            None => {
                return Err(AuthError::UnknownSender);
            },
        };
        let credential = &self.credentials[at];
        if !credential.permits(algorithm) {
            return Err(AuthError::UnknownAlgorithm);
        }
        let covered = material(&auth.payload_hash, &auth.nonce, auth.issued_at, sender);
        let expected = algorithm.signature(credential.secret.as_slice(), covered.as_slice());
        if !bytes_equal(expected.as_slice(), auth.signature.as_slice()) {
            return Err(AuthError::BadSignature);
        }
        Ok(())
    }

    /// Verifies an envelope against its body as it was received: the
    /// authentication data it carries, as that of the sender it claims.
    /// Nothing is recorded, and the same envelope verifies the same way
    /// every time.
    pub fn verify(&self, envelope: &Envelope, body: &[u8]) -> (r: Result<(), AuthError>)
        ensures
            r == verdict(self@, envelope@.sender, envelope@.auth, body@),
    {
        self.verify_auth(&envelope.sender, &envelope.auth, body)
    }
}

/// What a participant signs with the secret that is on file for it, under
/// an algorithm it is permitted, verifies: whatever the body, the nonce and
/// the time of issue.
pub proof fn signed_body_verifies(
    credentials: Seq<CredentialModel>,
    sender: IdentityModel,
    secret: Seq<u8>,
    algorithm: Algorithm,
    body: Seq<u8>,
    nonce: Seq<char>,
    issued_at: u64,
)
    requires
        on_file(credentials, sender) is Some,
        on_file(credentials, sender)->0.secret == secret,
        on_file(credentials, sender)->0.algorithms.contains(algorithm),
    ensures
        verdict(credentials, sender, sealed(body, sender, secret, algorithm, nonce, issued_at), body)
            is Ok,
{
}

/// A body whose digest is not the payload hash of the envelope fails with
/// `PayloadMismatch`, whatever the signature, the algorithm and the
/// credentials on file: so does every body that was altered on its way in
/// such a manner that its digest changed.
pub proof fn altered_body_is_payload_mismatch(
    credentials: Seq<CredentialModel>,
    sender: IdentityModel,
    auth: AuthModel,
    sent: Seq<u8>,
    received: Seq<u8>,
)
    requires
        auth.payload_hash == sha256(sent),
        sha256(received) != sha256(sent),
    ensures
        verdict(credentials, sender, auth, received) == Err::<(), AuthError>(
            AuthError::PayloadMismatch,
        ),
{
}

/// A signature made with another secret than the one on file fails with
/// `BadSignature`, unless the two secrets give the same signature.
pub proof fn foreign_signature_is_bad(
    credentials: Seq<CredentialModel>,
    sender: IdentityModel,
    secret: Seq<u8>,
    algorithm: Algorithm,
    body: Seq<u8>,
    nonce: Seq<char>,
    issued_at: u64,
)
    requires
        on_file(credentials, sender) is Some,
        on_file(credentials, sender)->0.algorithms.contains(algorithm),
        signature_of(
            algorithm,
            on_file(credentials, sender)->0.secret,
            signed_material(sha256(body), nonce, issued_at, sender),
        ) != signature_of(algorithm, secret, signed_material(sha256(body), nonce, issued_at, sender)),
    ensures
        verdict(credentials, sender, sealed(body, sender, secret, algorithm, nonce, issued_at), body)
            == Err::<(), AuthError>(AuthError::BadSignature),
{
}

} // verus!
