//! The client: builds requests and checks timestamps against known authorities.
use crate::crypto::{
    ed25519_signature_of, ed25519_verifies, public_key_accepted, signature_well_formed, KeyPair,
    VerifyingKey,
};
use crate::error::TimeServiceError;
use crate::models::{timestamp_verifies, AuthenticTimestamp, TimestampRequest};
use crate::trust::TrustStore;
use vstd::prelude::*;

verus! {

/// The lowercase hexadecimal digit of `d`.
pub open spec fn hex_digit(d: nat) -> char {
    if d < 10 {
        (('0' as nat) + d) as char
    } else {
        (('a' as nat) + d - 10) as char
    }
}

/// `v` in lowercase hexadecimal, without leading zeros.
pub open spec fn lower_hex(v: nat) -> Seq<char>
    decreases v,
{
    if v < 16 {
        seq![hex_digit(v)]
    } else {
        lower_hex(v / 16).push(hex_digit(v % 16))
    }
}

pub proof fn lemma_lower_hex_nonempty(v: nat)
    ensures
        lower_hex(v).len() > 0,
    decreases v,
{
}

/// A client, anonymous or registered under an identifier with a key pair.
pub struct TimeClient {
    id: Option<String>,
    keypair: Option<KeyPair>,
    authority_keys: TrustStore,
}

impl TimeClient {
    pub closed spec fn spec_id(self) -> Option<Seq<char>> {
        match self.id {
            Some(s) => Some(s@),
            None => None,
        }
    }

    /// The client's secret key, when it has one.
    pub closed spec fn secret_key(self) -> Option<Seq<u8>> {
        match self.keypair {
            Some(k) => Some(k.secret_view()),
            None => None,
        }
    }

    /// Whether requests carry the client's identity and signature.
    pub open spec fn is_authenticated(self) -> bool {
        self.spec_id() is Some && self.secret_key() is Some
    }

    /// The trusted authority keys.
    pub closed spec fn authorities(self) -> TrustStore {
        self.authority_keys
    }

    pub fn new_anonymous() -> (r: TimeClient)
        ensures
            r.spec_id() is None,
            r.secret_key() is None,
            forall|a: Seq<char>| r.authorities().key_of(a) is None,
    {
        TimeClient { id: None, keypair: None, authority_keys: TrustStore::new() }
    }

    /// A client registered as `id`, with a freshly generated key pair.
    pub fn new_authenticated(id: String) -> (r: TimeClient)
        ensures
            r.spec_id() == Some(id@),
            r.secret_key() is Some,
            forall|a: Seq<char>| r.authorities().key_of(a) is None,
    {
        TimeClient::with_keypair(id, KeyPair::generate())
    }

    /// A client registered as `id` that signs with `keypair`.
    pub fn with_keypair(id: String, keypair: KeyPair) -> (r: TimeClient)
        ensures
            r.spec_id() == Some(id@),
            r.secret_key() == Some(keypair.secret_view()),
            forall|a: Seq<char>| r.authorities().key_of(a) is None,
    {
        TimeClient { id: Some(id), keypair: Some(keypair), authority_keys: TrustStore::new() }
    }

    /// The client's public key, for registration with an authority.
    pub fn get_public_key(&self) -> (r: Option<Vec<u8>>)
        ensures
            match self.secret_key() {
                Some(s) => r matches Some(k) && k@ == crate::crypto::ed25519_public_of(s)
                    && k@.len() == 32 && public_key_accepted(k@),
                None => r is None,
            },
    {
        match &self.keypair {
            Some(kp) => Some(kp.public_key().to_bytes()),
            None => None,
        }
    }

    /// Trusts `public_key_bytes` as the key of `authority_id`; fails with
    /// `InvalidSignature` when the bytes are not a public key.
    pub fn add_authority(&mut self, authority_id: String, public_key_bytes: &[u8]) -> (r: Result<
        (),
        TimeServiceError,
    >)
        ensures
            r is Ok <==> public_key_accepted(public_key_bytes@),
            r matches Err(e) ==> e is InvalidSignature && *final(self) == *old(self),
            r is Ok ==> forall|a: Seq<char>|
                #[trigger] final(self).authorities().key_of(a) == if a == authority_id@ {
                    Some(public_key_bytes@)
                } else {
                    old(self).authorities().key_of(a)
                },
            final(self).spec_id() == old(self).spec_id(),
            final(self).secret_key() == old(self).secret_key(),
    {
        match VerifyingKey::from_bytes(public_key_bytes) {
            Some(key) => {
                self.authority_keys.insert(authority_id, key);
                Ok(())
            },
            None => Err(TimeServiceError::InvalidSignature),
        }
    }

    /// `r` is the request this client makes with `nonce`: signed by the
    /// client when it is authenticated, anonymous otherwise.
    pub open spec fn makes(self, nonce: Seq<char>, r: TimestampRequest) -> bool {
        &&& r.nonce@ == nonce
        &&& if self.is_authenticated() {
            &&& r.client_id matches Some(c) && Some(c@) == self.spec_id()
            &&& r.client_signature matches Some(sig) && sig@ == ed25519_signature_of(
                self.secret_key()->0,
                nonce,
            ) && crate::crypto::signature_encoding_ok(sig@) && ed25519_verifies(
                crate::crypto::ed25519_public_of(self.secret_key()->0),
                nonce,
                sig@,
            )
        } else {
            r.client_id is None && r.client_signature is None
        }
    }

    /// The request this client makes with `nonce`.
    pub fn request_with_nonce(&self, nonce: String) -> (r: TimestampRequest)
        ensures
            r.nonce == nonce,
            self.makes(nonce@, r),
    {
        match (&self.keypair, &self.id) {
            (Some(kp), Some(id)) => {
                let signature = kp.sign(nonce.as_str());
                TimestampRequest::new_authenticated(nonce, id.clone(), signature)
            },
            _ => TimestampRequest::new(nonce),
        }
    }

    /// A request over a fresh random nonce of 128 bits in hexadecimal.
    pub fn create_request(&self) -> (r: TimestampRequest)
        ensures
            exists|v: u128| r.nonce@ == lower_hex(v as nat),
            r.nonce@.len() > 0,
            self.makes(r.nonce@, r),
    {
        let v = random_u128();
        let nonce = to_lower_hex(v);
        proof {
            lemma_lower_hex_nonempty(v as nat);
        }
        self.request_with_nonce(nonce)
    }

    /// Checks `ts` against the key trusted for its authority: fails with
    /// `AuthorityNotFound` when none is, and with `InvalidSignature` when the
    /// signature does not parse.
    pub fn verify_timestamp(&self, ts: &AuthenticTimestamp) -> (r: Result<bool, TimeServiceError>)
        ensures
            match self.authorities().key_of(ts.authority_id@) {
                None => r matches Err(TimeServiceError::AuthorityNotFound(a)) && a@
                    == ts.authority_id@,
                Some(key) => if crate::crypto::signature_encoding_ok(ts.signature@) {
                    r == Ok::<bool, TimeServiceError>(timestamp_verifies(key, *ts))
                } else {
                    r matches Err(e) && e is InvalidSignature
                },
            },
    {
        let key = match self.authority_keys.get(&ts.authority_id) {
            Some(k) => k,
            None => {
                return Err(TimeServiceError::AuthorityNotFound(ts.authority_id.clone()));
            },
        };
        let message = ts.format_message();
        if !signature_well_formed(ts.signature.as_slice()) {
            return Err(TimeServiceError::InvalidSignature);
        }
        Ok(key.verify(message.as_str(), ts.signature.as_slice()))
    }
}

/// Relies on rand::random for a uniformly drawn `u128`.
#[verifier::external_body]
fn random_u128() -> (r: u128) {
    rand::random::<u128>()
}

/// Relies on std's `LowerHex` for `u128`: lowercase digits, no leading zeros.
#[verifier::external_body]
fn to_lower_hex(v: u128) -> (r: String)
    ensures
        r@ == lower_hex(v as nat),
{
    format!("{:x}", v)
}

} // verus!
