//! ed25519 keys and signatures, held as bytes.
use ed25519_dalek::{Signer, Verifier};
use vstd::prelude::*;
use vstd::slice::slice_to_vec;

verus! {

/// The public key that ed25519 derives from a 32-byte secret key.
pub uninterp spec fn ed25519_public_of(secret: Seq<u8>) -> Seq<u8>;

/// Whether the bytes are the encoding of a curve point usable as a public key.
pub uninterp spec fn public_key_accepted(bytes: Seq<u8>) -> bool;

/// The deterministic ed25519 signature of the message's UTF-8 bytes.
pub uninterp spec fn ed25519_signature_of(secret: Seq<u8>, msg: Seq<char>) -> Seq<u8>;

/// Whether the signature checks out for the message's UTF-8 bytes under the key.
pub uninterp spec fn ed25519_verifies(public: Seq<u8>, msg: Seq<char>, sig: Seq<u8>) -> bool;

/// The bytes that parse as an ed25519 signature: 64 of them, the scalar's
/// three highest bits unset.
pub open spec fn signature_encoding_ok(sig: Seq<u8>) -> bool {
    sig.len() == 64 && sig[63] & 0xe0u8 == 0u8
}

/// Whether `sig` parses as an ed25519 signature.
pub fn signature_well_formed(sig: &[u8]) -> (r: bool)
    ensures
        r == signature_encoding_ok(sig@),
{
    sig.len() == 64 && sig[63] & 0xe0u8 == 0u8
}

/// A public key that decodes to a curve point.
#[derive(Clone, Copy, Debug)]
pub struct VerifyingKey {
    bytes: [u8; 32],
}

impl View for VerifyingKey {
    type V = Seq<u8>;

    closed spec fn view(&self) -> Seq<u8> {
        self.bytes@
    }
}

impl VerifyingKey {
    #[verifier::type_invariant]
    spec fn well_formed(self) -> bool {
        public_key_accepted(self.bytes@)
    }

    /// The key encoded by `bytes`, if they encode one.
    pub fn from_bytes(bytes: &[u8]) -> (r: Option<VerifyingKey>)
        ensures
            r is Some <==> public_key_accepted(bytes@),
            r matches Some(k) ==> k@ == bytes@,
    {
        match decode_public_key(bytes) {
            Some(b) => Some(VerifyingKey { bytes: b }),
            None => None,
        }
    }

    pub fn to_bytes(&self) -> (r: Vec<u8>)
        ensures
            r@ == self@,
            r@.len() == 32,
            public_key_accepted(r@),
    {
        proof {
            use_type_invariant(self);
        }
        slice_to_vec(self.bytes.as_slice())
    }

    /// Whether `sig`, which parses as a signature, signs `msg` under this key.
    pub fn verify(&self, msg: &str, sig: &[u8]) -> (r: bool)
        requires
            signature_encoding_ok(sig@),
        ensures
            r == ed25519_verifies(self@, msg@, sig@),
    {
        proof {
            use_type_invariant(self);
        }
        verify_message(&self.bytes, msg, sig)
    }
}

/// An ed25519 secret key with the public key that belongs to it.
pub struct KeyPair {
    secret: [u8; 32],
    public: VerifyingKey,
}

impl KeyPair {
    #[verifier::type_invariant]
    spec fn well_formed(self) -> bool {
        self.public@ == ed25519_public_of(self.secret@)
    }

    pub closed spec fn secret_view(self) -> Seq<u8> {
        self.secret@
    }

    pub open spec fn public_view(self) -> Seq<u8> {
        ed25519_public_of(self.secret_view())
    }

    /// A key pair from a fresh secret key drawn from the operating system.
    pub fn generate() -> (r: KeyPair) {
        KeyPair::from_secret_bytes(generate_secret_key())
    }

    /// The key pair of the given secret key.
    pub fn from_secret_bytes(secret: [u8; 32]) -> (r: KeyPair)
        ensures
            r.secret_view() == secret@,
    {
        let public = derive_public_key(&secret);
        KeyPair { secret, public: VerifyingKey { bytes: public } }
    }

    pub fn secret_bytes(&self) -> (r: [u8; 32])
        ensures
            r@ == self.secret_view(),
    {
        self.secret
    }

    pub fn public_key(&self) -> (r: VerifyingKey)
        ensures
            r@ == self.public_view(),
    {
        proof {
            use_type_invariant(self);
        }
        self.public
    }

    /// The signature of `msg`; it parses, and verifies under the public key.
    pub fn sign(&self, msg: &str) -> (r: Vec<u8>)
        ensures
            r@ == ed25519_signature_of(self.secret_view(), msg@),
            signature_encoding_ok(r@),
            ed25519_verifies(self.public_view(), msg@, r@),
    {
        sign_message(&self.secret, msg)
    }
}

/// Relies on ed25519_dalek::SecretKey::generate, which fills the 32 bytes from
/// the operating system's generator.
#[verifier::external_body]
fn generate_secret_key() -> (r: [u8; 32]) {
    ed25519_dalek::SecretKey::generate(&mut rand::rngs::OsRng {}).to_bytes()
}

/// Relies on ed25519_dalek's `From<&SecretKey> for PublicKey`: the compressed
/// point of the clamped, hashed secret, which `PublicKey::from_bytes` accepts.
/// `SecretKey::from_bytes` fails only on a length other than 32.
#[verifier::external_body]
fn derive_public_key(secret: &[u8; 32]) -> (r: [u8; 32])
    ensures
        r@ == ed25519_public_of(secret@),
        public_key_accepted(r@),
{
    let secret = ed25519_dalek::SecretKey::from_bytes(secret).unwrap();
    ed25519_dalek::PublicKey::from(&secret).to_bytes()
}

/// Relies on ed25519_dalek::PublicKey::from_bytes, which keeps the 32 bytes it
/// accepts as the key's encoding.
#[verifier::external_body]
fn decode_public_key(bytes: &[u8]) -> (r: Option<[u8; 32]>)
    ensures
        r is Some <==> public_key_accepted(bytes@),
        r matches Some(k) ==> k@ == bytes@,
{
    match ed25519_dalek::PublicKey::from_bytes(bytes) {
        Ok(k) => Some(k.to_bytes()),
        Err(_) => None,
    }
}

/// Relies on ed25519_dalek's `Signer` for `Keypair`: deterministic ed25519,
/// whose reduced scalar leaves the top bits clear and which `verify` accepts.
#[verifier::external_body]
fn sign_message(secret: &[u8; 32], msg: &str) -> (r: Vec<u8>)
    ensures
        r@ == ed25519_signature_of(secret@, msg@),
        signature_encoding_ok(r@),
        ed25519_verifies(ed25519_public_of(secret@), msg@, r@),
{
    let secret = ed25519_dalek::SecretKey::from_bytes(secret).unwrap();
    let public = ed25519_dalek::PublicKey::from(&secret);
    let keypair = ed25519_dalek::Keypair { secret, public };
    keypair.sign(msg.as_bytes()).to_bytes().to_vec()
}

/// Relies on ed25519_dalek's `Verifier` for `PublicKey`; both `from_bytes`
/// calls succeed on what `requires` admits.
#[verifier::external_body]
fn verify_message(public: &[u8; 32], msg: &str, sig: &[u8]) -> (r: bool)
    requires
        public_key_accepted(public@),
        signature_encoding_ok(sig@),
    ensures
        r == ed25519_verifies(public@, msg@, sig@),
{
    let key = ed25519_dalek::PublicKey::from_bytes(public).unwrap();
    let sig = ed25519_dalek::Signature::from_bytes(sig).unwrap();
    key.verify(msg.as_bytes(), &sig).is_ok()
}

} // verus!
