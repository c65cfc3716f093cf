//! The cryptographic primitives this client is built on: AES-256-GCM from
//! `aes-gcm`, Ed25519 from `ed25519-dalek` and X25519 from `x25519-dalek`.
//!
//! Nothing in this module is proved: each function below makes one call into
//! one of those crates, and its contract is what that crate's source and
//! documentation promise. The deterministic primitives are named by
//! uninterpreted spec functions; the random ones promise nothing beyond their
//! types. Randomness comes from the operating system (`OsRng`), which panics
//! if the operating system cannot supply it.
use vstd::prelude::*;

use aes_gcm::aead::{Aead, AeadCore, KeyInit, OsRng};
use aes_gcm::{Aes256Gcm, Key};
use ed25519_dalek::{Signature, Signer, SigningKey, Verifier, VerifyingKey};
use x25519_dalek::{PublicKey, StaticSecret};

verus! {

/// The largest plaintext, in bytes, that AES-GCM accepts (`aes_gcm::P_MAX`).
pub const AES_GCM_MAX_PLAINTEXT: u64 = 68719476736;

/// The longest ciphertext, in bytes, that AES-GCM decryption looks at: its
/// message part may be at most `aes_gcm::C_MAX` bytes, and the tag follows.
pub const AES_GCM_MAX_CIPHERTEXT: u64 = 68719476768;

/// The length in bytes of the authentication tag AES-256-GCM appends.
pub const AES_GCM_TAG_LEN: usize = 16;

/// The error `aes-gcm` reports when it refuses to seal or open.
#[verifier::external_type_specification]
#[verifier::external_body]
pub struct ExAeadError(aes_gcm::Error);

/// The error `ed25519-dalek` reports for a bad key or a bad signature.
#[verifier::external_type_specification]
#[verifier::external_body]
pub struct ExSignatureError(ed25519_dalek::ed25519::signature::Error);

/// A decompressed Ed25519 public key of `ed25519-dalek`.
#[verifier::external_type_specification]
#[verifier::external_body]
pub struct ExVerifyingKey(VerifyingKey);

/// An Ed25519 public key that has been decompressed, together with the 32
/// bytes it was decompressed from. Only `ed25519_parse_public_key` builds
/// one, so `key` is always the decompression of `bytes`.
pub struct Ed25519PublicKey {
    bytes: [u8; 32],
    key: VerifyingKey,
}

impl Ed25519PublicKey {
    /// The compressed form this key was read from.
    pub closed spec fn spec_bytes(&self) -> Seq<u8> {
        self.bytes@
    }
}

/// AES-256-GCM encryption of `plaintext` under `key` and `nonce`, with no
/// associated data: the ciphertext followed by the 16-byte tag.
pub uninterp spec fn aes256gcm_seal(key: Seq<u8>, nonce: Seq<u8>, plaintext: Seq<u8>) -> Seq<u8>;

/// AES-256-GCM decryption: the plaintext when `ciphertext` carries a valid
/// tag for `key` and `nonce`, `None` otherwise.
pub uninterp spec fn aes256gcm_open(key: Seq<u8>, nonce: Seq<u8>, ciphertext: Seq<u8>) -> Option<
    Seq<u8>,
>;

/// The Ed25519 public key (compressed, 32 bytes) of a 32-byte secret key.
pub uninterp spec fn ed25519_public_key(secret: Seq<u8>) -> Seq<u8>;

/// The Ed25519 signature (64 bytes) of `message` under a 32-byte secret key.
pub uninterp spec fn ed25519_signature(secret: Seq<u8>, message: Seq<u8>) -> Seq<u8>;

/// Whether 32 bytes are the compressed form of a point of the Edwards curve.
pub uninterp spec fn ed25519_point_valid(public: Seq<u8>) -> bool;

/// Whether `signature` is a valid Ed25519 signature of `message` under the
/// public key `public`.
pub uninterp spec fn ed25519_verifies(public: Seq<u8>, message: Seq<u8>, signature: Seq<u8>) -> bool;

/// The X25519 public key of a 32-byte secret (the secret is clamped first).
pub uninterp spec fn x25519_public_key(secret: Seq<u8>) -> Seq<u8>;

/// The X25519 Diffie-Hellman shared secret of a 32-byte secret and a peer's
/// 32-byte public key.
pub uninterp spec fn x25519_shared_secret(secret: Seq<u8>, public: Seq<u8>) -> Seq<u8>;

/// `Aes256Gcm::generate_key(OsRng)`: 32 random bytes. Nothing is promised of
/// their value.
#[verifier::external_body]
pub(crate) fn aes256gcm_random_key() -> [u8; 32] {
    Aes256Gcm::generate_key(OsRng).into()
}

/// `Aes256Gcm::generate_nonce(OsRng)`: 12 random bytes. Nothing is promised
/// of their value.
#[verifier::external_body]
pub(crate) fn aes256gcm_random_nonce() -> [u8; 12] {
    Aes256Gcm::generate_nonce(OsRng).into()
}

/// `Aead::encrypt` of `Aes256Gcm`. The source refuses a plaintext longer
/// than `P_MAX` bytes and otherwise returns the ciphertext, as long as the
/// plaintext, with the 16-byte tag appended. The documented AEAD guarantee
/// is that opening it again under the same key and nonce gives the plaintext
/// back.
#[verifier::external_body]
pub(crate) fn aes256gcm_encrypt(key: &[u8; 32], nonce: &[u8; 12], plaintext: &[u8]) -> (r: Result<
    Vec<u8>,
    aes_gcm::Error,
>)
    ensures
        r is Ok <==> plaintext@.len() <= AES_GCM_MAX_PLAINTEXT,
        r matches Ok(c) ==> {
            &&& c@ == aes256gcm_seal(key@, nonce@, plaintext@)
            &&& c@.len() == plaintext@.len() + AES_GCM_TAG_LEN
            &&& aes256gcm_open(key@, nonce@, c@) == Some(plaintext@)
        },
{
    let key: &Key<Aes256Gcm> = key.into();
    Aes256Gcm::new(key).encrypt(nonce.into(), plaintext)
}

/// `Aead::decrypt` of `Aes256Gcm`: fails exactly when the tag does not
/// authenticate the ciphertext (or it is too short or too long), and
/// otherwise gives the plaintext. The source refuses a ciphertext shorter
/// than the tag or longer than `C_MAX` plus the tag, and strips the tag from one it accepts. AES-GCM is
/// deterministic, so a ciphertext that opens is the sealing of what it opens
/// to, and the sealing of a plaintext that encryption accepts opens to that
/// plaintext.
#[verifier::external_body]
pub(crate) fn aes256gcm_decrypt(key: &[u8; 32], nonce: &[u8; 12], ciphertext: &[u8]) -> (r: Result<
    Vec<u8>,
    aes_gcm::Error,
>)
    ensures
        r is Ok <==> aes256gcm_open(key@, nonce@, ciphertext@) is Some,
        r matches Ok(m) ==> aes256gcm_open(key@, nonce@, ciphertext@) == Some(m@),
        ciphertext@.len() < AES_GCM_TAG_LEN ==> r is Err,
        ciphertext@.len() > AES_GCM_MAX_CIPHERTEXT ==> r is Err,
        r matches Ok(m) ==> m@.len() + AES_GCM_TAG_LEN == ciphertext@.len(),
        r matches Ok(m) ==> (m@.len() <= AES_GCM_MAX_PLAINTEXT ==> aes256gcm_seal(key@, nonce@, m@)
            == ciphertext@),
        forall|m: Seq<u8>|
            m.len() <= AES_GCM_MAX_PLAINTEXT && #[trigger] aes256gcm_seal(key@, nonce@, m)
                == ciphertext@ ==> r is Ok && r->Ok_0@ == m,
{
    let key: &Key<Aes256Gcm> = key.into();
    Aes256Gcm::new(key).decrypt(nonce.into(), ciphertext)
}

/// `SigningKey::generate(&mut OsRng)`, as its 32 secret bytes. Nothing is
/// promised of their value.
#[verifier::external_body]
pub(crate) fn ed25519_random_secret() -> [u8; 32] {
    SigningKey::generate(&mut OsRng).to_bytes()
}

/// `SigningKey::verifying_key` of the signing key made from `secret`, in its
/// compressed form. A compressed curve point always decompresses again.
#[verifier::external_body]
pub(crate) fn ed25519_derive_public_key(secret: &[u8; 32]) -> (r: [u8; 32])
    ensures
        r@ == ed25519_public_key(secret@),
        ed25519_point_valid(r@),
{
    SigningKey::from_bytes(secret).verifying_key().to_bytes()
}

/// `Signer::sign` of the signing key made from `secret`. Ed25519 is correct:
/// the signature verifies under the public key of `secret`.
#[verifier::external_body]
pub(crate) fn ed25519_sign(secret: &[u8; 32], message: &[u8]) -> (r: [u8; 64])
    ensures
        r@ == ed25519_signature(secret@, message@),
        ed25519_verifies(ed25519_public_key(secret@), message@, r@),
{
    SigningKey::from_bytes(secret).sign(message).to_bytes()
}

/// `VerifyingKey::from_bytes`: decompresses a public key, and fails when the
/// bytes are not a curve point.
#[verifier::external_body]
pub(crate) fn ed25519_parse_public_key(public: &[u8; 32]) -> (r: Result<
    Ed25519PublicKey,
    ed25519_dalek::ed25519::signature::Error,
>)
    ensures
        r is Ok <==> ed25519_point_valid(public@),
        r matches Ok(k) ==> k.spec_bytes() == public@,
{
    match VerifyingKey::from_bytes(public) {
        Ok(key) => Ok(Ed25519PublicKey { bytes: *public, key }),
        Err(e) => Err(e),
    }
}

/// `Verifier::verify` of a decompressed public key, with the signature read
/// by `Signature::from_bytes`.
#[verifier::external_body]
pub(crate) fn ed25519_verify(public: &Ed25519PublicKey, message: &[u8], signature: &[u8; 64]) -> (r:
    Result<(), ed25519_dalek::ed25519::signature::Error>)
    ensures
        r is Ok <==> ed25519_verifies(public.spec_bytes(), message@, signature@),
{
    public.key.verify(message, &Signature::from_bytes(signature))
}

/// `StaticSecret::random_from_rng(OsRng)`, as its 32 bytes. Nothing is
/// promised of their value.
#[verifier::external_body]
pub(crate) fn x25519_random_secret() -> [u8; 32] {
    StaticSecret::random_from_rng(OsRng).to_bytes()
}

/// `PublicKey::from(&StaticSecret)` for the secret made from `secret`.
#[verifier::external_body]
pub(crate) fn x25519_derive_public_key(secret: &[u8; 32]) -> (r: [u8; 32])
    ensures
        r@ == x25519_public_key(secret@),
{
    PublicKey::from(&StaticSecret::from(*secret)).to_bytes()
}

/// `StaticSecret::diffie_hellman` of the secret made from `secret` with the
/// peer key made from `public`. Both sides agree (as the crate's own example
/// of `x25519` shows): when `public` is the public key of a peer secret, the
/// result is also the peer secret's agreement with the public key of
/// `secret`.
#[verifier::external_body]
pub(crate) fn x25519_diffie_hellman(secret: &[u8; 32], public: &[u8; 32]) -> (r: [u8; 32])
    ensures
        r@ == x25519_shared_secret(secret@, public@),
        forall|peer: Seq<u8>|
            peer.len() == 32 && public@ == #[trigger] x25519_public_key(peer) ==> r@
                == x25519_shared_secret(peer, x25519_public_key(secret@)),
{
    StaticSecret::from(*secret).diffie_hellman(&PublicKey::from(*public)).to_bytes()
}

} // verus!
