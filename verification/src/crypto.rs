//! The cryptographic operations needed for end-to-end encryption: encrypting,
//! decrypting, signing, verifying, generating keys and deriving shared
//! secrets.
use vstd::prelude::*;

use crate::message::{payload_bytes, PayLoad};
use crate::primitives::{
    aes256gcm_decrypt, aes256gcm_encrypt, aes256gcm_open, aes256gcm_random_key,
    aes256gcm_random_nonce, aes256gcm_seal, AES_GCM_MAX_CIPHERTEXT, ed25519_derive_public_key, ed25519_parse_public_key,
    ed25519_point_valid, ed25519_public_key, ed25519_random_secret, ed25519_sign,
    ed25519_signature, ed25519_verifies, ed25519_verify, x25519_derive_public_key,
    x25519_diffie_hellman, x25519_public_key, x25519_random_secret, x25519_shared_secret,
    AES_GCM_MAX_PLAINTEXT, AES_GCM_TAG_LEN,
};

verus! {

/// The kind of key pair to generate: Ed25519 for signing, X25519 for key
/// agreement.
pub enum Algorithm {
    Ed25519,
    X25519,
}

/// Why a cryptographic operation failed.
#[derive(Debug, PartialEq, Eq, Structural)]
pub enum CryptoErrors {
    EmptyRawMessage,
    TamperedMessage,
    InvalidPublicKey,
    FailedEncryption,
    UnVerifiableMessage,
}

/// The human-readable text of each error.
pub open spec fn crypto_error_text(e: CryptoErrors) -> Seq<char> {
    match e {
        CryptoErrors::EmptyRawMessage => "Serialized raw message is empty."@,
        CryptoErrors::TamperedMessage => "Cipher text is tampered. Cannot decrypt."@,
        CryptoErrors::InvalidPublicKey => "Invalid public key."@,
        CryptoErrors::FailedEncryption => "Encryption process failed."@,
        CryptoErrors::UnVerifiableMessage => "Cannot verify the authenticity of the message"@,
    }
}

impl CryptoErrors {
    /// The human-readable text of this error.
    pub fn description(&self) -> (s: &'static str)
        ensures
            s@ == crypto_error_text(*self),
    {
        match self {
            CryptoErrors::EmptyRawMessage => "Serialized raw message is empty.",
            CryptoErrors::TamperedMessage => "Cipher text is tampered. Cannot decrypt.",
            CryptoErrors::InvalidPublicKey => "Invalid public key.",
            CryptoErrors::FailedEncryption => "Encryption process failed.",
            CryptoErrors::UnVerifiableMessage => "Cannot verify the authenticity of the message",
        }
    }
}

/// The two halves of a key pair.
pub struct KeyPairView {
    pub secret: Seq<u8>,
    pub public: Seq<u8>,
}

/// A secret key and its public key, 32 bytes each.
#[derive(Debug, PartialEq)]
pub struct KeyPair {
    priv_key: [u8; 32],
    pub_key: [u8; 32],
}

impl KeyPair {
    pub closed spec fn view(&self) -> KeyPairView {
        KeyPairView { secret: self.priv_key@, public: self.pub_key@ }
    }

    /// Both halves are 32 bytes long.
    pub proof fn lemma_key_lengths(&self)
        ensures
            self.view().secret.len() == 32,
            self.view().public.len() == 32,
    {
    }

    /// A key pair of the given halves.
    pub fn new(priv_key: [u8; 32], pub_key: [u8; 32]) -> (r: Self)
        ensures
            r.view() == (KeyPairView { secret: priv_key@, public: pub_key@ }),
    {
        Self { priv_key, pub_key }
    }

    /// The secret half.
    pub fn priv_key(&self) -> (r: &[u8])
        ensures
            r@ == self.view().secret,
            r@.len() == 32,
    {
        self.priv_key.as_slice()
    }

    /// The public half.
    pub fn pub_key(&self) -> (r: &[u8])
        ensures
            r@ == self.view().public,
            r@.len() == 32,
    {
        self.pub_key.as_slice()
    }
}

/// An Ed25519 key pair: the public key belongs to the secret, and is a
/// valid curve point.
pub open spec fn is_ed25519_key_pair(k: KeyPairView) -> bool {
    &&& k.secret.len() == 32
    &&& k.public == ed25519_public_key(k.secret)
    &&& ed25519_point_valid(k.public)
}

/// An X25519 key pair: the public key belongs to the secret.
pub open spec fn is_x25519_key_pair(k: KeyPairView) -> bool {
    &&& k.secret.len() == 32
    &&& k.public == x25519_public_key(k.secret)
}

/// `cipher_text` is the AES-256-GCM sealing of `message` under `key` and
/// `nonce`, and opens back to `message`.
pub open spec fn encrypts_to(
    message: Seq<u8>,
    key: Seq<u8>,
    nonce: Seq<u8>,
    cipher_text: Seq<u8>,
) -> bool {
    &&& cipher_text == aes256gcm_seal(key, nonce, message)
    &&& cipher_text.len() == message.len() + AES_GCM_TAG_LEN
    &&& aes256gcm_open(key, nonce, cipher_text) == Some(message)
}

/// What decrypting `cipher_text` under `key` and `nonce` gives.
pub open spec fn decryption(key: Seq<u8>, nonce: Seq<u8>, cipher_text: Seq<u8>) -> Result<
    Seq<u8>,
    CryptoErrors,
> {
    match aes256gcm_open(key, nonce, cipher_text) {
        Some(m) => Ok(m),
        None => Err(CryptoErrors::TamperedMessage),
    }
}

/// `signature` is the Ed25519 signature of `message` under `secret`, and
/// verifies under the public key of `secret`.
pub open spec fn signed_by(secret: Seq<u8>, message: Seq<u8>, signature: Seq<u8>) -> bool {
    &&& signature == ed25519_signature(secret, message)
    &&& ed25519_verifies(ed25519_public_key(secret), message, signature)
}

/// What verifying `signature` of `message` under `public` gives.
pub open spec fn verification(public: Seq<u8>, message: Seq<u8>, signature: Seq<u8>) -> Result<
    (),
    CryptoErrors,
> {
    if !ed25519_point_valid(public) {
        Err(CryptoErrors::InvalidPublicKey)
    } else if ed25519_verifies(public, message, signature) {
        Ok(())
    } else {
        Err(CryptoErrors::UnVerifiableMessage)
    }
}

/// Encrypts `message` under `encryption_key` with AES-256-GCM and the given
/// nonce. An empty message is refused, and so is one longer than AES-GCM
/// accepts.
pub fn encrypt_with_nonce(message: Vec<u8>, encryption_key: &[u8; 32], nonce: [u8; 12]) -> (r:
    Result<PayLoad, CryptoErrors>)
    ensures
        message@.len() == 0 ==> r == Err::<PayLoad, CryptoErrors>(CryptoErrors::EmptyRawMessage),
        message@.len() > AES_GCM_MAX_PLAINTEXT ==> r == Err::<PayLoad, CryptoErrors>(
            CryptoErrors::FailedEncryption,
        ),
        0 < message@.len() <= AES_GCM_MAX_PLAINTEXT ==> (r matches Ok(p) && p.nonce == nonce
            && encrypts_to(message@, encryption_key@, nonce@, p.cipher_text@)),
{
    if message.is_empty() {
        return Err(CryptoErrors::EmptyRawMessage);
    }
    let cipher_text = match aes256gcm_encrypt(encryption_key, &nonce, message.as_slice()) {
        Ok(c) => c,
        Err(_) => {
            return Err(CryptoErrors::FailedEncryption);
        },
    };
    match PayLoad::new(cipher_text, nonce) {
        Ok(payload) => Ok(payload),
        Err(_) => {
            // The cipher text holds at least the tag, so it is never empty.
            proof {
                assert(false);
            }
            Err(CryptoErrors::FailedEncryption)
        },
    }
}

/// Encrypts `message` under `encryption_key` with AES-256-GCM and a fresh
/// random nonce. An empty message is refused, and so is one longer than
/// AES-GCM accepts.
pub fn encrypt(message: Vec<u8>, encryption_key: &[u8; 32]) -> (r: Result<PayLoad, CryptoErrors>)
    ensures
        message@.len() == 0 ==> r == Err::<PayLoad, CryptoErrors>(CryptoErrors::EmptyRawMessage),
        message@.len() > AES_GCM_MAX_PLAINTEXT ==> r == Err::<PayLoad, CryptoErrors>(
            CryptoErrors::FailedEncryption,
        ),
        0 < message@.len() <= AES_GCM_MAX_PLAINTEXT ==> (r matches Ok(p) && encrypts_to(
            message@,
            encryption_key@,
            p.nonce@,
            p.cipher_text@,
        )),
{
    if message.is_empty() {
        return Err(CryptoErrors::EmptyRawMessage);
    }
    let nonce = aes256gcm_random_nonce();
    encrypt_with_nonce(message, encryption_key, nonce)
}

/// Decrypts a payload under `decryption_key`; fails with `TamperedMessage`
/// when the cipher text does not authenticate.
pub fn decrypt(payload: PayLoad, decryption_key: &[u8; 32]) -> (r: Result<Vec<u8>, CryptoErrors>)
    ensures
        r is Ok <==> decryption(decryption_key@, payload.nonce@, payload.cipher_text@) is Ok,
        r matches Ok(m) ==> decryption(decryption_key@, payload.nonce@, payload.cipher_text@)
            == Ok::<Seq<u8>, CryptoErrors>(m@),
        r matches Err(e) ==> decryption(decryption_key@, payload.nonce@, payload.cipher_text@)
            == Err::<Seq<u8>, CryptoErrors>(e),
        payload.cipher_text@.len() < AES_GCM_TAG_LEN ==> r == Err::<Vec<u8>, CryptoErrors>(
            CryptoErrors::TamperedMessage,
        ),
        payload.cipher_text@.len() > AES_GCM_MAX_CIPHERTEXT ==> r == Err::<Vec<u8>, CryptoErrors>(
            CryptoErrors::TamperedMessage,
        ),
        r matches Ok(m) ==> m@.len() + AES_GCM_TAG_LEN == payload.cipher_text@.len(),
        r matches Ok(m) ==> (m@.len() <= AES_GCM_MAX_PLAINTEXT ==> aes256gcm_seal(
            decryption_key@,
            payload.nonce@,
            m@,
        ) == payload.cipher_text@),
        forall|m: Seq<u8>|
            m.len() <= AES_GCM_MAX_PLAINTEXT && #[trigger] aes256gcm_seal(
                decryption_key@,
                payload.nonce@,
                m,
            ) == payload.cipher_text@ ==> (r matches Ok(x) && x@ == m),
{
    match aes256gcm_decrypt(decryption_key, &payload.nonce, payload.cipher_text.as_slice()) {
        Ok(message) => Ok(message),
        Err(_) => Err(CryptoErrors::TamperedMessage),
    }
}

/// Signs the bytes of a payload (nonce, then cipher text) with an Ed25519
/// secret key.
pub fn sign(payload: &PayLoad, signing_key: &[u8; 32]) -> (r: [u8; 64])
    ensures
        signed_by(signing_key@, payload_bytes(payload.nonce@, payload.cipher_text@), r@),
{
    let bytes = payload.to_bytes();
    ed25519_sign(signing_key, bytes.as_slice())
}

/// Checks an Ed25519 signature of the bytes of a payload. A public key that
/// is not a curve point is refused before the signature is looked at.
pub fn verify(payload: &PayLoad, signature: &[u8; 64], pub_key: &[u8; 32]) -> (r: Result<
    (),
    CryptoErrors,
>)
    ensures
        r == verification(pub_key@, payload_bytes(payload.nonce@, payload.cipher_text@), signature@),
{
    let verifying_key = match ed25519_parse_public_key(pub_key) {
        Ok(k) => k,
        Err(_) => {
            return Err(CryptoErrors::InvalidPublicKey);
        },
    };
    let bytes = payload.to_bytes();
    match ed25519_verify(&verifying_key, bytes.as_slice(), signature) {
        Ok(()) => Ok(()),
        Err(_) => Err(CryptoErrors::UnVerifiableMessage),
    }
}

/// A fresh random AES-256 key.
pub fn generate_symmetric_key() -> [u8; 32] {
    aes256gcm_random_key()
}

/// A fresh random key pair of the given kind, whose public half belongs to
/// its secret half.
pub fn generate_key_pair(key_type: Algorithm) -> (r: KeyPair)
    ensures
        key_type is Ed25519 ==> is_ed25519_key_pair(r.view()),
        key_type is X25519 ==> is_x25519_key_pair(r.view()),
{
    let secret = match key_type {
        Algorithm::Ed25519 => ed25519_random_secret(),
        Algorithm::X25519 => x25519_random_secret(),
    };
    key_pair_from_secret(key_type, secret)
}

/// The key pair of the given kind whose secret half is `secret`.
pub fn key_pair_from_secret(key_type: Algorithm, secret: [u8; 32]) -> (r: KeyPair)
    ensures
        r.view().secret == secret@,
        key_type is Ed25519 ==> is_ed25519_key_pair(r.view()),
        key_type is X25519 ==> is_x25519_key_pair(r.view()),
{
    match key_type {
        Algorithm::Ed25519 => {
            let public = ed25519_derive_public_key(&secret);
            KeyPair::new(secret, public)
        },
        Algorithm::X25519 => {
            let public = x25519_derive_public_key(&secret);
            KeyPair::new(secret, public)
        },
    }
}

/// A fresh random AES-256 key for a channel.
pub fn generate_channel_key() -> [u8; 32] {
    aes256gcm_random_key()
}

/// `shared` is the X25519 agreement of `secret` with `public`, and so also
/// the agreement of the secret behind `public` with the public key of
/// `secret`.
pub open spec fn x25519_agreement(secret: Seq<u8>, public: Seq<u8>, shared: Seq<u8>) -> bool {
    &&& shared == x25519_shared_secret(secret, public)
    &&& forall|peer: Seq<u8>|
        peer.len() == 32 && public == #[trigger] x25519_public_key(peer) ==> shared
            == x25519_shared_secret(peer, x25519_public_key(secret))
}

/// The X25519 shared secret of a fresh random secret with `pub_key`.
pub fn derive_shared_secret(pub_key: &[u8; 32]) -> (r: [u8; 32])
    ensures
        exists|secret: Seq<u8>|
            secret.len() == 32 && #[trigger] x25519_agreement(secret, pub_key@, r@),
{
    let secret = x25519_random_secret();
    let shared = x25519_diffie_hellman(&secret, pub_key);
    assert(secret@.len() == 32 && x25519_agreement(secret@, pub_key@, shared@));
    shared
}

/// Diffie-Hellman agreement: a secret agreed with the public half of an
/// X25519 key pair is what the pair's secret half agrees with the other
/// side's public key.
pub proof fn lemma_x25519_peers_agree(secret: Seq<u8>, peer: KeyPairView, shared: Seq<u8>)
    requires
        is_x25519_key_pair(peer),
        x25519_agreement(secret, peer.public, shared),
    ensures
        shared == x25519_shared_secret(peer.secret, x25519_public_key(secret)),
{
}

/// Decrypting what `encrypt` produced, under the same key, gives the message
/// back.
pub proof fn lemma_decrypt_inverts_encrypt(
    message: Seq<u8>,
    key: Seq<u8>,
    nonce: Seq<u8>,
    cipher_text: Seq<u8>,
)
    requires
        encrypts_to(message, key, nonce, cipher_text),
    ensures
        decryption(key, nonce, cipher_text) == Ok::<Seq<u8>, CryptoErrors>(message),
{
}

/// A signature made with the secret half of an Ed25519 key pair verifies
/// under its public half.
pub proof fn lemma_verify_accepts_own_signature(
    key_pair: KeyPairView,
    message: Seq<u8>,
    signature: Seq<u8>,
)
    requires
        is_ed25519_key_pair(key_pair),
        signed_by(key_pair.secret, message, signature),
    ensures
        verification(key_pair.public, message, signature) == Ok::<(), CryptoErrors>(()),
{
}

} // verus!
