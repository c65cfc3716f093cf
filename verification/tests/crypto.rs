use aes_gcm::aead::{KeyInit, OsRng};
use aes_gcm::Aes256Gcm;
use client::crypto::{
    decrypt, derive_shared_secret, encrypt, encrypt_with_nonce, generate_channel_key,
    generate_key_pair, generate_symmetric_key, key_pair_from_secret, sign, verify, Algorithm,
    CryptoErrors, KeyPair,
};
use client::message::PayLoad;

fn secret_of(key_pair: &KeyPair) -> [u8; 32] {
    key_pair.priv_key().try_into().unwrap()
}

fn public_of(key_pair: &KeyPair) -> [u8; 32] {
    key_pair.pub_key().try_into().unwrap()
}

#[test]
fn encrypt_decrypt() {
    let encryption_key = Aes256Gcm::generate_key(OsRng);

    let expected_message = b"some super secret message";

    let payload = encrypt(expected_message.into(), &encryption_key.into()).unwrap();

    let message = decrypt(payload, &encryption_key.into()).unwrap();

    assert_eq!(expected_message, message.as_slice())
}

#[test]
fn encrypt_empty_message() {
    let message = Vec::default();

    let encryption_key = generate_symmetric_key();

    let err = encrypt(message, &encryption_key).unwrap_err();

    assert_eq!(err, CryptoErrors::EmptyRawMessage)
}

#[test]
fn decrypt_tampered_cipher_text() {
    let message: Vec<u8> = Vec::from(b"mrdigo: some super secret message!");
    let encryption_key = generate_symmetric_key();
    let mut payload = encrypt(message, &encryption_key).unwrap();

    payload.cipher_text.iter_mut().for_each(|b| *b = 0xFF);

    let err = decrypt(payload, &encryption_key).unwrap_err();

    assert_eq!(err, CryptoErrors::TamperedMessage)
}

#[test]
fn verify_unverified_cipher_text() {
    let message: Vec<u8> = Vec::from(b"mrdigo: some super secret message!");
    let encryption_key = generate_symmetric_key();
    let payload = encrypt(message, &encryption_key).unwrap();

    let signing_key = generate_key_pair(Algorithm::Ed25519);
    let signature = sign(&payload, &secret_of(&signing_key));

    let wrong_key = generate_key_pair(Algorithm::Ed25519);
    let err = verify(&payload, &signature, &public_of(&wrong_key)).unwrap_err();

    assert_eq!(err, CryptoErrors::UnVerifiableMessage)
}

#[test]
fn cipher_text_is_message_plus_tag() {
    let key = generate_channel_key();
    let payload = encrypt(vec![5u8; 40], &key).unwrap();
    assert_eq!(payload.cipher_text.len(), 40 + 16);
    assert_ne!(payload.cipher_text[..40], [5u8; 40]);
}

#[test]
fn decrypt_under_another_key_fails() {
    let payload = encrypt(vec![1, 2, 3], &[1u8; 32]).unwrap();
    assert_eq!(
        decrypt(payload, &[2u8; 32]).unwrap_err(),
        CryptoErrors::TamperedMessage
    );
}

#[test]
fn decrypt_round_trip_with_fixed_key() {
    let payload = encrypt(vec![42u8; 100], &[9u8; 32]).unwrap();
    assert_eq!(decrypt(payload, &[9u8; 32]).unwrap(), vec![42u8; 100]);
}

#[test]
fn decrypt_too_short_cipher_text_fails() {
    let payload = PayLoad::new(vec![1, 2, 3], [0u8; 12]).unwrap();
    assert_eq!(
        decrypt(payload, &[0u8; 32]).unwrap_err(),
        CryptoErrors::TamperedMessage
    );
}

#[test]
fn own_signature_verifies() {
    let payload = PayLoad::new(vec![1, 2, 3, 4], [8u8; 12]).unwrap();
    let key_pair = generate_key_pair(Algorithm::Ed25519);
    let signature = sign(&payload, &secret_of(&key_pair));
    assert_eq!(verify(&payload, &signature, &public_of(&key_pair)), Ok(()));
}

#[test]
fn signature_is_deterministic_and_covers_payload() {
    let payload = PayLoad::new(vec![1, 2, 3, 4], [8u8; 12]).unwrap();
    let other = PayLoad::new(vec![1, 2, 3, 5], [8u8; 12]).unwrap();
    let secret = [7u8; 32];
    let first = sign(&payload, &secret);
    assert_eq!(first, sign(&payload, &secret));
    assert_ne!(first, sign(&other, &secret));
    assert_ne!(first[..32], secret);
}

#[test]
fn signature_over_other_payload_is_rejected() {
    let payload = PayLoad::new(vec![1, 2, 3, 4], [8u8; 12]).unwrap();
    let other = PayLoad::new(vec![1, 2, 3, 5], [8u8; 12]).unwrap();
    let key_pair = generate_key_pair(Algorithm::Ed25519);
    let signature = sign(&payload, &secret_of(&key_pair));
    assert_eq!(
        verify(&other, &signature, &public_of(&key_pair)),
        Err(CryptoErrors::UnVerifiableMessage)
    );
}

#[test]
fn off_curve_public_key_is_invalid() {
    let payload = PayLoad::new(vec![1], [0u8; 12]).unwrap();
    let mut not_a_point = [0u8; 32];
    not_a_point[0] = 2;
    assert_eq!(
        verify(&payload, &[0u8; 64], &not_a_point),
        Err(CryptoErrors::InvalidPublicKey)
    );
}

#[test]
fn ed25519_key_pair_matches_dalek() {
    let key_pair = generate_key_pair(Algorithm::Ed25519);
    let expected = ed25519_dalek::SigningKey::from_bytes(&secret_of(&key_pair))
        .verifying_key()
        .to_bytes();
    assert_eq!(public_of(&key_pair), expected);
}

#[test]
fn x25519_key_pair_matches_dalek() {
    let key_pair = generate_key_pair(Algorithm::X25519);
    let secret = x25519_dalek::StaticSecret::from(secret_of(&key_pair));
    let expected = x25519_dalek::PublicKey::from(&secret).to_bytes();
    assert_eq!(public_of(&key_pair), expected);
    assert_ne!(public_of(&key_pair), secret_of(&key_pair));
}

#[test]
fn key_pair_new_keeps_halves() {
    let key_pair = KeyPair::new([1u8; 32], [2u8; 32]);
    assert_eq!(key_pair.priv_key(), &[1u8; 32]);
    assert_eq!(key_pair.pub_key(), &[2u8; 32]);
}

#[test]
fn shared_secret_is_fresh_per_call() {
    let peer = generate_key_pair(Algorithm::X25519);
    let shared = derive_shared_secret(&public_of(&peer));
    assert_ne!(shared, public_of(&peer));
    assert_ne!(shared, derive_shared_secret(&public_of(&peer)));
}

#[test]
fn random_keys_differ() {
    assert_ne!(generate_symmetric_key(), generate_symmetric_key());
    assert_ne!(generate_channel_key(), generate_channel_key());
}

#[test]
fn crypto_error_descriptions() {
    assert_eq!(
        CryptoErrors::EmptyRawMessage.description(),
        "Serialized raw message is empty."
    );
    assert_eq!(
        CryptoErrors::TamperedMessage.description(),
        "Cipher text is tampered. Cannot decrypt."
    );
    assert_eq!(CryptoErrors::InvalidPublicKey.description(), "Invalid public key.");
    assert_eq!(
        CryptoErrors::FailedEncryption.description(),
        "Encryption process failed."
    );
    assert_eq!(
        CryptoErrors::UnVerifiableMessage.description(),
        "Cannot verify the authenticity of the message"
    );
}

#[test]
fn empty_payload_is_tampered() {
    assert_eq!(
        decrypt(PayLoad::default(), &[0u8; 32]).unwrap_err(),
        CryptoErrors::TamperedMessage
    );
}

#[test]
fn x25519_sides_agree() {
    let alice = generate_key_pair(Algorithm::X25519);
    let bob = generate_key_pair(Algorithm::X25519);
    let alice_side = x25519_dalek::x25519(secret_of(&alice), public_of(&bob));
    let bob_side = x25519_dalek::x25519(secret_of(&bob), public_of(&alice));
    assert_eq!(alice_side, bob_side);
}

#[test]
fn encrypt_with_nonce_keeps_nonce_and_is_deterministic() {
    let nonce = [4u8; 12];
    let first = encrypt_with_nonce(vec![1, 2, 3], &[6u8; 32], nonce).unwrap();
    let second = encrypt_with_nonce(vec![1, 2, 3], &[6u8; 32], nonce).unwrap();
    assert_eq!(first.nonce, nonce);
    assert_eq!(first, second);
    assert_eq!(first.cipher_text.len(), 3 + 16);
    assert_eq!(decrypt(first, &[6u8; 32]).unwrap(), vec![1, 2, 3]);
}

#[test]
fn encrypt_with_nonce_refuses_empty_message() {
    assert_eq!(
        encrypt_with_nonce(Vec::new(), &[6u8; 32], [0u8; 12]).unwrap_err(),
        CryptoErrors::EmptyRawMessage
    );
}

#[test]
fn key_pair_from_secret_derives_public_half() {
    let secret = [21u8; 32];
    let ed = key_pair_from_secret(Algorithm::Ed25519, secret);
    assert_eq!(ed.priv_key(), &secret);
    assert_eq!(
        public_of(&ed),
        ed25519_dalek::SigningKey::from_bytes(&secret)
            .verifying_key()
            .to_bytes()
    );
    let x = key_pair_from_secret(Algorithm::X25519, secret);
    assert_eq!(x.priv_key(), &secret);
    assert_eq!(
        public_of(&x),
        x25519_dalek::PublicKey::from(&x25519_dalek::StaticSecret::from(secret)).to_bytes()
    );
}
