use client::message::{decimal_string, Message, MessageError, PayLoad};

#[test]
fn happy_path() {
    let pub_key = vec![0u8; 32];
    let payload = PayLoad {
        nonce: [0u8; 12],
        cipher_text: vec![0u8; 256],
    };

    let signature = vec![0u8; 64];

    let message = Message::new(pub_key.clone(), payload.clone(), signature.clone()).unwrap();

    assert_eq!(pub_key, message.pub_key());
    assert_eq!(&payload, message.payload());
    assert_eq!(signature, message.signature());
}

#[test]
fn wrong_signature_size() {
    let pub_key = vec![0u8; 32];
    let payload = PayLoad {
        nonce: [0u8; 12],
        cipher_text: vec![0u8; 256],
    };

    let signature = vec![0u8; 6];

    let message = Message::new(pub_key, payload, signature.clone()).unwrap_err();

    assert_eq!(message, MessageError::WrongSignatureSize(signature.len()));
}

#[test]
fn wrong_pub_key_size() {
    let pub_key = vec![0u8; 3];
    let payload = PayLoad {
        nonce: [0u8; 12],
        cipher_text: vec![0u8; 256],
    };
    let signature = vec![0u8; 64];

    let message = Message::new(pub_key.clone(), payload, signature).unwrap_err();

    assert_eq!(message, MessageError::WrongPublicKeySize(pub_key.len()));
}

#[test]
fn empty_payload() {
    let payload = PayLoad::new(Vec::default(), [0u8; 12]).unwrap_err();

    assert_eq!(payload, MessageError::EmptyPayload);
}

#[test]
fn public_key_is_checked_before_signature() {
    let payload = PayLoad::new(vec![1, 2, 3], [7u8; 12]).unwrap();
    let err = Message::new(vec![0u8; 31], payload, vec![0u8; 65]).unwrap_err();
    assert_eq!(err, MessageError::WrongPublicKeySize(31));
}

#[test]
fn payload_new_keeps_fields() {
    let payload = PayLoad::new(vec![9, 8, 7], [3u8; 12]).unwrap();
    assert_eq!(payload.nonce, [3u8; 12]);
    assert_eq!(payload.cipher_text, vec![9, 8, 7]);
}

#[test]
fn payload_bytes_are_nonce_then_cipher_text() {
    let nonce = [1u8, 2, 3, 4, 5, 6, 7, 8, 9, 10, 11, 12];
    let payload = PayLoad::new(vec![0xAA, 0xBB], nonce).unwrap();
    assert_eq!(
        payload.to_bytes(),
        vec![1u8, 2, 3, 4, 5, 6, 7, 8, 9, 10, 11, 12, 0xAA, 0xBB]
    );
}

#[test]
fn payloads_with_different_cipher_text_have_different_bytes() {
    let a = PayLoad::new(vec![1, 2], [0u8; 12]).unwrap();
    let b = PayLoad::new(vec![1, 3], [0u8; 12]).unwrap();
    assert_ne!(a.to_bytes(), b.to_bytes());
}

#[test]
fn decimal_notation() {
    assert_eq!(decimal_string(0), "0");
    assert_eq!(decimal_string(7), "7");
    assert_eq!(decimal_string(64), "64");
    assert_eq!(decimal_string(1000), "1000");
    assert_eq!(decimal_string(usize::MAX), usize::MAX.to_string());
}

#[test]
fn message_error_descriptions() {
    assert_eq!(
        MessageError::WrongSignatureSize(6).description(),
        "Signature is wrong size: 6. Must be 64 bytes"
    );
    assert_eq!(
        MessageError::WrongPublicKeySize(3).description(),
        "Public key is wrong size: 3. Must be 32 bytes"
    );
    assert_eq!(
        MessageError::EmptyPayload.description(),
        "Payload is empty. It must contain cipher text AND nonce"
    );
}

#[test]
fn empty_cipher_text_is_refused_by_message() {
    let err = Message::new(vec![0u8; 32], PayLoad::default(), vec![0u8; 64]).unwrap_err();
    assert_eq!(err, MessageError::EmptyPayload);
}

#[test]
fn sizes_are_checked_before_cipher_text() {
    let err = Message::new(vec![0u8; 32], PayLoad::default(), vec![0u8; 63]).unwrap_err();
    assert_eq!(err, MessageError::WrongSignatureSize(63));
}
