use ed25519_dalek::{Signer, SigningKey};
use plum::security::{compute_checksum, verify_signature, SignatureCheckError};

#[test]
fn sha256_checksum_of_known_inputs() {
    assert_eq!(
        compute_checksum(b"abc"),
        "ba7816bf8f01cfea414140de5dae2223b00361a396177a9cb410ff61f20015ad"
    );
    assert_eq!(
        compute_checksum(b""),
        "e3b0c44298fc1c149afbf4c8996fb92427ae41e4649b934ca495991b7852b855"
    );
}

#[test]
fn checksum_is_64_lowercase_hex_digits() {
    let sum = compute_checksum(b"plum package payload");
    assert_eq!(sum.len(), 64);
    assert!(sum.chars().all(|c| c.is_ascii_hexdigit() && !c.is_ascii_uppercase()));
    assert_ne!(sum, compute_checksum(b"plum package payloaD"));
}

#[test]
fn good_signature_verifies() {
    let signing = SigningKey::from_bytes(&[7u8; 32]);
    let public_key = signing.verifying_key().to_bytes();
    let message = b"package index, generation 1";
    let signature = signing.sign(message).to_bytes();
    assert_eq!(verify_signature(message, &signature, &public_key), Ok(()));
}

#[test]
fn tampered_message_is_rejected() {
    let signing = SigningKey::from_bytes(&[7u8; 32]);
    let public_key = signing.verifying_key().to_bytes();
    let signature = signing.sign(b"package index, generation 1").to_bytes();
    assert_eq!(
        verify_signature(b"package index, generation 2", &signature, &public_key),
        Err(SignatureCheckError::RejectedSignature)
    );
}

#[test]
fn wrong_key_is_rejected() {
    let signing = SigningKey::from_bytes(&[7u8; 32]);
    let other = SigningKey::from_bytes(&[8u8; 32]);
    let message = b"payload";
    let signature = signing.sign(message).to_bytes();
    assert_eq!(
        verify_signature(message, &signature, &other.verifying_key().to_bytes()),
        Err(SignatureCheckError::RejectedSignature)
    );
}

#[test]
fn sizes_are_checked_before_the_crypto() {
    let ok_sig = [0u8; 64];
    let ok_key = [0u8; 32];
    assert_eq!(
        verify_signature(b"m", &ok_sig, &[0u8; 31]),
        Err(SignatureCheckError::BadKeyLength)
    );
    assert_eq!(
        verify_signature(b"m", &[0u8; 63], &ok_key),
        Err(SignatureCheckError::BadSignatureLength)
    );
}
