use wasm_dither::pq::{
    decapsulate, encapsulate, generate_kyber_keys, sign_message, verify_signature, CryptoError,
    DILITHIUM_PUBLIC_KEY_BYTES, DILITHIUM_SECRET_KEY_BYTES, DILITHIUM_SIGNATURE_BYTES,
    KYBER_CIPHERTEXT_BYTES, KYBER_SECRET_KEY_BYTES,
};

#[test]
fn kyber_keys_have_fixed_lengths() {
    let keys = generate_kyber_keys();
    assert_eq!(keys.public_key.len(), 800);
    assert_eq!(keys.secret_key.len(), 1632);
    assert_eq!(&keys.secret_key[768..1568], &keys.public_key[..]);
}

#[test]
fn encapsulation_round_trips() {
    let keys = generate_kyber_keys();
    let enc = encapsulate(&keys.public_key).unwrap();
    assert_eq!(enc.ciphertext.len(), 768);
    assert_eq!(enc.shared_secret.len(), 32);
    let ss = decapsulate(&keys.secret_key, &enc.ciphertext).unwrap();
    assert_eq!(ss, enc.shared_secret);
}

#[test]
fn encapsulate_refuses_bad_key() {
    assert!(matches!(encapsulate(&[0u8; 799]), Err(CryptoError::InvalidKeyEncoding)));
}

#[test]
fn decapsulate_refuses_bad_encodings() {
    let ct = vec![0u8; KYBER_CIPHERTEXT_BYTES];
    let sk = vec![0u8; KYBER_SECRET_KEY_BYTES];
    assert_eq!(decapsulate(&sk[1..], &ct), Err(CryptoError::InvalidKeyEncoding));
    assert_eq!(decapsulate(&sk, &ct[1..]), Err(CryptoError::InvalidCiphertextEncoding));
    assert_eq!(decapsulate(&sk[1..], &ct[1..]), Err(CryptoError::InvalidKeyEncoding));
}

fn dilithium_keys() -> (Vec<u8>, Vec<u8>) {
    let (pk, sk) = pqcrypto_dilithium::dilithium2::keypair();
    (
        pqcrypto_traits::sign::PublicKey::as_bytes(&pk).to_vec(),
        pqcrypto_traits::sign::SecretKey::as_bytes(&sk).to_vec(),
    )
}

#[test]
fn signatures_verify_and_detect_tampering() {
    let (pk, sk) = dilithium_keys();
    assert_eq!(pk.len(), DILITHIUM_PUBLIC_KEY_BYTES);
    let sig = sign_message(b"dither", &sk).unwrap();
    assert_eq!(sig.len(), DILITHIUM_SIGNATURE_BYTES);
    assert_eq!(sign_message(b"dither", &sk).unwrap(), sig);
    assert_ne!(sign_message(b"ditheR", &sk).unwrap(), sig);
    assert_eq!(verify_signature(b"dither", &sig, &pk), Ok(true));
    assert_eq!(verify_signature(b"ditheR", &sig, &pk), Ok(false));
}

#[test]
fn signing_refuses_bad_key() {
    let sk = vec![0u8; DILITHIUM_SECRET_KEY_BYTES + 1];
    assert_eq!(sign_message(b"m", &sk), Err(CryptoError::InvalidKeyEncoding));
}

#[test]
fn verifying_refuses_bad_encodings() {
    let (pk, _) = dilithium_keys();
    let long_sig = vec![0u8; DILITHIUM_SIGNATURE_BYTES + 1];
    assert_eq!(verify_signature(b"m", &long_sig, &pk), Err(CryptoError::InvalidKeyEncoding));
    assert_eq!(verify_signature(b"m", &long_sig, &pk[1..]), Err(CryptoError::InvalidKeyEncoding));
    let short_sig = vec![0u8; 100];
    assert_eq!(verify_signature(b"m", &short_sig, &pk), Err(CryptoError::InvalidKeyEncoding));
    assert_eq!(verify_signature(b"m", &[], &pk), Err(CryptoError::InvalidKeyEncoding));
}
