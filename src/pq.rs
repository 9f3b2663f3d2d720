//! Byte-level front ends over kyber512 key encapsulation and dilithium2
//! detached signatures.
//!
//! The primitives themselves come from the `pqcrypto` crates. What this
//! module decides is which encodings are well formed, and it refuses the
//! others with an error instead of letting them reach the primitives.
use vstd::prelude::*;

verus! {

/// Length of an encoded kyber512 public key.
pub const KYBER_PUBLIC_KEY_BYTES: usize = 800;

/// Length of an encoded kyber512 secret key.
pub const KYBER_SECRET_KEY_BYTES: usize = 1632;

/// Length of a kyber512 ciphertext.
pub const KYBER_CIPHERTEXT_BYTES: usize = 768;

/// Length of a kyber512 shared secret.
pub const KYBER_SHARED_SECRET_BYTES: usize = 32;

/// Length of an encoded dilithium2 public key.
pub const DILITHIUM_PUBLIC_KEY_BYTES: usize = 1312;

/// Length of an encoded dilithium2 secret key.
pub const DILITHIUM_SECRET_KEY_BYTES: usize = 2560;

/// Length of a dilithium2 detached signature.
pub const DILITHIUM_SIGNATURE_BYTES: usize = 2420;

/// The shared secret that kyber512 decapsulation recovers from a secret key
/// and a ciphertext.
pub uninterp spec fn kyber512_decapsulation(sk: Seq<u8>, ct: Seq<u8>) -> Seq<u8>;

/// The kyber512 public-key hash (SHA3-256) that a secret key stores after
/// the public key.
pub uninterp spec fn kyber512_public_key_hash(pk: Seq<u8>) -> Seq<u8>;

/// The ciphertext and shared secret that kyber512 encapsulation derives from
/// a public key and 32 bytes of randomness.
pub uninterp spec fn kyber512_encapsulation(pk: Seq<u8>, coins: Seq<u8>) -> (Seq<u8>, Seq<u8>);

/// Whether `ct` and `ss` are what kyber512 encapsulation derives from `pk`
/// for some choice of its 32 random bytes.
pub open spec fn encapsulates(pk: Seq<u8>, ct: Seq<u8>, ss: Seq<u8>) -> bool {
    exists|coins: [u8; 32]| #[trigger] kyber512_encapsulation(pk, coins@) == (ct, ss)
}

/// The deterministic dilithium2 detached signature of a message under a
/// secret key.
pub uninterp spec fn dilithium2_signature(msg: Seq<u8>, sk: Seq<u8>) -> Seq<u8>;

/// Whether dilithium2 accepts a detached signature on a message under a
/// public key.
pub uninterp spec fn dilithium2_accepts(msg: Seq<u8>, sig: Seq<u8>, pk: Seq<u8>) -> bool;

/// Why an encoding was refused.
#[derive(Clone, Copy, Debug, PartialEq, Eq)]
pub enum CryptoError {
    /// A key, or a signature, does not have the length of its kind.
    InvalidKeyEncoding,
    /// A ciphertext does not have the kyber512 ciphertext length.
    InvalidCiphertextEncoding,
}

/// A fresh kyber512 key pair, both halves encoded.
pub struct KyberKeyPair {
    pub public_key: Vec<u8>,
    pub secret_key: Vec<u8>,
}

/// The result of encapsulating to a public key: the ciphertext to send and
/// the shared secret to keep.
pub struct Encapsulation {
    pub ciphertext: Vec<u8>,
    pub shared_secret: Vec<u8>,
}

/// Relies on `pqcrypto_kyber::kyber512::keypair`: a fresh key pair, whose
/// encodings (`as_bytes`) are the fixed-size arrays of the crate's key types.
/// The secret key holds a copy of the public key at bytes 768..1568 and its
/// hash at bytes 1568..1600 (`crypto_kem_keypair_derand` in `kem.c`).
#[verifier::external_body]
fn kyber_keypair() -> (r: (Vec<u8>, Vec<u8>))
    ensures
        r.0@.len() == KYBER_PUBLIC_KEY_BYTES,
        r.1@.len() == KYBER_SECRET_KEY_BYTES,
        r.1@.subrange(768, 1568) == r.0@,
        r.1@.subrange(1568, 1600) == kyber512_public_key_hash(r.0@),
{
    let (pk, sk) = pqcrypto_kyber::kyber512::keypair();
    (
        pqcrypto_traits::kem::PublicKey::as_bytes(&pk).to_vec(),
        pqcrypto_traits::kem::SecretKey::as_bytes(&sk).to_vec(),
    )
}

/// Relies on `pqcrypto_kyber::kyber512::encapsulate`: a ciphertext and
/// shared secret of the crate's fixed sizes, derived from the key and 32
/// random bytes (`crypto_kem_enc` calls `crypto_kem_enc_derand` in `kem.c`).
/// `PublicKey::from_bytes` only checks the length, which `requires` fixes.
#[verifier::external_body]
fn kyber_encapsulate(pk: &[u8]) -> (r: (Vec<u8>, Vec<u8>))
    requires
        pk@.len() == KYBER_PUBLIC_KEY_BYTES,
    ensures
        r.0@.len() == KYBER_CIPHERTEXT_BYTES,
        r.1@.len() == KYBER_SHARED_SECRET_BYTES,
        exists|coins: [u8; 32]| #[trigger] kyber512_encapsulation(pk@, coins@) == (r.0@, r.1@),
{
    let pk = <pqcrypto_kyber::kyber512::PublicKey as pqcrypto_traits::kem::PublicKey>::from_bytes(
        pk,
    ).expect("length checked by the caller");
    let (ss, ct) = pqcrypto_kyber::kyber512::encapsulate(&pk);
    (
        pqcrypto_traits::kem::Ciphertext::as_bytes(&ct).to_vec(),
        pqcrypto_traits::kem::SharedSecret::as_bytes(&ss).to_vec(),
    )
}

/// Relies on `pqcrypto_kyber::kyber512::decapsulate`: a shared secret of the
/// crate's fixed size, determined by the two encodings alone.
/// `from_bytes` only checks the lengths, which `requires` fixes.
#[verifier::external_body]
fn kyber_decapsulate(sk: &[u8], ct: &[u8]) -> (r: Vec<u8>)
    requires
        sk@.len() == KYBER_SECRET_KEY_BYTES,
        ct@.len() == KYBER_CIPHERTEXT_BYTES,
    ensures
        r@ == kyber512_decapsulation(sk@, ct@),
        r@.len() == KYBER_SHARED_SECRET_BYTES,
{
    let sk = <pqcrypto_kyber::kyber512::SecretKey as pqcrypto_traits::kem::SecretKey>::from_bytes(
        sk,
    ).expect("length checked by the caller");
    let ct = <pqcrypto_kyber::kyber512::Ciphertext as pqcrypto_traits::kem::Ciphertext>::from_bytes(
        ct,
    ).expect("length checked by the caller");
    let ss = pqcrypto_kyber::kyber512::decapsulate(&ct, &sk);
    pqcrypto_traits::kem::SharedSecret::as_bytes(&ss).to_vec()
}

/// Relies on `pqcrypto_dilithium::dilithium2::detached_sign`: signing zeroes
/// its random input (`rnd` in `sign.c`), so the signature depends on the
/// message and key alone, and it always has the full signature length.
/// `from_bytes` only checks the length, which `requires` fixes.
#[verifier::external_body]
fn dilithium_sign(msg: &[u8], sk: &[u8]) -> (r: Vec<u8>)
    requires
        sk@.len() == DILITHIUM_SECRET_KEY_BYTES,
    ensures
        r@ == dilithium2_signature(msg@, sk@),
        r@.len() == DILITHIUM_SIGNATURE_BYTES,
{
    let sk = <pqcrypto_dilithium::dilithium2::SecretKey as pqcrypto_traits::sign::SecretKey>::from_bytes(
        sk,
    ).expect("length checked by the caller");
    let sig = pqcrypto_dilithium::dilithium2::detached_sign(msg, &sk);
    pqcrypto_traits::sign::DetachedSignature::as_bytes(&sig).to_vec()
}

/// Relies on `pqcrypto_dilithium::dilithium2::verify_detached_signature`:
/// whether it returns `Ok` depends on the three encodings alone.
/// `from_bytes` only checks the lengths, which `requires` fixes.
#[verifier::external_body]
fn dilithium_verify(msg: &[u8], sig: &[u8], pk: &[u8]) -> (r: bool)
    requires
        sig@.len() == DILITHIUM_SIGNATURE_BYTES,
        pk@.len() == DILITHIUM_PUBLIC_KEY_BYTES,
    ensures
        r == dilithium2_accepts(msg@, sig@, pk@),
{
    let sig = <pqcrypto_dilithium::dilithium2::DetachedSignature as pqcrypto_traits::sign::DetachedSignature>::from_bytes(
        sig,
    ).expect("length checked by the caller");
    let pk = <pqcrypto_dilithium::dilithium2::PublicKey as pqcrypto_traits::sign::PublicKey>::from_bytes(
        pk,
    ).expect("length checked by the caller");
    pqcrypto_dilithium::dilithium2::verify_detached_signature(&sig, msg, &pk).is_ok()
}

/// Generates a kyber512 key pair. The secret key embeds the public key and
/// its hash.
pub fn generate_kyber_keys() -> (r: KyberKeyPair)
    ensures
        r.public_key@.len() == KYBER_PUBLIC_KEY_BYTES,
        r.secret_key@.len() == KYBER_SECRET_KEY_BYTES,
        r.secret_key@.subrange(768, 1568) == r.public_key@,
        r.secret_key@.subrange(1568, 1600) == kyber512_public_key_hash(r.public_key@),
{
    let (public_key, secret_key) = kyber_keypair();
    KyberKeyPair { public_key, secret_key }
}

/// Encapsulates a fresh shared secret to an encoded kyber512 public key.
pub fn encapsulate(public_key_bytes: &[u8]) -> (r: Result<Encapsulation, CryptoError>)
    ensures
        public_key_bytes@.len() != KYBER_PUBLIC_KEY_BYTES ==> r == Err::<Encapsulation, CryptoError>(
            CryptoError::InvalidKeyEncoding,
        ),
        public_key_bytes@.len() == KYBER_PUBLIC_KEY_BYTES ==> r is Ok
            && r->Ok_0.ciphertext@.len() == KYBER_CIPHERTEXT_BYTES
            && r->Ok_0.shared_secret@.len() == KYBER_SHARED_SECRET_BYTES && encapsulates(
                public_key_bytes@,
                r->Ok_0.ciphertext@,
                r->Ok_0.shared_secret@,
            ),
{
    if public_key_bytes.len() != KYBER_PUBLIC_KEY_BYTES {
        return Err(CryptoError::InvalidKeyEncoding);
    }
    let (ciphertext, shared_secret) = kyber_encapsulate(public_key_bytes);
    Ok(Encapsulation { ciphertext, shared_secret })
}

/// Recovers the shared secret of a kyber512 ciphertext. A malformed key is
/// reported before a malformed ciphertext.
pub fn decapsulate(secret_key_bytes: &[u8], ciphertext_bytes: &[u8]) -> (r: Result<
    Vec<u8>,
    CryptoError,
>)
    ensures
        match r {
            Ok(ss) => secret_key_bytes@.len() == KYBER_SECRET_KEY_BYTES && ciphertext_bytes@.len()
                == KYBER_CIPHERTEXT_BYTES && ss@ == kyber512_decapsulation(
                secret_key_bytes@,
                ciphertext_bytes@,
            ) && ss@.len() == KYBER_SHARED_SECRET_BYTES,
            Err(CryptoError::InvalidKeyEncoding) => secret_key_bytes@.len()
                != KYBER_SECRET_KEY_BYTES,
            Err(CryptoError::InvalidCiphertextEncoding) => secret_key_bytes@.len()
                == KYBER_SECRET_KEY_BYTES && ciphertext_bytes@.len() != KYBER_CIPHERTEXT_BYTES,
        },
{
    if secret_key_bytes.len() != KYBER_SECRET_KEY_BYTES {
        return Err(CryptoError::InvalidKeyEncoding);
    }
    if ciphertext_bytes.len() != KYBER_CIPHERTEXT_BYTES {
        return Err(CryptoError::InvalidCiphertextEncoding);
    }
    Ok(kyber_decapsulate(secret_key_bytes, ciphertext_bytes))
}

/// Signs a message with an encoded dilithium2 secret key, giving its
/// deterministic detached signature.
pub fn sign_message(message: &[u8], secret_key_bytes: &[u8]) -> (r: Result<Vec<u8>, CryptoError>)
    ensures
        secret_key_bytes@.len() != DILITHIUM_SECRET_KEY_BYTES ==> r == Err::<Vec<u8>, CryptoError>(
            CryptoError::InvalidKeyEncoding,
        ),
        secret_key_bytes@.len() == DILITHIUM_SECRET_KEY_BYTES ==> r is Ok && r->Ok_0@
            == dilithium2_signature(message@, secret_key_bytes@) && r->Ok_0@.len()
            == DILITHIUM_SIGNATURE_BYTES,
{
    if secret_key_bytes.len() != DILITHIUM_SECRET_KEY_BYTES {
        return Err(CryptoError::InvalidKeyEncoding);
    }
    Ok(dilithium_sign(message, secret_key_bytes))
}

/// Checks a dilithium2 detached signature. A key or a signature of the
/// wrong length is refused as a malformed encoding.
pub fn verify_signature(message: &[u8], signature_bytes: &[u8], public_key_bytes: &[u8]) -> (r:
    Result<bool, CryptoError>)
    ensures
        match r {
            Ok(ok) => public_key_bytes@.len() == DILITHIUM_PUBLIC_KEY_BYTES && signature_bytes@.len()
                == DILITHIUM_SIGNATURE_BYTES && ok == dilithium2_accepts(
                message@,
                signature_bytes@,
                public_key_bytes@,
            ),
            Err(CryptoError::InvalidKeyEncoding) => public_key_bytes@.len()
                != DILITHIUM_PUBLIC_KEY_BYTES || signature_bytes@.len()
                != DILITHIUM_SIGNATURE_BYTES,
            Err(CryptoError::InvalidCiphertextEncoding) => false,
        },
{
    if public_key_bytes.len() != DILITHIUM_PUBLIC_KEY_BYTES {
        return Err(CryptoError::InvalidKeyEncoding);
    }
    if signature_bytes.len() != DILITHIUM_SIGNATURE_BYTES {
        return Err(CryptoError::InvalidKeyEncoding);
    }
    Ok(dilithium_verify(message, signature_bytes, public_key_bytes))
}

} // verus!
