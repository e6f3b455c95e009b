//! Cryptographic primitives: HMAC-SHA256, MD5, SHA-256, RSA PKCS#1 v1.5 signatures
//! and AES-256-GCM decryption.
use vstd::prelude::*;
use vstd::string::StringSliceAdditionalSpecFns;
use crate::codec::spec_hex_lower;
use aes_gcm::aead::{Aead, KeyInit, Payload};
use hmac::Mac;
use rsa::pkcs1::DecodeRsaPrivateKey;
use rsa::pkcs8::{DecodePrivateKey, DecodePublicKey};
use sha2::Digest;

verus! {

/// HMAC-SHA256 tag of `msg` under `key` (32 bytes).
pub uninterp spec fn spec_hmac_sha256(key: Seq<u8>, msg: Seq<u8>) -> Seq<u8>;

/// Computes HMAC-SHA256 (`hmac::Hmac<sha2::Sha256>`). HMAC accepts keys of any length,
/// so `new_from_slice` never fails.
#[verifier::external_body]
pub(crate) fn hmac_sha256(key: &[u8], msg: &[u8]) -> (tag: Vec<u8>)
    ensures
        tag@ == spec_hmac_sha256(key@, msg@),
{
    let mut mac = <hmac::Hmac<sha2::Sha256> as Mac>::new_from_slice(key).expect(
        "HMAC-SHA256 accepts keys of any length",
    );
    mac.update(msg);
    mac.finalize().into_bytes().to_vec()
}

/// Checks a tag against the HMAC-SHA256 of `msg` under `key` in constant time
/// (`Mac::verify_slice`): true exactly when the tag equals the computed one.
#[verifier::external_body]
pub(crate) fn hmac_sha256_verify(key: &[u8], msg: &[u8], tag: &[u8]) -> (ok: bool)
    ensures
        ok == (spec_hmac_sha256(key@, msg@) == tag@),
{
    let mut mac = <hmac::Hmac<sha2::Sha256> as Mac>::new_from_slice(key).expect(
        "HMAC-SHA256 accepts keys of any length",
    );
    mac.update(msg);
    mac.verify_slice(tag).is_ok()
}

/// MD5 digest of bytes (16 bytes).
pub uninterp spec fn spec_md5(data: Seq<u8>) -> Seq<u8>;

/// The lower-case hexadecimal MD5 digest of the UTF-8 bytes of `data`
/// (`format!("{:x}", md5::compute(data))`, two digits per byte).
#[verifier::external_body]
pub(crate) fn md5_hex(data: &str) -> (s: String)
    ensures
        s@ == spec_hex_lower(spec_md5(data.spec_bytes())),
{
    format!("{:x}", md5::compute(data))
}

/// SHA-256 digest of bytes (32 bytes).
pub uninterp spec fn spec_sha256(data: Seq<u8>) -> Seq<u8>;

/// Computes a SHA-256 digest (`sha2::Sha256::digest`).
#[verifier::external_body]
pub(crate) fn sha256(data: &[u8]) -> (digest: Vec<u8>)
    ensures
        digest@ == spec_sha256(data@),
{
    sha2::Sha256::digest(data).to_vec()
}

/// Whether `RsaPrivateKey::from_pkcs8_pem` reads a text as a private key.
pub uninterp spec fn spec_pkcs8_private_key_pem(pem: Seq<char>) -> bool;

/// Checks that a text reads as a PKCS#8 PEM private key (`RsaPrivateKey::from_pkcs8_pem`).
/// Whether it does depends on the text alone; the error text is not stated.
#[verifier::external_body]
pub(crate) fn rsa_private_key_from_pkcs8_pem(pem: &str) -> (res: Result<(), String>)
    ensures
        res is Ok == spec_pkcs8_private_key_pem(pem@),
{
    rsa::RsaPrivateKey::from_pkcs8_pem(pem).map(|_| ()).map_err(|error| error.to_string())
}

/// Whether `RsaPrivateKey::from_pkcs1_pem` reads a text as a private key.
pub uninterp spec fn spec_pkcs1_private_key_pem(pem: Seq<char>) -> bool;

/// Checks that a text reads as a PKCS#1 PEM private key (`RsaPrivateKey::from_pkcs1_pem`).
/// Whether it does depends on the text alone; the error text is not stated.
#[verifier::external_body]
pub(crate) fn rsa_private_key_from_pkcs1_pem(pem: &str) -> (res: Result<(), String>)
    ensures
        res is Ok == spec_pkcs1_private_key_pem(pem@),
{
    rsa::RsaPrivateKey::from_pkcs1_pem(pem).map(|_| ()).map_err(|error| error.to_string())
}

/// Whether `RsaPublicKey::from_public_key_pem` reads a text as a public key.
pub uninterp spec fn spec_public_key_pem(pem: Seq<char>) -> bool;

/// Checks that a text reads as an SPKI PEM public key (`RsaPublicKey::from_public_key_pem`).
/// Whether it does depends on the text alone; the error text is not stated.
#[verifier::external_body]
pub(crate) fn rsa_public_key_from_pem(pem: &str) -> (res: Result<(), String>)
    ensures
        res is Ok == spec_public_key_pem(pem@),
{
    rsa::RsaPublicKey::from_public_key_pem(pem).map(|_| ()).map_err(|error| error.to_string())
}

/// Whether an RSASSA-PKCS1-v1_5 signature verifies over a SHA-256 digest under the
/// public key that a PEM text holds.
pub uninterp spec fn spec_rsa_verify_sha256(public_key_pem: Seq<char>, digest: Seq<u8>, signature: Seq<u8>) -> bool;

/// Reads the public key (`RsaPublicKey::from_public_key_pem`) and verifies an
/// RSASSA-PKCS1-v1_5 signature over a SHA-256 digest with it (`RsaPublicKey::verify`
/// with `Pkcs1v15Sign::new::<Sha256>()`). The check is deterministic: the result is a
/// function of the key text, the digest and the signature.
#[verifier::external_body]
pub(crate) fn rsa_verify_sha256(public_key_pem: &str, digest: &[u8], signature: &[u8]) -> (ok: bool)
    requires
        spec_public_key_pem(public_key_pem@),
    ensures
        ok == spec_rsa_verify_sha256(public_key_pem@, digest@, signature@),
{
    match rsa::RsaPublicKey::from_public_key_pem(public_key_pem) {
        Ok(key) => key.verify(rsa::Pkcs1v15Sign::new::<sha2::Sha256>(), digest, signature).is_ok(),
        Err(_) => false,
    }
}

/// The RSASSA-PKCS1-v1_5 signature of a SHA-256 digest under the PKCS#8 private key that
/// a PEM text holds, or `None` when signing fails.
pub uninterp spec fn spec_rsa_sign_sha256_pkcs8(private_key_pem: Seq<char>, digest: Seq<u8>) -> Option<Seq<u8>>;

/// Reads a PKCS#8 private key (`RsaPrivateKey::from_pkcs8_pem`) and signs a SHA-256
/// digest with it (`RsaPrivateKey::sign` with `Pkcs1v15Sign::new::<Sha256>()`, which
/// uses no randomness). `Err` carries the library's error text, which is not stated.
#[verifier::external_body]
pub(crate) fn rsa_sign_sha256_pkcs8(private_key_pem: &str, digest: &[u8]) -> (res: Result<Vec<u8>, String>)
    requires
        spec_pkcs8_private_key_pem(private_key_pem@),
    ensures
        match res {
            Ok(s) => spec_rsa_sign_sha256_pkcs8(private_key_pem@, digest@) == Some(s@),
            Err(_) => spec_rsa_sign_sha256_pkcs8(private_key_pem@, digest@) is None,
        },
{
    rsa::RsaPrivateKey::from_pkcs8_pem(private_key_pem)
        .map_err(|error| error.to_string())?
        .sign(rsa::Pkcs1v15Sign::new::<sha2::Sha256>(), digest)
        .map_err(|error| error.to_string())
}

/// The RSASSA-PKCS1-v1_5 signature of a SHA-256 digest under the PKCS#1 private key that
/// a PEM text holds, or `None` when signing fails.
pub uninterp spec fn spec_rsa_sign_sha256_pkcs1(private_key_pem: Seq<char>, digest: Seq<u8>) -> Option<Seq<u8>>;

/// Reads a PKCS#1 private key (`RsaPrivateKey::from_pkcs1_pem`) and signs a SHA-256
/// digest with it (`RsaPrivateKey::sign` with `Pkcs1v15Sign::new::<Sha256>()`, which
/// uses no randomness). `Err` carries the library's error text, which is not stated.
#[verifier::external_body]
pub(crate) fn rsa_sign_sha256_pkcs1(private_key_pem: &str, digest: &[u8]) -> (res: Result<Vec<u8>, String>)
    requires
        spec_pkcs1_private_key_pem(private_key_pem@),
    ensures
        match res {
            Ok(s) => spec_rsa_sign_sha256_pkcs1(private_key_pem@, digest@) == Some(s@),
            Err(_) => spec_rsa_sign_sha256_pkcs1(private_key_pem@, digest@) is None,
        },
{
    rsa::RsaPrivateKey::from_pkcs1_pem(private_key_pem)
        .map_err(|error| error.to_string())?
        .sign(rsa::Pkcs1v15Sign::new::<sha2::Sha256>(), digest)
        .map_err(|error| error.to_string())
}

/// The plaintext that AES-256-GCM decryption recovers from `ciphertext` (with its
/// appended tag) under `key`, `nonce` and associated data `aad`; `None` when the tag
/// does not authenticate.
pub uninterp spec fn spec_aes256gcm_decrypt(
    key: Seq<u8>,
    nonce: Seq<u8>,
    ciphertext: Seq<u8>,
    aad: Seq<u8>,
) -> Option<Seq<u8>>;

/// Decrypts and authenticates with AES-256-GCM (`aes_gcm::Aes256Gcm`). A 32-byte key
/// and a 12-byte nonce are always accepted by the cipher.
#[verifier::external_body]
pub(crate) fn aes256gcm_decrypt(key: &[u8], nonce: &[u8], ciphertext: &[u8], aad: &[u8]) -> (res: Option<
    Vec<u8>,
>)
    requires
        key@.len() == 32,
        nonce@.len() == 12,
    ensures
        match res {
            Some(p) => spec_aes256gcm_decrypt(key@, nonce@, ciphertext@, aad@) == Some(p@),
            None => spec_aes256gcm_decrypt(key@, nonce@, ciphertext@, aad@) is None,
        },
{
    let cipher = aes_gcm::Aes256Gcm::new_from_slice(key).expect("AES-256 keys are 32 bytes");
    cipher.decrypt(aes_gcm::Nonce::from_slice(nonce), Payload { msg: ciphertext, aad }).ok()
}

} // verus!
