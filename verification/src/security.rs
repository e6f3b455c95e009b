//! Administrator key check and order password hashing.
use vstd::prelude::*;
use vstd::string::StringSliceAdditionalSpecFns;
use crate::codec::{hex_encode, spec_hex_lower};
use crate::crypto::{hmac_sha256, hmac_sha256_verify, spec_hmac_sha256};
use crate::error::AppError;
use crate::text::str_eq;

verus! {

/// Message whose HMAC under a key identifies that key.
pub const ADMIN_KEY_VERIFICATION_CONTEXT: &'static str = "qddxp-admin-key-verification-v1";

/// Tag that identifies an administrator key.
pub open spec fn spec_admin_key_tag(key: Seq<char>) -> Seq<u8> {
    spec_hmac_sha256(vstd::utf8::encode_utf8(key), ADMIN_KEY_VERIFICATION_CONTEXT.spec_bytes())
}

/// Whether a candidate administrator key is accepted against the configured one.
pub open spec fn spec_admin_key_matches(candidate: Seq<char>, expected: Seq<char>) -> bool {
    spec_admin_key_tag(candidate) == spec_admin_key_tag(expected)
}

/// Compares administrator keys through their HMAC tags, in constant time, so that the
/// comparison does not return early on the first differing character. The key is only
/// accepted at login; authenticated requests read the server-side session.
pub fn verify_admin_key(candidate: &str, expected: &str) -> (ok: bool)
    ensures
        ok == spec_admin_key_matches(candidate@, expected@),
{
    let context = ADMIN_KEY_VERIFICATION_CONTEXT.as_bytes();
    let expected_tag = hmac_sha256(expected.as_bytes(), context);
    hmac_sha256_verify(candidate.as_bytes(), context, expected_tag.as_slice())
}

/// The configured administrator key is always accepted, and acceptance does not depend
/// on which of two keys is the candidate.
pub proof fn lemma_admin_key_accepts_itself(key: Seq<char>, other: Seq<char>)
    ensures
        spec_admin_key_matches(key, key),
        spec_admin_key_matches(key, other) == spec_admin_key_matches(other, key),
{
}

/// Stored hash of an order password: lower-case hex of HMAC-SHA256 of the password
/// keyed by the pepper.
pub open spec fn spec_order_password_hash(password: Seq<char>, pepper: Seq<char>) -> Seq<char> {
    spec_hex_lower(spec_hmac_sha256(vstd::utf8::encode_utf8(pepper), vstd::utf8::encode_utf8(password)))
}

/// Hashes an order password with the deployment's pepper. HMAC accepts peppers of any
/// length, so this never fails.
pub fn hash_order_password(password: &str, pepper: &str) -> (res: Result<String, AppError>)
    ensures
        res matches Ok(h) && h@ == spec_order_password_hash(password@, pepper@),
{
    let tag = hmac_sha256(pepper.as_bytes(), password.as_bytes());
    Ok(hex_encode(tag.as_slice()))
}

/// Whether a password matches a stored hash under a pepper.
pub open spec fn spec_order_password_matches(password: Seq<char>, expected_hash: Seq<char>, pepper: Seq<char>) -> bool {
    spec_order_password_hash(password, pepper) == expected_hash
}

/// Checks an order password against the stored hash.
pub fn verify_order_password(password: &str, expected_hash: &str, pepper: &str) -> (res: Result<
    bool,
    AppError,
>)
    ensures
        res matches Ok(b) && b == spec_order_password_matches(password@, expected_hash@, pepper@),
{
    let hash = hash_order_password(password, pepper)?;
    Ok(str_eq(hash.as_str(), expected_hash))
}

/// A password always verifies against the hash that was stored for it under the same
/// pepper.
pub proof fn lemma_password_verifies_against_own_hash(password: Seq<char>, pepper: Seq<char>)
    ensures
        spec_order_password_matches(password, spec_order_password_hash(password, pepper), pepper),
{
}

} // verus!
