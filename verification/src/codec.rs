//! Text encodings that the shop's protocols use: UUIDs, timestamps, hexadecimal,
//! percent-encoding, Base64 and UTF-8.
//!
//! Timestamps are microseconds since the Unix epoch (UTC).
use vstd::prelude::*;
use vstd::utf8::{decode_utf8, valid_utf8};
use vstd::string::StringSliceAdditionalSpecFns;
use base64::Engine;

verus! {

/// Lower-case hexadecimal digit of `n` (`n < 16`).
pub open spec fn hex_digit_lower(n: nat) -> char {
    if n < 10 {
        ((n + 48) as u32) as char
    } else {
        ((n + 87) as u32) as char
    }
}

/// Upper-case hexadecimal digit of `n` (`n < 16`).
pub open spec fn hex_digit_upper(n: nat) -> char {
    if n < 10 {
        ((n + 48) as u32) as char
    } else {
        ((n + 55) as u32) as char
    }
}

/// The `n` lower-case hexadecimal digits of `v` modulo `16^n`, most significant first.
pub open spec fn spec_hex_fixed(v: nat, n: nat) -> Seq<char>
    decreases n,
{
    if n == 0 {
        seq![]
    } else {
        spec_hex_fixed(v / 16, (n - 1) as nat).push(hex_digit_lower(v % 16))
    }
}

/// Lower-case hexadecimal encoding of bytes, two digits per byte.
pub open spec fn spec_hex_lower(bytes: Seq<u8>) -> Seq<char>
    decreases bytes.len(),
{
    if bytes.len() == 0 {
        seq![]
    } else {
        seq![hex_digit_lower((bytes[0] / 16) as nat), hex_digit_lower((bytes[0] % 16) as nat)]
            + spec_hex_lower(bytes.drop_first())
    }
}

/// The hyphenated lower-case form `xxxxxxxx-xxxx-xxxx-xxxx-xxxxxxxxxxxx` of a UUID.
pub open spec fn spec_uuid_hyphenated(id: u128) -> Seq<char> {
    let h = spec_hex_fixed(id as nat, 32);
    h.subrange(0, 8) + "-"@ + h.subrange(8, 12) + "-"@ + h.subrange(12, 16) + "-"@ + h.subrange(
        16,
        20,
    ) + "-"@ + h.subrange(20, 32)
}

/// The UUID that `uuid::Uuid::parse_str` reads from `s` (simple, hyphenated, braced or
/// URN form), as a 128-bit integer in big-endian byte order.
pub uninterp spec fn spec_parse_uuid(s: Seq<char>) -> Option<u128>;

/// Parses a UUID with `uuid::Uuid::parse_str`.
#[verifier::external_body]
pub(crate) fn parse_uuid(s: &str) -> (res: Option<u128>)
    ensures
        res == spec_parse_uuid(s@),
{
    uuid::Uuid::parse_str(s).ok().map(|id| id.as_u128())
}

/// Formats a UUID in hyphenated lower-case form (`uuid::Uuid`'s `Display`).
#[verifier::external_body]
pub(crate) fn uuid_to_string(id: u128) -> (s: String)
    ensures
        s@ == spec_uuid_hyphenated(id),
{
    uuid::Uuid::from_u128(id).to_string()
}

/// Formats a UUID as 32 lower-case hexadecimal digits without hyphens
/// (`uuid::Uuid::simple`).
#[verifier::external_body]
pub(crate) fn uuid_simple(id: u128) -> (s: String)
    ensures
        s@ == spec_hex_fixed(id as nat, 32),
{
    uuid::Uuid::from_u128(id).simple().to_string()
}

/// Lower-case hexadecimal encoding of bytes (`hex::encode`).
#[verifier::external_body]
pub(crate) fn hex_encode(bytes: &[u8]) -> (s: String)
    ensures
        s@ == spec_hex_lower(bytes@),
{
    hex::encode(bytes)
}

/// A byte that percent-encoding keeps: ASCII letters, digits and `-`, `.`, `_`, `~`.
pub open spec fn spec_url_safe_byte(b: u8) -> bool {
    (48 <= b <= 57) || (65 <= b <= 90) || (97 <= b <= 122) || b == 45 || b == 46 || b == 95 || b
        == 126
}

/// Percent-encoding of UTF-8 bytes: safe bytes stay, every other byte becomes `%XY`
/// with upper-case hexadecimal digits.
pub open spec fn spec_url_encode(bytes: Seq<u8>) -> Seq<char>
    decreases bytes.len(),
{
    if bytes.len() == 0 {
        seq![]
    } else {
        let b = bytes[0];
        let head = if spec_url_safe_byte(b) {
            seq![(b as u32) as char]
        } else {
            seq!['%', hex_digit_upper((b / 16) as nat), hex_digit_upper((b % 16) as nat)]
        };
        head + spec_url_encode(bytes.drop_first())
    }
}

/// Percent-encodes a string (`urlencoding::encode`).
#[verifier::external_body]
pub(crate) fn url_encode(s: &str) -> (r: String)
    ensures
        r@ == spec_url_encode(s.spec_bytes()),
{
    urlencoding::encode(s).into_owned()
}

/// Decodes UTF-8 bytes (`std::str::from_utf8`); `None` for invalid UTF-8.
#[verifier::external_body]
pub(crate) fn utf8_decode(bytes: &[u8]) -> (res: Option<String>)
    ensures
        res is Some <==> valid_utf8(bytes@),
        res matches Some(s) ==> s@ == decode_utf8(bytes@),
{
    std::str::from_utf8(bytes).ok().map(|s| s.to_string())
}

/// Smallest microsecond timestamp that `chrono::DateTime<Utc>` represents.
pub open spec fn min_micros() -> int {
    -8334601315200000000
}

/// Largest microsecond timestamp that `chrono::DateTime<Utc>` represents.
pub open spec fn max_micros() -> int {
    8210266876799999999
}

/// A timestamp that `chrono::DateTime<Utc>` can hold.
pub open spec fn micros_in_range(t: i64) -> bool {
    min_micros() <= t <= max_micros()
}

/// The instant that `chrono::DateTime::parse_from_rfc3339` reads from `s`, in UTC
/// microseconds.
pub uninterp spec fn spec_parse_rfc3339(s: Seq<char>) -> Option<i64>;

/// Parses an RFC 3339 date-time and converts it to UTC microseconds.
#[verifier::external_body]
pub(crate) fn parse_rfc3339_micros(s: &str) -> (res: Option<i64>)
    ensures
        res == spec_parse_rfc3339(s@),
{
    chrono::DateTime::parse_from_rfc3339(s).ok().map(|t| t.with_timezone(&chrono::Utc).timestamp_micros())
}

/// `chrono::DateTime<Utc>::to_rfc3339` of an instant.
pub uninterp spec fn spec_rfc3339(t: i64) -> Seq<char>;

/// Formats an instant as RFC 3339 (`chrono::DateTime<Utc>::to_rfc3339`).
#[verifier::external_body]
pub(crate) fn format_rfc3339(t: i64) -> (s: String)
    requires
        micros_in_range(t),
    ensures
        s@ == spec_rfc3339(t),
{
    chrono::DateTime::from_timestamp_micros(t).unwrap().to_rfc3339()
}

/// `chrono` formatting of an instant (UTC) with a `strftime` pattern.
pub uninterp spec fn spec_format_utc(t: i64, pattern: Seq<char>) -> Seq<char>;

/// Formats an instant in UTC with a `strftime` pattern (`DateTime::format`). Only the
/// pattern the notifications use is admitted: `chrono` panics while displaying a pattern
/// it cannot read, and that one it reads.
#[verifier::external_body]
pub(crate) fn format_utc(t: i64, pattern: &str) -> (s: String)
    requires
        micros_in_range(t),
        pattern@ == crate::notifications::TIME_PATTERN@,
    ensures
        s@ == spec_format_utc(t, pattern@),
{
    chrono::DateTime::from_timestamp_micros(t).unwrap().format(pattern).to_string()
}

/// Standard Base64 encoding with padding (`base64::engine::general_purpose::STANDARD`).
pub uninterp spec fn spec_base64_encode(bytes: Seq<u8>) -> Seq<char>;

/// Encodes bytes in standard Base64 with padding.
#[verifier::external_body]
pub(crate) fn base64_encode(bytes: &[u8]) -> (s: String)
    ensures
        s@ == spec_base64_encode(bytes@),
{
    base64::engine::general_purpose::STANDARD.encode(bytes)
}

/// What standard Base64 decoding (with padding) makes of `s`: the bytes, or the text
/// of the decoding error.
pub uninterp spec fn spec_base64_decode(s: Seq<char>) -> Result<Seq<u8>, Seq<char>>;

/// Decodes standard Base64 with padding; the error carries the decoder's description.
#[verifier::external_body]
pub(crate) fn base64_decode(s: &str) -> (res: Result<Vec<u8>, String>)
    ensures
        match res {
            Ok(v) => spec_base64_decode(s@) == Ok::<Seq<u8>, Seq<char>>(v@),
            Err(e) => spec_base64_decode(s@) == Err::<Seq<u8>, Seq<char>>(e@),
        },
{
    base64::engine::general_purpose::STANDARD.decode(s).map_err(|error| error.to_string())
}

} // verus!
