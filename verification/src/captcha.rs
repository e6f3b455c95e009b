//! One-time CAPTCHA challenges that guard order creation.
//!
//! Challenges live in an in-memory cache with a time to live and a capacity; a
//! challenge is removed when it is checked, whatever the answer, so the same challenge
//! never passes twice, even for concurrent submissions.
use vstd::prelude::*;
use vstd::string::*;
use crate::text::{byte_len_below, spec_ascii_upper, spec_trim, str_eq, to_ascii_uppercase, trim};

verus! {

/// Characters of an answer.
pub const CAPTCHA_LENGTH: u32 = 5;

/// Seconds a challenge stays valid.
pub const CAPTCHA_TTL_SECONDS: u64 = 300;

/// Most challenges held at once.
pub const CAPTCHA_MAX_CAPACITY: u64 = 10_000;

/// Longest answer, in bytes, that is compared at all.
pub const CAPTCHA_MAX_ANSWER_BYTES: usize = 16;

/// A concurrent in-memory cache (`moka::sync::Cache`), carried through unchanged.
#[verifier::external_type_specification]
#[verifier::external_body]
#[verifier::reject_recursive_types(K)]
#[verifier::reject_recursive_types(V)]
#[verifier::reject_recursive_types(S)]
pub struct ExMokaCache<K, V, S>(moka::sync::Cache<K, V, S>);

/// The answers a challenge cache may still hold: each id with the answer last inserted
/// for it and not removed since. Entries also leave on their own (time to live,
/// capacity, admission), so the cache holds at most these.
pub uninterp spec fn spec_cache_answers(cache: moka::sync::Cache<u128, String>) -> Map<u128, Seq<char>>;

/// The time to live, in seconds, that a challenge cache was built with.
pub uninterp spec fn spec_cache_time_to_live(cache: moka::sync::Cache<u128, String>) -> u64;

/// Builds an empty cache named `name` that holds at most `capacity` entries and drops
/// each `ttl_seconds` after it was inserted (`moka::sync::Cache::builder` with `name`,
/// `max_capacity` and `time_to_live`). The name and capacity are not stated further.
#[verifier::external_body]
fn new_challenge_cache(name: &str, capacity: u64, ttl_seconds: u64) -> (c: moka::sync::Cache<u128, String>)
    ensures
        spec_cache_answers(c).dom() == Set::<u128>::empty(),
        spec_cache_time_to_live(c) == ttl_seconds,
{
    moka::sync::Cache::builder().name(name).max_capacity(capacity).time_to_live(
        std::time::Duration::from_secs(ttl_seconds),
    ).build()
}

/// Stores a challenge's answer, replacing any answer of the same id
/// (`moka::sync::Cache::insert`). The cache is owned by one service and never cloned, so
/// no other handle adds entries behind its back.
#[verifier::external_body]
fn cache_insert(cache: &mut moka::sync::Cache<u128, String>, id: u128, answer: String)
    ensures
        spec_cache_answers(*final(cache)) == spec_cache_answers(*old(cache)).insert(id, answer@),
        spec_cache_time_to_live(*final(cache)) == spec_cache_time_to_live(*old(cache)),
{
    cache.insert(id, answer)
}

/// Removes a challenge and returns its answer if it was still held
/// (`moka::sync::Cache::remove`). An answer that comes back is the one last inserted for
/// the id; whether it is still held depends on time and capacity, so that is left open.
#[verifier::external_body]
fn cache_remove(cache: &mut moka::sync::Cache<u128, String>, id: u128) -> (answer: Option<String>)
    ensures
        spec_cache_answers(*final(cache)) == spec_cache_answers(*old(cache)).remove(id),
        spec_cache_time_to_live(*final(cache)) == spec_cache_time_to_live(*old(cache)),
        answer matches Some(a) ==> spec_cache_answers(*old(cache)).contains_key(id)
            && spec_cache_answers(*old(cache))[id] == a@,
{
    cache.remove(&id)
}

/// The challenge store.
pub struct CaptchaService {
    challenges: moka::sync::Cache<u128, String>,
}

/// A challenge shown to a buyer: its id, the PNG image in Base64 and its lifetime.
#[derive(Debug, Clone)]
pub struct CaptchaChallenge {
    pub id: u128,
    pub image_base64: String,
    pub expires_in_seconds: u64,
}

/// Failures of challenge generation.
#[derive(Debug)]
pub enum CaptchaError {
    /// The image could not be encoded.
    ImageGeneration,
    /// The generating task failed; its description.
    GenerationTask(String),
}

impl CaptchaError {
    /// The text that describes this error.
    pub fn to_string(&self) -> (s: String)
        ensures
            s@ == (match self {
                CaptchaError::ImageGeneration => "CAPTCHA image generation returned no PNG data"@,
                CaptchaError::GenerationTask(_) => "CAPTCHA image generation task failed"@,
            }),
    {
        match self {
            CaptchaError::ImageGeneration => String::from_str(
                "CAPTCHA image generation returned no PNG data",
            ),
            CaptchaError::GenerationTask(_) => String::from_str("CAPTCHA image generation task failed"),
        }
    }
}

/// Whether a submitted answer passes against the answer of the removed challenge: the
/// challenge must still have been held, the submission must be at most
/// `CAPTCHA_MAX_ANSWER_BYTES` bytes, and, trimmed and upper-cased, equal the answer.
pub open spec fn spec_answer_accepted(expected: Option<Seq<char>>, submitted: Seq<char>) -> bool {
    match expected {
        None => false,
        Some(e) => vstd::utf8::encode_utf8(submitted).len() <= CAPTCHA_MAX_ANSWER_BYTES
            && spec_trim(submitted).map_values(|c: char| spec_ascii_upper(c)) == e,
    }
}

/// Compares a submitted answer with the answer of the removed challenge.
pub fn check_answer(expected: Option<String>, submitted: &str) -> (accepted: bool)
    ensures
        accepted == spec_answer_accepted(
            match expected {
                Some(e) => Some(e@),
                None => None,
            },
            submitted@,
        ),
{
    let expected = match expected {
        Some(e) => e,
        None => return false,
    };
    if !byte_len_below(submitted, CAPTCHA_MAX_ANSWER_BYTES + 1) {
        return false;
    }
    let normalized = to_ascii_uppercase(trim(submitted));
    str_eq(normalized.as_str(), expected.as_str())
}

impl CaptchaService {
    /// Every challenge lives `CAPTCHA_TTL_SECONDS`, as buyers are told.
    pub closed spec fn wf(&self) -> bool {
        spec_cache_time_to_live(self.challenges) == CAPTCHA_TTL_SECONDS
    }

    /// The answers the store may still hold, by challenge id.
    pub closed spec fn answers(&self) -> Map<u128, Seq<char>> {
        spec_cache_answers(self.challenges)
    }

    /// An empty challenge store.
    pub fn new() -> (s: Self)
        ensures
            s.wf(),
            s.answers().dom() == Set::<u128>::empty(),
    {
        CaptchaService {
            challenges: new_challenge_cache(
                "order_captcha_challenges",
                CAPTCHA_MAX_CAPACITY,
                CAPTCHA_TTL_SECONDS,
            ),
        }
    }

    /// Stores a generated challenge (its id, answer and image) and returns what the buyer
    /// sees of it.
    pub fn issue(&mut self, id: u128, answer: String, image_base64: String) -> (c: CaptchaChallenge)
        requires
            old(self).wf(),
        ensures
            final(self).wf(),
            c.id == id,
            c.image_base64@ == image_base64@,
            c.expires_in_seconds == CAPTCHA_TTL_SECONDS,
            final(self).answers() == old(self).answers().insert(id, answer@),
    {
        cache_insert(&mut self.challenges, id, answer);
        CaptchaChallenge { id, image_base64, expires_in_seconds: CAPTCHA_TTL_SECONDS }
    }

    /// Consumes a challenge and tells whether the answer passes. The challenge is gone
    /// afterwards whatever the answer, so it can pass at most once. An answer passes only
    /// against the answer last issued for the id, and an answer longer than
    /// `CAPTCHA_MAX_ANSWER_BYTES` bytes never passes.
    pub fn verify_once(&mut self, id: u128, submitted_answer: &str) -> (accepted: bool)
        requires
            old(self).wf(),
        ensures
            final(self).wf(),
            final(self).answers() == old(self).answers().remove(id),
            accepted ==> spec_may_pass(old(self).answers(), id, submitted_answer@),
    {
        let expected = cache_remove(&mut self.challenges, id);
        check_answer(expected, submitted_answer)
    }
}

/// Whether a store holding `answers` may let `submitted` pass for challenge `id`: the
/// challenge is held and the answer matches it.
pub open spec fn spec_may_pass(answers: Map<u128, Seq<char>>, id: u128, submitted: Seq<char>) -> bool {
    answers.contains_key(id) && spec_answer_accepted(Some(answers[id]), submitted)
}

/// A challenge passes at most once: once it was checked, right or wrong, no answer passes
/// for it until it is issued again.
pub proof fn lemma_challenge_passes_once(answers: Map<u128, Seq<char>>, id: u128, submitted: Seq<char>)
    ensures
        !spec_may_pass(answers.remove(id), id, submitted),
{
}

} // verus!
