//! How challenges and verifications are keyed and stored.

use vstd::prelude::*;

use crate::utils::text::{decimal, decimal_string, parse_u64, push_str, spec_parse_u64, string_of};

verus! {

pub const CHALLENGE_KEY_PREFIX: &'static str = "captcha:challenge:";

pub const VERIFICATION_KEY_PREFIX: &'static str = "captcha:verification:";

pub open spec fn spec_challenge_key(hash: Seq<char>) -> Seq<char> {
    CHALLENGE_KEY_PREFIX@ + hash
}

pub open spec fn spec_verification_key(hash: Seq<char>) -> Seq<char> {
    VERIFICATION_KEY_PREFIX@ + hash
}

/// The key under which a challenge's correct answer waits.
pub fn challenge_key(hash: &str) -> (key: String)
    ensures
        key@ == spec_challenge_key(hash@),
{
    let mut key = string_of(CHALLENGE_KEY_PREFIX);
    push_str(&mut key, hash);
    key
}

/// The key that marks a solved challenge as verified.
pub fn verification_key(hash: &str) -> (key: String)
    ensures
        key@ == spec_verification_key(hash@),
{
    let mut key = string_of(VERIFICATION_KEY_PREFIX);
    push_str(&mut key, hash);
    key
}

/// A challenge key and a verification key never coincide, and each kind of
/// key determines its hash.
pub proof fn lemma_challenges_and_verifications_never_share_a_key(a: Seq<char>, b: Seq<char>)
    ensures
        spec_challenge_key(a) != spec_verification_key(b),
        spec_challenge_key(a) == spec_challenge_key(b) ==> a == b,
        spec_verification_key(a) == spec_verification_key(b) ==> a == b,
{
    reveal_strlit("captcha:challenge:");
    reveal_strlit("captcha:verification:");
    assert(spec_challenge_key(a)[8] == 'c');
    assert(spec_verification_key(b)[8] == 'v');
    if spec_challenge_key(a) == spec_challenge_key(b) {
        assert(a =~= spec_challenge_key(a).subrange(18, spec_challenge_key(a).len() as int));
        assert(b =~= spec_challenge_key(b).subrange(18, spec_challenge_key(b).len() as int));
    }
    if spec_verification_key(a) == spec_verification_key(b) {
        assert(a =~= spec_verification_key(a).subrange(21, spec_verification_key(a).len() as int));
        assert(b =~= spec_verification_key(b).subrange(21, spec_verification_key(b).len() as int));
    }
}

/// How a stored answer is read back: as a decimal `u8`.
pub open spec fn spec_parse_answer(stored: Seq<char>) -> Option<u8> {
    match spec_parse_u64(stored) {
        Some(v) => if v <= u8::MAX {
            Some(v as u8)
        } else {
            None
        },
        None => None,
    }
}

/// The text stored for a challenge's correct answer: its decimal numeral.
pub fn encode_answer(correct_answer: u8) -> (stored: String)
    ensures
        stored@ == decimal(correct_answer as nat),
{
    decimal_string(correct_answer as u64)
}

/// The answer read back from the store; `None` when the stored text is not
/// a decimal `u8`.
pub fn decode_answer(stored: &str) -> (answer: Option<u8>)
    ensures
        answer == spec_parse_answer(stored@),
{
    match parse_u64(stored) {
        Some(v) => if v <= 255 {
            Some(v as u8)
        } else {
            None
        },
        None => None,
    }
}

/// Reading back a stored answer gives the answer that was stored.
pub proof fn lemma_a_stored_answer_reads_back(correct_answer: u8)
    ensures
        spec_parse_answer(decimal(correct_answer as nat)) == Some(correct_answer),
{
    crate::utils::text::lemma_parse_reads_back_decimal(correct_answer as u64);
}

} // verus!
