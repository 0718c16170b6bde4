//! Image captchas: a generated arithmetic question, four answer images, and
//! a one-time verification once the right one is picked.

use vstd::prelude::*;

use base64::Engine;

use self::challenge::{spec_is_valid_hash_format, GeneratedChallenge};

pub mod challenge;
pub mod problem;
pub mod renderer;
pub mod store;

verus! {

/// The request header that carries a verified captcha's hash.
pub const CAPTCHA_VERIFICATION_HEADER: &'static str = "x-captcha-verification";

pub const STATUS_VERIFIED: &'static str = "captcha_verified";

pub const STATUS_INVALID: &'static str = "captcha_invalid";

/// A challenge as sent to the client: images as base64 text.
#[derive(Clone, Debug)]
pub struct CaptchaChallengeDto {
    pub hash: String,
    pub question: String,
    pub answers: Vec<String>,
}

#[derive(Clone, Debug)]
pub struct CaptchaAnswerInputDto {
    pub hash: String,
    pub answer: u8,
}

#[derive(Clone, Debug)]
pub struct CaptchaVerifiedDto {
    pub status: String,
    pub hash: String,
    pub expires_at: i64,
}

#[derive(Clone, Debug)]
pub struct CaptchaInvalidDto {
    pub status: String,
}

#[derive(Debug)]
pub enum VerificationOutcome {
    Verified(CaptchaVerifiedDto),
    Invalid,
}

/// The character of a 6-bit value in the standard base64 alphabet
/// (RFC 4648): `A`-`Z`, `a`-`z`, `0`-`9`, `+`, `/`.
pub open spec fn base64_digit(value: int) -> char {
    if value < 26 {
        (65 + value) as char
    } else if value < 52 {
        (97 + value - 26) as char
    } else if value < 62 {
        (48 + value - 52) as char
    } else if value == 62 {
        '+'
    } else {
        '/'
    }
}

/// Standard base64 of `bytes`: each group of three bytes becomes four
/// digits of six bits, most significant first; a last group of one or two
/// bytes is filled with zero bits and padded with `=` to four characters.
pub open spec fn base64_standard(bytes: Seq<u8>) -> Seq<char>
    decreases bytes.len(),
{
    if bytes.len() == 0 {
        Seq::empty()
    } else if bytes.len() == 1 {
        let b0 = bytes[0] as int;
        seq![base64_digit(b0 / 4), base64_digit((b0 % 4) * 16), '=', '=']
    } else if bytes.len() == 2 {
        let b0 = bytes[0] as int;
        let b1 = bytes[1] as int;
        seq![base64_digit(b0 / 4), base64_digit((b0 % 4) * 16 + b1 / 16), base64_digit((b1 % 16) * 4), '=']
    } else {
        let b0 = bytes[0] as int;
        let b1 = bytes[1] as int;
        let b2 = bytes[2] as int;
        seq![
            base64_digit(b0 / 4),
            base64_digit((b0 % 4) * 16 + b1 / 16),
            base64_digit((b1 % 16) * 4 + b2 / 64),
            base64_digit(b2 % 64),
        ] + base64_standard(bytes.subrange(3, bytes.len() as int))
    }
}

/// Standard base64 has four characters per started group of three bytes.
pub proof fn lemma_base64_length(bytes: Seq<u8>)
    ensures
        base64_standard(bytes).len() == 4 * ((bytes.len() + 2) / 3),
    decreases bytes.len(),
{
    if bytes.len() >= 3 {
        lemma_base64_length(bytes.subrange(3, bytes.len() as int));
    }
}

/// Calls `Engine::encode` of `base64::engine::general_purpose::STANDARD`,
/// which writes the RFC 4648 alphabet with `=` padding: the contract claims
/// that the text is `base64_standard` of the bytes.
#[verifier::external_body]
fn encode_base64(bytes: &Vec<u8>) -> (text: String)
    ensures
        text@ == base64_standard(bytes@),
{
    base64::engine::general_purpose::STANDARD.encode(bytes)
}

/// A generated challenge as the client receives it: the hash as it is, the
/// question image and each answer image (in order) in base64.
pub fn challenge_dto(generated: &GeneratedChallenge) -> (dto: CaptchaChallengeDto)
    ensures
        dto.hash@ == generated.hash@,
        dto.question@ == base64_standard(generated.question_png@),
        dto.answers@.len() == generated.option_pngs@.len(),
        forall|i: int|
            0 <= i < dto.answers@.len() ==> (#[trigger] dto.answers@[i])@ == base64_standard(
                generated.option_pngs@[i]@,
            ),
{
    let mut answers: Vec<String> = Vec::new();
    let mut i: usize = 0;
    while i < generated.option_pngs.len()
        invariant
            i <= generated.option_pngs@.len(),
            answers@.len() == i,
            forall|j: int| 0 <= j < i ==> (#[trigger] answers@[j])@ == base64_standard(generated.option_pngs@[j]@),
        decreases generated.option_pngs@.len() - i,
    {
        answers.push(encode_base64(&generated.option_pngs[i]));
        i = i + 1;
    }
    CaptchaChallengeDto {
        hash: generated.hash.clone(),
        question: encode_base64(&generated.question_png),
        answers,
    }
}

/// Whether an answer verifies its challenge: the hash is well formed, a
/// stored answer was found for it, and the client picked that answer.
pub open spec fn answer_is_right(hash: Seq<char>, stored_answer: Option<u8>, answer: u8) -> bool {
    spec_is_valid_hash_format(hash) && stored_answer == Some(answer)
}

/// Only the stored answer verifies a challenge: a different answer, a
/// challenge with no stored answer or a malformed hash never does, and the
/// stored answer for a well-formed hash always does.
pub proof fn lemma_only_the_stored_answer_verifies(hash: Seq<char>, stored_answer: Option<u8>, answer: u8)
    ensures
        stored_answer is None ==> !answer_is_right(hash, stored_answer, answer),
        stored_answer matches Some(right) && right != answer ==> !answer_is_right(hash, stored_answer, answer),
        !spec_is_valid_hash_format(hash) ==> !answer_is_right(hash, stored_answer, answer),
        spec_is_valid_hash_format(hash) && stored_answer == Some(answer) ==> answer_is_right(
            hash,
            stored_answer,
            answer,
        ),
{
}

/// What a submitted answer earns, given the answer stored for its hash
/// (`None` when there was none, or the hash was not looked up because it is
/// not well formed), the time now in unix seconds and how long a
/// verification lasts. A right answer is verified until `now + ttl`.
pub fn verification_outcome(
    input: &CaptchaAnswerInputDto,
    stored_answer: Option<u8>,
    now_unix_s: i64,
    verification_ttl_seconds: u64,
) -> (outcome: VerificationOutcome)
    requires
        verification_ttl_seconds <= i64::MAX,
        now_unix_s + verification_ttl_seconds <= i64::MAX,
    ensures
        answer_is_right(input.hash@, stored_answer, input.answer) <==> outcome is Verified,
        outcome matches VerificationOutcome::Verified(dto) ==> {
            &&& dto.status@ == STATUS_VERIFIED@
            &&& dto.hash@ == input.hash@
            &&& dto.expires_at == now_unix_s + verification_ttl_seconds
        },
{
    if !challenge::is_valid_hash_format(input.hash.as_str()) {
        return VerificationOutcome::Invalid;
    }
    match stored_answer {
        Some(correct) => {
            if correct != input.answer {
                return VerificationOutcome::Invalid;
            }
        },
        None => {
            return VerificationOutcome::Invalid;
        },
    }
    let expires_at = now_unix_s + verification_ttl_seconds as i64;
    VerificationOutcome::Verified(
        CaptchaVerifiedDto {
            status: String::from_str(STATUS_VERIFIED),
            hash: input.hash.clone(),
            expires_at,
        },
    )
}

/// The answer to a rejected captcha.
pub fn invalid_dto() -> (dto: CaptchaInvalidDto)
    ensures
        dto.status@ == STATUS_INVALID@,
{
    CaptchaInvalidDto { status: String::from_str(STATUS_INVALID) }
}

} // verus!
