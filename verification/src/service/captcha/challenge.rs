//! Captcha challenge identifiers: random SHA-1 hashes in lowercase hex.

use vstd::prelude::*;

use sha1::{Digest, Sha1};

use crate::utils::random::random_bytes;
use crate::utils::text::push_char;

verus! {

/// A challenge ready to be shown: its hash, the question image, the four
/// answer images, and the position (from 1) of the right answer.
#[derive(Clone, Debug)]
pub struct GeneratedChallenge {
    pub hash: String,
    pub question_png: Vec<u8>,
    pub option_pngs: Vec<Vec<u8>>,
    pub correct_answer: u8,
}

/// The length of a challenge hash: 40 hex digits.
pub const HASH_LEN: usize = 40;

/// How many random bytes a new hash is made from.
pub const HASH_ENTROPY_BYTES: usize = 32;

/// The length of a SHA-1 digest in bytes.
pub const SHA1_DIGEST_LEN: usize = 20;

/// The SHA-1 digest of `data`.
pub uninterp spec fn sha1_of(data: Seq<u8>) -> Seq<u8>;

/// Calls `Sha1::digest` (the `Digest` trait of the `sha1` crate). SHA-1 is a
/// function of its input alone, named `sha1_of` here; its output is 160 bits,
/// 20 bytes (`OutputSize = U20` in the crate).
#[verifier::external_body]
fn sha1_digest(data: &Vec<u8>) -> (digest: Vec<u8>)
    ensures
        digest@ == sha1_of(data@),
        digest@.len() == SHA1_DIGEST_LEN,
{
    Sha1::digest(data.as_slice()).to_vec()
}

/// Whether `c` is a digit or one of `a` to `f`.
pub open spec fn is_lower_hex_digit(c: char) -> bool {
    ('0' <= c <= '9') || ('a' <= c <= 'f')
}

/// The lowercase hex digit of `d` (for `d < 16`).
pub open spec fn hex_digit(d: nat) -> char {
    if d < 10 {
        ((d + 48) as u8) as char
    } else {
        ((d - 10 + 97) as u8) as char
    }
}

/// Each byte as two lowercase hex digits, most significant first.
pub open spec fn spec_lower_hex(bytes: Seq<u8>) -> Seq<char>
    decreases bytes.len(),
{
    if bytes.len() == 0 {
        Seq::empty()
    } else {
        spec_lower_hex(bytes.drop_last()) + seq![
            hex_digit((bytes.last() / 16) as nat),
            hex_digit((bytes.last() % 16) as nat),
        ]
    }
}

/// Whether `s` is a well-formed challenge hash: exactly 40 characters, each
/// a digit or a lowercase `a` to `f`.
pub open spec fn spec_is_valid_hash_format(s: Seq<char>) -> bool {
    &&& s.len() == HASH_LEN
    &&& forall|i: int| 0 <= i < s.len() ==> is_lower_hex_digit(#[trigger] s[i])
}

fn hex_digit_char(d: u8) -> (c: char)
    requires
        d < 16,
    ensures
        c == hex_digit(d as nat),
        is_lower_hex_digit(c),
{
    if d < 10 {
        (d + 48) as char
    } else {
        (d - 10 + 97) as char
    }
}

/// The bytes written as lowercase hex, two digits per byte.
pub fn lower_hex(bytes: &Vec<u8>) -> (text: String)
    ensures
        text@ == spec_lower_hex(bytes@),
{
    let mut text = String::new();
    let mut i: usize = 0;
    while i < bytes.len()
        invariant
            i <= bytes@.len(),
            text@ == spec_lower_hex(bytes@.take(i as int)),
        decreases bytes@.len() - i,
    {
        let b = bytes[i];
        push_char(&mut text, hex_digit_char(b / 16));
        push_char(&mut text, hex_digit_char(b % 16));
        assert(bytes@.take(i + 1).drop_last() =~= bytes@.take(i as int));
        i = i + 1;
        assert(text@ =~= spec_lower_hex(bytes@.take(i as int)));
    }
    assert(bytes@.take(bytes@.len() as int) =~= bytes@);
    text
}

/// Hex of `n` bytes has `2n` characters, all lowercase hex digits.
pub proof fn lemma_lower_hex_shape(bytes: Seq<u8>)
    ensures
        spec_lower_hex(bytes).len() == 2 * bytes.len(),
        forall|i: int| 0 <= i < spec_lower_hex(bytes).len() ==> is_lower_hex_digit(#[trigger] spec_lower_hex(bytes)[i]),
    decreases bytes.len(),
{
    if bytes.len() > 0 {
        lemma_lower_hex_shape(bytes.drop_last());
        let b = bytes.last();
        assert(is_lower_hex_digit(hex_digit((b / 16) as nat)));
        assert(is_lower_hex_digit(hex_digit((b % 16) as nat)));
        let prefix = spec_lower_hex(bytes.drop_last());
        assert forall|i: int| 0 <= i < spec_lower_hex(bytes).len() implies is_lower_hex_digit(
            #[trigger] spec_lower_hex(bytes)[i],
        ) by {
            if i < prefix.len() {
                assert(spec_lower_hex(bytes)[i] == prefix[i]);
            }
        }
    }
}

/// A fresh challenge hash: the SHA-1 digest of 32 random bytes, in hex.
pub fn new_hash() -> (hash: String)
    ensures
        spec_is_valid_hash_format(hash@),
        exists|entropy: Seq<u8>| entropy.len() == HASH_ENTROPY_BYTES && hash@ == spec_lower_hex(#[trigger] sha1_of(entropy)),
{
    let entropy = random_bytes(HASH_ENTROPY_BYTES);
    let digest = sha1_digest(&entropy);
    let hash = lower_hex(&digest);
    proof {
        lemma_lower_hex_shape(digest@);
    }
    hash
}

/// Whether `hash` is a well-formed challenge hash (40 lowercase hex digits).
/// Only such hashes are looked up in the store.
pub fn is_valid_hash_format(hash: &str) -> (valid: bool)
    ensures
        valid == spec_is_valid_hash_format(hash@),
{
    let n = hash.unicode_len();
    if n != HASH_LEN {
        return false;
    }
    let mut i: usize = 0;
    while i < n
        invariant
            n == hash@.len(),
            i <= n,
            forall|j: int| 0 <= j < i ==> is_lower_hex_digit(#[trigger] hash@[j]),
        decreases n - i,
    {
        let c = hash.get_char(i);
        if !(('0' <= c && c <= '9') || ('a' <= c && c <= 'f')) {
            return false;
        }
        i = i + 1;
    }
    true
}

} // verus!
