//! Which error key a failed request reports.

use vstd::prelude::*;

use crate::utils::consts::errors;
use crate::utils::text::{chars_of, string_of};

verus! {

/// Every error key starts with this.
pub const ERROR_KEY_PREFIX: &'static str = "error.";

/// The key reported for an error message: the message itself when it is
/// an error key, else `INTERNAL_ERROR`, so that no internal detail leaks.
pub open spec fn spec_safe_error_key(message: Seq<char>) -> Seq<char> {
    if ERROR_KEY_PREFIX@.is_prefix_of(message) {
        message
    } else {
        errors::INTERNAL_ERROR@
    }
}

/// Whether `text` starts with `prefix`.
pub fn starts_with(text: &str, prefix: &str) -> (found: bool)
    ensures
        found == prefix@.is_prefix_of(text@),
{
    let t = chars_of(text);
    let p = chars_of(prefix);
    if p.len() > t.len() {
        return false;
    }
    let mut i: usize = 0;
    while i < p.len()
        invariant
            t@ == text@,
            p@ == prefix@,
            p@.len() <= t@.len(),
            i <= p@.len(),
            forall|j: int| 0 <= j < i ==> p@[j] == t@[j],
        decreases p@.len() - i,
    {
        if p[i] != t[i] {
            return false;
        }
        i = i + 1;
    }
    assert(p@ =~= t@.subrange(0, p@.len() as int));
    true
}

/// The key to report for an error message; see `spec_safe_error_key`.
pub fn safe_error_key(message: &str) -> (key: String)
    ensures
        key@ == spec_safe_error_key(message@),
{
    if starts_with(message, ERROR_KEY_PREFIX) {
        string_of(message)
    } else {
        string_of(errors::INTERNAL_ERROR)
    }
}

/// Whatever the message, the reported key is an error key.
pub proof fn lemma_only_error_keys_are_reported(message: Seq<char>)
    ensures
        ERROR_KEY_PREFIX@.is_prefix_of(spec_safe_error_key(message)),
{
    reveal_strlit("error.");
    reveal_strlit("error.internal_error");
    assert(ERROR_KEY_PREFIX@ =~= errors::INTERNAL_ERROR@.subrange(0, 6));
}

} // verus!
