//! Passwords: what a new password must be, and the stored hash.

use vstd::prelude::*;

use vstd::utf8::encode_utf8;

use crate::utils::text::{spec_trim, string_of, trim};

verus! {

/// A new password needs this many bytes, white space around it not counted.
pub const MIN_PASSWORD_BYTES: usize = 6;

/// A password as stored: its hash.
#[derive(Clone, Debug, Default)]
pub struct Password(String);

/// Why a new password is refused.
#[derive(Clone, Copy, Debug, PartialEq, Eq, Structural)]
pub enum PasswordError {
    TooShort,
}

impl PasswordError {
    /// The message shown for the error.
    pub fn to_string(&self) -> (message: String)
        ensures
            message@ == "Password must be minimum 6 characters."@,
    {
        string_of("Password must be minimum 6 characters.")
    }
}

impl View for Password {
    type V = Seq<char>;

    closed spec fn view(&self) -> Seq<char> {
        self.0@
    }
}

/// What of a new password is hashed: the text without white space around
/// it, which must be at least `MIN_PASSWORD_BYTES` bytes of UTF-8.
pub open spec fn spec_plain_text(value: Seq<char>) -> Result<Seq<char>, PasswordError> {
    if encode_utf8(spec_trim(value)).len() < MIN_PASSWORD_BYTES {
        Err(PasswordError::TooShort)
    } else {
        Ok(spec_trim(value))
    }
}

impl Password {
    /// The text of a new password that is to be hashed, or why it is
    /// refused.
    pub fn plain_text(value: &str) -> (plain: Result<String, PasswordError>)
        ensures
            match plain {
                Ok(text) => spec_plain_text(value@) == Ok::<Seq<char>, PasswordError>(text@),
                Err(err) => spec_plain_text(value@) == Err::<Seq<char>, PasswordError>(err),
            },
    {
        let trimmed = trim(value);
        let bytes = trimmed.as_str().as_bytes();
        if bytes.len() < MIN_PASSWORD_BYTES {
            Err(PasswordError::TooShort)
        } else {
            Ok(trimmed)
        }
    }

    /// A stored password, from its hash.
    pub fn from_hash(hash: String) -> (password: Password)
        ensures
            password@ == hash@,
    {
        Password(hash)
    }

    /// The hash as text.
    pub fn as_str(&self) -> (text: &str)
        ensures
            text@ == self@,
    {
        self.0.as_str()
    }

    /// The hash as an owned string.
    pub fn into_string(self) -> (text: String)
        ensures
            text@ == self@,
    {
        self.0
    }
}

} // verus!
