//! E-mail addresses as the account forms accept them.

use vstd::prelude::*;

use crate::utils::text::{chars_of, string_of};

verus! {

/// An e-mail address: a text with an `@` in it.
#[derive(Clone, Debug, Default)]
pub struct Email(String);

/// Why a text is not an e-mail address.
#[derive(Clone, Copy, Debug, PartialEq, Eq, Structural)]
pub enum EmailError {
    MissingAt,
}

impl EmailError {
    /// The message shown for the error.
    pub fn to_string(&self) -> (message: String)
        ensures
            message@ == "Wrong e-mail address."@,
    {
        string_of("Wrong e-mail address.")
    }
}

impl View for Email {
    type V = Seq<char>;

    closed spec fn view(&self) -> Seq<char> {
        self.0@
    }
}

/// Whether `c` occurs in `text`.
fn contains_char(text: &str, c: char) -> (found: bool)
    ensures
        found == text@.contains(c),
{
    let chars = chars_of(text);
    let mut i: usize = 0;
    while i < chars.len()
        invariant
            chars@ == text@,
            i <= chars@.len(),
            forall|j: int| 0 <= j < i ==> chars@[j] != c,
        decreases chars@.len() - i,
    {
        if chars[i] == c {
            return true;
        }
        i = i + 1;
    }
    false
}

/// How a text becomes an address: accepted as it is when it has an `@`.
pub open spec fn spec_email_from(value: Seq<char>) -> Result<Seq<char>, EmailError> {
    if value.contains('@') {
        Ok(value)
    } else {
        Err(EmailError::MissingAt)
    }
}

impl Email {
    /// The address as text.
    pub fn as_str(&self) -> (text: &str)
        ensures
            text@ == self@,
    {
        self.0.as_str()
    }

    /// The address `value`, which must hold an `@`.
    pub fn parse(value: &str) -> (email: Result<Email, EmailError>)
        ensures
            match email {
                Ok(e) => spec_email_from(value@) == Ok::<Seq<char>, EmailError>(e@),
                Err(err) => spec_email_from(value@) == Err::<Seq<char>, EmailError>(err),
            },
    {
        if contains_char(value, '@') {
            Ok(Email(string_of(value)))
        } else {
            Err(EmailError::MissingAt)
        }
    }

    /// The address as an owned string.
    pub fn into_string(self) -> (text: String)
        ensures
            text@ == self@,
    {
        self.0
    }
}

} // verus!
