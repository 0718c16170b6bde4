//! Building strings: decimal numerals and concatenation.

use vstd::prelude::*;

verus! {

/// The ASCII digit for `d` (for `d < 10`).
pub open spec fn digit_char(d: nat) -> char {
    ((d + 48) as u8) as char
}

/// The decimal numeral of `n`, without leading zeros.
pub open spec fn decimal(n: nat) -> Seq<char>
    decreases n,
{
    if n < 10 {
        seq![digit_char(n)]
    } else {
        decimal(n / 10).push(digit_char(n % 10))
    }
}

/// Appends one character. Calls `String::push`, which appends the character
/// to the end of the string; this contract says exactly that.
#[verifier::external_body]
pub fn push_char(s: &mut String, c: char)
    ensures
        final(s)@ == old(s)@.push(c),
{
    s.push(c);
}

/// Appends a string slice.
pub fn push_str(s: &mut String, tail: &str)
    ensures
        final(s)@ == old(s)@ + tail@,
{
    s.append(tail);
}

/// A new string holding `prefix`.
pub fn string_of(prefix: &str) -> (s: String)
    ensures
        s@ == prefix@,
{
    String::from_str(prefix)
}

/// Appends the decimal numeral of `n`.
pub fn push_decimal(s: &mut String, n: u64)
    ensures
        final(s)@ == old(s)@ + decimal(n as nat),
    decreases n,
{
    if n < 10 {
        let c = ((n as u8) + 48u8) as char;
        push_char(s, c);
        assert(decimal(n as nat) == seq![digit_char(n as nat)]);
        assert(old(s)@.push(c) =~= old(s)@ + decimal(n as nat));
    } else {
        push_decimal(s, n / 10);
        let c = (((n % 10) as u8) + 48u8) as char;
        let ghost before = s@;
        push_char(s, c);
        assert(c == digit_char((n % 10) as nat));
        assert(decimal(n as nat) == decimal((n / 10) as nat).push(digit_char((n % 10) as nat)));
        assert(s@ =~= old(s)@ + decimal(n as nat));
    }
}

/// The decimal numeral of `n`.
pub fn decimal_string(n: u64) -> (s: String)
    ensures
        s@ == decimal(n as nat),
{
    let mut s = String::new();
    push_decimal(&mut s, n);
    assert(s@ =~= decimal(n as nat));
    s
}

/// `prefix` followed by the decimal numeral of `n`, e.g. `mm:matched:5`.
pub fn prefixed_decimal(prefix: &str, n: u64) -> (s: String)
    ensures
        s@ == prefix@ + decimal(n as nat),
{
    let mut s = string_of(prefix);
    push_decimal(&mut s, n);
    s
}

/// Every decimal numeral is non-empty and made only of ASCII digits.
pub proof fn lemma_decimal_is_digits(n: nat)
    ensures
        decimal(n).len() >= 1,
        forall|i: int| 0 <= i < decimal(n).len() ==> '0' <= #[trigger] decimal(n)[i] <= '9',
    decreases n,
{
    if n >= 10 {
        lemma_decimal_is_digits(n / 10);
        assert forall|i: int| 0 <= i < decimal(n).len() implies '0' <= #[trigger] decimal(n)[i]
            <= '9' by {
            if i < decimal(n / 10).len() {
                assert(decimal(n)[i] == decimal(n / 10)[i]);
            }
        }
    }
}

/// Different numbers have different numerals.
pub proof fn lemma_decimal_injective(a: nat, b: nat)
    requires
        a != b,
    ensures
        decimal(a) != decimal(b),
    decreases a + b,
{
    if a < 10 && b < 10 {
        assert(decimal(a)[0] != decimal(b)[0]);
    } else if a < 10 {
        lemma_decimal_is_digits(b / 10);
        assert(decimal(b).len() >= 2);
    } else if b < 10 {
        lemma_decimal_is_digits(a / 10);
        assert(decimal(a).len() >= 2);
    } else {
        if a % 10 != b % 10 {
            assert(decimal(a).last() != decimal(b).last());
        } else {
            lemma_decimal_injective(a / 10, b / 10);
            if decimal(a) == decimal(b) {
                assert(decimal(a).drop_last() =~= decimal(a / 10));
                assert(decimal(b).drop_last() =~= decimal(b / 10));
            }
        }
    }
}

/// Whether `c` is an ASCII digit.
pub open spec fn is_digit(c: char) -> bool {
    '0' <= c <= '9'
}

/// The value of the ASCII digit `c`.
pub open spec fn digit_value(c: char) -> nat {
    (c as int - 48) as nat
}

/// The number that the digits `s` spell in base ten.
pub open spec fn digits_value(s: Seq<char>) -> nat
    decreases s.len(),
{
    if s.len() == 0 {
        0
    } else {
        digits_value(s.drop_last()) * 10 + digit_value(s.last())
    }
}

pub open spec fn all_digits(s: Seq<char>) -> bool {
    forall|i: int| 0 <= i < s.len() ==> is_digit(#[trigger] s[i])
}

/// `s` without a leading `+`.
pub open spec fn unsigned_body(s: Seq<char>) -> Seq<char> {
    if s.len() > 0 && s[0] == '+' {
        s.drop_first()
    } else {
        s
    }
}

/// How a decimal `u64` is read: an optional `+`, then one or more digits
/// whose value fits in a `u64`.
pub open spec fn spec_parse_u64(s: Seq<char>) -> Option<u64> {
    let body = unsigned_body(s);
    if body.len() > 0 && all_digits(body) && digits_value(body) <= u64::MAX {
        Some(digits_value(body) as u64)
    } else {
        None
    }
}

proof fn lemma_digits_value_grows(s: Seq<char>, i: int)
    requires
        0 <= i <= s.len(),
        all_digits(s),
    ensures
        digits_value(s.subrange(0, i)) <= digits_value(s),
    decreases s.len() - i,
{
    if i < s.len() {
        lemma_digits_value_grows(s, i + 1);
        assert(s.subrange(0, i + 1).drop_last() =~= s.subrange(0, i));
    } else {
        assert(s.subrange(0, i) =~= s);
    }
}

/// Reads a decimal `u64` the way the standard library does: an optional `+`
/// followed by at least one digit, with no other character, and a value that
/// fits.
pub fn parse_u64(text: &str) -> (value: Option<u64>)
    ensures
        value == spec_parse_u64(text@),
{
    broadcast use vstd::string::is_ascii_spec_bytes;

    if !text.is_ascii() {
        proof {
            let s = text@;
            let body = unsigned_body(s);
            if body.len() > 0 && all_digits(body) {
                assert(vstd::utf8::is_ascii_chars(s)) by {
                    assert forall|i: int| 0 <= i < s.len() implies '\0' <= #[trigger] s[i] <= '\u{7f}' by {
                        if s.len() > 0 && s[0] == '+' {
                            if i > 0 {
                                assert(s[i] == body[i - 1]);
                                assert(is_digit(body[i - 1]));
                            }
                        } else {
                            assert(is_digit(body[i]));
                        }
                    }
                }
            }
        }
        return None;
    }
    let bytes = text.as_bytes();
    let ghost s = text@;
    assert(bytes@ =~= Seq::new(s.len(), |i: int| s[i] as u8));
    let mut start: usize = 0;
    if bytes.len() > 0 && bytes[0] == 43u8 {
        start = 1;
    }
    let ghost body = unsigned_body(s);
    assert(body =~= s.subrange(start as int, s.len() as int));
    if start >= bytes.len() {
        assert(body.len() == 0);
        return None;
    }
    let mut value: u64 = 0;
    let mut i: usize = start;
    while i < bytes.len()
        invariant
            start <= i <= bytes.len(),
            bytes@.len() == s.len(),
            forall|k: int| 0 <= k < s.len() ==> bytes@[k] == s[k] as u8,
            vstd::utf8::is_ascii_chars(s),
            s == text@,
            body == unsigned_body(s),
            body == s.subrange(start as int, s.len() as int),
            all_digits(body.subrange(0, i - start)),
            value == digits_value(body.subrange(0, i - start)),
        decreases bytes.len() - i,
    {
        let b = bytes[i];
        assert(b == s[i as int] as u8);
        assert(s[i as int] as u32 == b as u32);
        if b < 48u8 || b > 57u8 {
            proof {
                assert(body[i - start] == s[i as int]);
                assert(!is_digit(body[i - start]));
            }
            return None;
        }
        let d = (b - 48u8) as u64;
        proof {
            assert(body[i - start] == s[i as int]);
            assert(body.subrange(0, i + 1 - start).drop_last() =~= body.subrange(0, i - start));
            assert(body.subrange(0, i + 1 - start).last() == s[i as int]);
            assert(s[i as int] as int == b as int);
            assert(digit_value(s[i as int]) == d);
            assert(digits_value(body.subrange(0, i + 1 - start)) == value * 10 + d);
        }
        match value.checked_mul(10) {
            None => {
                proof {
                    if all_digits(body) {
                        lemma_digits_value_grows(body, i + 1 - start);
                    }
                }
                return None;
            },
            Some(tens) => match tens.checked_add(d) {
                None => {
                    proof {
                        if all_digits(body) {
                            lemma_digits_value_grows(body, i + 1 - start);
                        }
                    }
                    return None;
                },
                Some(next) => {
                    value = next;
                },
            },
        }
        i = i + 1;
        proof {
            assert forall|k: int| 0 <= k < body.subrange(0, i - start).len() implies is_digit(
                #[trigger] body.subrange(0, i - start)[k],
            ) by {
                if k < i - 1 - start {
                    assert(body.subrange(0, i - start)[k] == body.subrange(0, i - 1 - start)[k]);
                }
            }
        }
    }
    assert(body.subrange(0, i - start) =~= body);
    Some(value)
}

/// The decimal numeral of a number spells that number.
pub proof fn lemma_digits_value_of_decimal(n: nat)
    ensures
        digits_value(decimal(n)) == n,
        all_digits(decimal(n)),
    decreases n,
{
    lemma_decimal_is_digits(n);
    assert(digit_value(digit_char(n % 10)) == n % 10);
    if n >= 10 {
        lemma_digits_value_of_decimal(n / 10);
        assert(decimal(n).drop_last() =~= decimal(n / 10));
        assert(n == (n / 10) * 10 + n % 10);
    } else {
        assert(decimal(n).drop_last() =~= Seq::<char>::empty());
        assert(digits_value(Seq::<char>::empty()) == 0);
    }
}

/// Reading back a written number gives the number: parsing the decimal
/// numeral of `n` yields `n`.
pub proof fn lemma_parse_reads_back_decimal(n: u64)
    ensures
        spec_parse_u64(decimal(n as nat)) == Some(n),
{
    lemma_digits_value_of_decimal(n as nat);
    lemma_decimal_is_digits(n as nat);
    assert(unsigned_body(decimal(n as nat)) == decimal(n as nat));
}

/// The characters of `text`, in order.
pub fn chars_of(text: &str) -> (chars: Vec<char>)
    ensures
        chars@ == text@,
{
    broadcast use vstd::string::axiom_spec_iter;

    let mut chars: Vec<char> = Vec::new();
    for c in it: text.chars()
        invariant
            chars@ == it.seq().take(it.index() as int),
    {
        chars.push(c);
    }
    assert(chars@ =~= text@);
    chars
}

/// White space as Unicode defines it (`char::is_whitespace`).
pub open spec fn is_whitespace(c: char) -> bool {
    ||| '\u{9}' <= c <= '\u{d}'
    ||| c == ' '
    ||| c == '\u{85}'
    ||| c == '\u{a0}'
    ||| c == '\u{1680}'
    ||| '\u{2000}' <= c <= '\u{200a}'
    ||| c == '\u{2028}'
    ||| c == '\u{2029}'
    ||| c == '\u{202f}'
    ||| c == '\u{205f}'
    ||| c == '\u{3000}'
}

/// `s` without its leading white space.
pub open spec fn trim_start(s: Seq<char>) -> Seq<char>
    decreases s.len(),
{
    if s.len() > 0 && is_whitespace(s[0]) {
        trim_start(s.drop_first())
    } else {
        s
    }
}

/// `s` without its trailing white space.
pub open spec fn trim_end(s: Seq<char>) -> Seq<char>
    decreases s.len(),
{
    if s.len() > 0 && is_whitespace(s.last()) {
        trim_end(s.drop_last())
    } else {
        s
    }
}

/// `s` without leading and trailing white space (`str::trim`).
pub open spec fn spec_trim(s: Seq<char>) -> Seq<char> {
    trim_end(trim_start(s))
}

/// Whether `c` is white space.
pub fn is_whitespace_char(c: char) -> (b: bool)
    ensures
        b == is_whitespace(c),
{
    ('\u{9}' <= c && c <= '\u{d}') || c == ' ' || c == '\u{85}' || c == '\u{a0}' || c == '\u{1680}'
        || ('\u{2000}' <= c && c <= '\u{200a}') || c == '\u{2028}' || c == '\u{2029}' || c
        == '\u{202f}' || c == '\u{205f}' || c == '\u{3000}'
}

/// The string made of `chars[from..to]`.
pub fn string_of_chars(chars: &Vec<char>, from: usize, to: usize) -> (text: String)
    requires
        from <= to <= chars@.len(),
    ensures
        text@ == chars@.subrange(from as int, to as int),
{
    let mut text = String::new();
    let mut i = from;
    while i < to
        invariant
            from <= i <= to <= chars@.len(),
            text@ == chars@.subrange(from as int, i as int),
        decreases to - i,
    {
        push_char(&mut text, chars[i]);
        i = i + 1;
        assert(text@ =~= chars@.subrange(from as int, i as int));
    }
    text
}

/// `text` without leading and trailing white space.
pub fn trim(text: &str) -> (trimmed: String)
    ensures
        trimmed@ == spec_trim(text@),
{
    let chars = chars_of(text);
    let ghost s = chars@;
    let n = chars.len();
    let mut lo: usize = 0;
    assert(s.subrange(0, n as int) =~= s);
    while lo < n && is_whitespace_char(chars[lo])
        invariant
            s == chars@,
            n == s.len(),
            lo <= n,
            trim_start(s) == trim_start(s.subrange(lo as int, n as int)),
        decreases n - lo,
    {
        assert(s.subrange(lo as int, n as int).drop_first() =~= s.subrange(lo + 1, n as int));
        lo = lo + 1;
    }
    let ghost t = s.subrange(lo as int, n as int);
    assert(trim_start(s) == t);
    let mut hi: usize = n;
    while hi > lo && is_whitespace_char(chars[hi - 1])
        invariant
            s == chars@,
            n == s.len(),
            lo <= hi <= n,
            t == s.subrange(lo as int, n as int),
            trim_end(t) == trim_end(s.subrange(lo as int, hi as int)),
        decreases hi - lo,
    {
        assert(s.subrange(lo as int, hi as int).drop_last() =~= s.subrange(lo as int, hi - 1));
        hi = hi - 1;
    }
    string_of_chars(&chars, lo, hi)
}

/// Whether two texts are the same.
pub fn same_text(a: &str, b: &str) -> (same: bool)
    ensures
        same == (a@ == b@),
{
    let x = chars_of(a);
    let y = chars_of(b);
    if x.len() != y.len() {
        return false;
    }
    let mut i: usize = 0;
    while i < x.len()
        invariant
            x@ == a@,
            y@ == b@,
            x@.len() == y@.len(),
            i <= x@.len(),
            forall|j: int| 0 <= j < i ==> x@[j] == y@[j],
        decreases x@.len() - i,
    {
        if x[i] != y[i] {
            return false;
        }
        i = i + 1;
    }
    assert(x@ =~= y@);
    true
}

} // verus!
