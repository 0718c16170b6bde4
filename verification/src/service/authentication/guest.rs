//! Guest sign-in: the device identifier rule, the guest rate limits, and
//! generated guest names.

use vstd::prelude::*;

use crate::service::access_control::ip_rate_limiter::{
    check_outcome, IpAddress, LimiterState, RateLimitScope,
};
use crate::service::access_control::sliding_window_limiter::{window_check, SlidingWindowLimiter};
use crate::service::authentication::login::SignInRefusal;
use crate::service::authentication::types::validated_json::{errors_view, outcome, report, rule, FieldError};
use crate::utils::consts::errors;
use crate::utils::random::random_in;
use crate::utils::text::{chars_of, decimal, prefixed_decimal, spec_trim, string_of, trim};

verus! {

/// A guest token lasts a day.
pub const TOKEN_EXP_HOURS: i64 = 24;

/// Guest creations are counted per hour.
pub const GUEST_CREATION_WINDOW_MS: u64 = 3_600_000;

pub const GUEST_UNIQUE_ID_MIN_LEN: usize = 32;

pub const GUEST_UNIQUE_ID_MAX_LEN: usize = 128;

/// How many generated names are tried before giving up.
pub const GENERATED_USERNAME_ATTEMPTS: usize = 5;

pub const GUEST_USERNAME_PREFIX: &'static str = "Misafir";

/// Generated guest names end in a number from this one ...
pub const GUEST_SUFFIX_MIN: u32 = 100_000;

/// ... to this one.
pub const GUEST_SUFFIX_MAX: u32 = 999_998;

#[derive(Clone, Debug)]
pub struct GuestInputDto {
    pub display_name: Option<String>,
    pub guest_unique_id: String,
}

/// Why a guest sign-in failed.
#[derive(Clone, Debug)]
pub enum GuestLoginError {
    /// This client created too many guests; it may retry after this long.
    RateLimited { retry_after_ms: u64 },
    /// Too many guests were created overall; creation resumes after this long.
    CreationPaused { retry_after_ms: u64 },
    /// Anything else, with its message.
    Failed(String),
}

impl GuestLoginError {
    /// The text the error shows: the error key of a limit, or the message of
    /// a failure.
    pub fn to_string(&self) -> (text: String)
        ensures
            text@ == (match self {
                GuestLoginError::RateLimited { .. } => errors::RATE_LIMIT_EXCEEDED@,
                GuestLoginError::CreationPaused { .. } => errors::GUEST_CREATION_PAUSED@,
                GuestLoginError::Failed(message) => message@,
            }),
    {
        match self {
            GuestLoginError::RateLimited { .. } => string_of(errors::RATE_LIMIT_EXCEEDED),
            GuestLoginError::CreationPaused { .. } => string_of(errors::GUEST_CREATION_PAUSED),
            GuestLoginError::Failed(message) => message.clone(),
        }
    }
}

/// A character a device identifier may hold: an ASCII letter or digit, `-`
/// or `_`.
pub open spec fn is_id_char(c: char) -> bool {
    ||| 'a' <= c <= 'z'
    ||| 'A' <= c <= 'Z'
    ||| '0' <= c <= '9'
    ||| c == '-'
    ||| c == '_'
}

/// A device identifier is 32 to 128 bytes of letters, digits, `-` and `_`.
/// (Those characters are ASCII, one byte each, so bytes and characters
/// count the same.)
pub open spec fn spec_is_valid_guest_unique_id(value: Seq<char>) -> bool {
    &&& GUEST_UNIQUE_ID_MIN_LEN <= value.len() <= GUEST_UNIQUE_ID_MAX_LEN
    &&& forall|i: int| 0 <= i < value.len() ==> is_id_char(#[trigger] value[i])
}

/// Whether `value` is an acceptable device identifier.
pub fn is_valid_guest_unique_id(value: &str) -> (valid: bool)
    ensures
        valid == spec_is_valid_guest_unique_id(value@),
{
    let chars = chars_of(value);
    let mut i: usize = 0;
    while i < chars.len()
        invariant
            chars@ == value@,
            i <= chars@.len(),
            forall|j: int| 0 <= j < i ==> is_id_char(#[trigger] chars@[j]),
        decreases chars@.len() - i,
    {
        let c = chars[i];
        let ok = ('a' <= c && c <= 'z') || ('A' <= c && c <= 'Z') || ('0' <= c && c <= '9') || c == '-'
            || c == '_';
        if !ok {
            return false;
        }
        i = i + 1;
    }
    GUEST_UNIQUE_ID_MIN_LEN <= chars.len() && chars.len() <= GUEST_UNIQUE_ID_MAX_LEN
}

/// The code a refused device identifier is reported with.
pub const INVALID_GUEST_UNIQUE_ID: &'static str = "invalid_guest_unique_id";

/// The device-identifier rule of the form: accepted when the identifier is
/// acceptable, else refused with the code `INVALID_GUEST_UNIQUE_ID`.
pub fn validate_guest_unique_id(value: &str) -> (result: Result<(), &'static str>)
    ensures
        result is Ok <==> spec_is_valid_guest_unique_id(value@),
        result matches Err(code) ==> code@ == INVALID_GUEST_UNIQUE_ID@,
{
    if is_valid_guest_unique_id(value) {
        Ok(())
    } else {
        Err(INVALID_GUEST_UNIQUE_ID)
    }
}

impl GuestInputDto {
    /// The body's validation: the device identifier must pass
    /// `validate_guest_unique_id`, or `guest_unique_id` fails. The rule's
    /// refusal carries a code but no message, so the field is reported with
    /// the generic message key.
    pub fn validate(&self) -> (result: Result<(), Vec<FieldError>>)
        ensures
            result is Ok <==> spec_is_valid_guest_unique_id(self.guest_unique_id@),
            result matches Err(failed) ==> errors_view(failed@) == rule(
                true,
                "guest_unique_id"@,
                errors::VALIDATION_REQUIRED@,
            ),
    {
        let mut failed: Vec<FieldError> = Vec::new();
        let valid = validate_guest_unique_id(self.guest_unique_id.as_str()).is_ok();
        report(&mut failed, !valid, "guest_unique_id", errors::VALIDATION_REQUIRED);
        assert(errors_view(failed@) =~= rule(!valid, "guest_unique_id"@, errors::VALIDATION_REQUIRED@));
        outcome(failed)
    }
}

/// The name a guest asked for: the display name without white space around
/// it, when something is left.
pub open spec fn spec_requested_name(display_name: Option<Seq<char>>) -> Option<Seq<char>> {
    match display_name {
        Some(name) => if spec_trim(name).len() > 0 {
            Some(spec_trim(name))
        } else {
            None
        },
        None => None,
    }
}

/// The name a guest asked for, if any; see `spec_requested_name`.
pub fn requested_name(display_name: Option<&str>) -> (name: Option<String>)
    ensures
        match name {
            Some(n) => display_name is Some && spec_requested_name(Some(display_name->0@)) == Some(n@),
            None => display_name is None || spec_requested_name(Some(display_name->0@)) is None,
        },
{
    match display_name {
        Some(raw) => {
            let trimmed = trim(raw);
            if trimmed.as_str().is_empty() {
                None
            } else {
                Some(trimmed)
            }
        },
        None => None,
    }
}

/// A generated guest name: `Misafir` and the decimal numeral of `suffix`.
pub open spec fn spec_guest_username(suffix: u32) -> Seq<char> {
    GUEST_USERNAME_PREFIX@ + decimal(suffix as nat)
}

/// A guest name with a random six-digit number.
pub fn generate_guest_username() -> (name: String)
    ensures
        exists|suffix: u32|
            GUEST_SUFFIX_MIN <= suffix <= GUEST_SUFFIX_MAX && name@ == #[trigger] spec_guest_username(suffix),
{
    let suffix = random_in(GUEST_SUFFIX_MIN, GUEST_SUFFIX_MAX);
    let name = prefixed_decimal(GUEST_USERNAME_PREFIX, suffix as u64);
    assert(name@ == spec_guest_username(suffix));
    name
}

/// Every generated guest name is `Misafir` followed by six digits.
pub proof fn lemma_guest_names_have_six_digits(suffix: u32)
    requires
        GUEST_SUFFIX_MIN <= suffix <= GUEST_SUFFIX_MAX,
    ensures
        spec_guest_username(suffix).len() == GUEST_USERNAME_PREFIX@.len() + 6,
        spec_guest_username(suffix).subrange(0, GUEST_USERNAME_PREFIX@.len() as int) == GUEST_USERNAME_PREFIX@,
{
    let n = suffix as nat;
    assert(decimal(n).len() == 6) by {
        reveal_with_fuel(decimal, 7);
    }
    assert(spec_guest_username(suffix).subrange(0, GUEST_USERNAME_PREFIX@.len() as int) =~= GUEST_USERNAME_PREFIX@);
}

/// What the guest rate limits decide about creating a guest at `now_ms`:
/// first the client's own budget (when its address is known), then the
/// global one; each refusal says how long to wait.
pub open spec fn spec_creation_admission(
    client_refusal: Option<u64>,
    global_refusal: Option<u64>,
) -> Result<(), GuestLoginError> {
    match client_refusal {
        Some(wait) => Err(GuestLoginError::RateLimited { retry_after_ms: wait }),
        None => match global_refusal {
            Some(wait) => Err(GuestLoginError::CreationPaused { retry_after_ms: wait }),
            None => Ok(()),
        },
    }
}

/// Counts a guest creation against the per-client budget (when the client's
/// address is known) and then the global budget, both per hour. A refusal
/// by the client's budget leaves the global one untouched.
pub fn admit_guest_creation(
    per_client: &mut LimiterState,
    global: &mut SlidingWindowLimiter,
    now_ms: u64,
    client_ip: Option<IpAddress>,
    per_client_limit: u32,
    global_limit: u32,
) -> (result: Result<(), GuestLoginError>)
    requires
        now_ms + GUEST_CREATION_WINDOW_MS <= u64::MAX,
    ensures
        match client_ip {
            Some(ip) => {
                let (after, client) = check_outcome(
                    old(per_client)@,
                    now_ms,
                    RateLimitScope::GuestCreation,
                    ip,
                    per_client_limit,
                    GUEST_CREATION_WINDOW_MS,
                );
                &&& final(per_client)@ == after
                &&& match client {
                    Err(wait) => {
                        &&& final(global)@ == old(global)@
                        &&& result matches Err(GuestLoginError::RateLimited { retry_after_ms }) && retry_after_ms
                            == wait
                    },
                    Ok(()) => {
                        let (g_after, g) = window_check(old(global)@, now_ms, global_limit, GUEST_CREATION_WINDOW_MS);
                        &&& final(global)@ == g_after
                        &&& match g {
                            Err(wait) => result matches Err(GuestLoginError::CreationPaused { retry_after_ms })
                                && retry_after_ms == wait,
                            Ok(()) => result is Ok,
                        }
                    },
                }
            },
            None => {
                let (g_after, g) = window_check(old(global)@, now_ms, global_limit, GUEST_CREATION_WINDOW_MS);
                &&& final(per_client)@ == old(per_client)@
                &&& final(global)@ == g_after
                &&& match g {
                    Err(wait) => result matches Err(GuestLoginError::CreationPaused { retry_after_ms }) && retry_after_ms
                        == wait,
                    Ok(()) => result is Ok,
                }
            },
        },
{
    match client_ip {
        Some(ip) => {
            match per_client.check_at(now_ms, RateLimitScope::GuestCreation, ip, per_client_limit, GUEST_CREATION_WINDOW_MS) {
                Err(wait) => {
                    return Err(GuestLoginError::RateLimited { retry_after_ms: wait });
                },
                Ok(()) => {},
            }
        },
        None => {},
    }
    match global.check_at(now_ms, global_limit, GUEST_CREATION_WINDOW_MS) {
        Err(wait) => Err(GuestLoginError::CreationPaused { retry_after_ms: wait }),
        Ok(()) => Ok(()),
    }
}

/// What the search for a free guest username does after a lookup.
#[derive(Clone, Copy, Debug, PartialEq, Eq, Structural)]
pub enum UsernameStep {
    /// The name looked up is free: the guest gets it.
    Accept,
    /// It is taken: look up another generated name.
    TryAnother,
    /// It is taken and no other is tried: refused with
    /// `USERNAME_ALREADY_TAKEN`.
    GiveUp,
}

/// The step after looking up a candidate username. `requested` says whether
/// the candidate is the guest's own display name, `attempts_made` how many
/// generated names have been looked up, this one included, and `taken`
/// what the lookup found. A free name is accepted; a requested name that is
/// taken is refused at once; a taken generated name is followed by another
/// until `GENERATED_USERNAME_ATTEMPTS` have been looked up.
pub fn username_step(requested: bool, attempts_made: usize, taken: bool) -> (step: UsernameStep)
    ensures
        step == (if !taken {
            UsernameStep::Accept
        } else if requested || attempts_made >= GENERATED_USERNAME_ATTEMPTS {
            UsernameStep::GiveUp
        } else {
            UsernameStep::TryAnother
        }),
{
    if !taken {
        UsernameStep::Accept
    } else if requested || attempts_made >= GENERATED_USERNAME_ATTEMPTS {
        UsernameStep::GiveUp
    } else {
        UsernameStep::TryAnother
    }
}

/// Whether a guest, found by its device or just created, may sign in: only
/// an active account may; any other is refused as `Unauthorized`.
pub fn guest_sign_in_verdict(active: bool) -> (verdict: Result<(), SignInRefusal>)
    ensures
        verdict == (if active { Ok(()) } else { Err::<(), SignInRefusal>(SignInRefusal::Unauthorized) }),
{
    if active {
        Ok(())
    } else {
        Err(SignInRefusal::Unauthorized)
    }
}

} // verus!
