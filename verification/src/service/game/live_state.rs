//! A live match as stored in the key-value store, and the turn clock carried
//! across a restart as unix time.

use vstd::prelude::*;

use crate::service::access_control::sliding_window_limiter::{elapsed, later};
use crate::utils::clock::{spec_unix_ms_from, system_millis_since_epoch, unix_ms_from};

use super::session::GameSession;

verus! {

/// A restored turn clock gives the player at least this long (30 seconds).
pub const REHYDRATED_TURN_GRACE_MS: u64 = 30_000;

pub struct LiveSnapshot<B> {
    pub session: GameSession<B>,
    pub turn_deadline_at_ms: Option<i64>,
    pub saved_at_ms: i64,
}

/// The current unix time in milliseconds (0 if the clock is before 1970).
pub fn now_unix_ms() -> (now_ms: i64)
    ensures
        exists|reading: Option<u128>| now_ms == #[trigger] spec_unix_ms_from(reading),
        now_ms >= 0,
{
    unix_ms_from(system_millis_since_epoch())
}

/// `a + b` within the range of `i64` (saturated at its ends).
pub open spec fn saturating_sum(a: i64, b: i64) -> i64 {
    let s = a + b;
    if s > i64::MAX {
        i64::MAX
    } else if s < i64::MIN {
        i64::MIN
    } else {
        s as i64
    }
}

/// The unix time `remaining_ms` after `now_ms`.
pub open spec fn spec_unix_ms_after(now_ms: i64, remaining_ms: u128) -> i64 {
    saturating_sum(now_ms, if remaining_ms > i64::MAX { i64::MAX } else { remaining_ms as i64 })
}

/// The unix time `remaining_ms` milliseconds after `now_ms`.
pub fn unix_ms_after(now_ms: i64, remaining_ms: u128) -> (at_ms: i64)
    ensures
        at_ms == spec_unix_ms_after(now_ms, remaining_ms),
{
    let remaining: i64 = if remaining_ms > i64::MAX as u128 {
        i64::MAX
    } else {
        remaining_ms as i64
    };
    if remaining > 0 && now_ms > i64::MAX - remaining {
        i64::MAX
    } else {
        now_ms + remaining
    }
}

/// Turns a turn deadline into unix time, given the monotonic clock's
/// current reading and the current unix time (all in milliseconds). A
/// deadline that has already passed is saved as now.
pub fn deadline_to_unix_ms(deadline_mono_ms: u64, now_mono_ms: u64, now_ms: i64) -> (at_ms: i64)
    ensures
        at_ms == spec_unix_ms_after(now_ms, elapsed(deadline_mono_ms, now_mono_ms) as u128),
{
    let remaining_ms: u64 = if deadline_mono_ms >= now_mono_ms {
        deadline_mono_ms - now_mono_ms
    } else {
        0
    };
    unix_ms_after(now_ms, remaining_ms as u128)
}

/// How long a turn clock restored at `now_ms` runs: the time left until the
/// saved deadline, but never less than the grace period.
pub open spec fn spec_restored_remaining_ms(deadline_at_ms: i64, now_ms: i64) -> u64 {
    let left = deadline_at_ms - now_ms;
    let left = if left < 0 { 0 } else if left > u64::MAX { u64::MAX as int } else { left };
    if left < REHYDRATED_TURN_GRACE_MS { REHYDRATED_TURN_GRACE_MS } else { left as u64 }
}

/// The length of a turn clock restored at `now_ms` for a deadline saved as
/// `deadline_at_ms`.
pub fn restored_remaining_ms(deadline_at_ms: i64, now_ms: i64) -> (remaining_ms: u64)
    ensures
        remaining_ms == spec_restored_remaining_ms(deadline_at_ms, now_ms),
        remaining_ms >= REHYDRATED_TURN_GRACE_MS,
{
    let left: u64 = if deadline_at_ms <= now_ms {
        0
    } else if now_ms < 0 && deadline_at_ms > i64::MAX + now_ms {
        let wide: i128 = deadline_at_ms as i128 - now_ms as i128;
        wide as u64
    } else {
        (deadline_at_ms - now_ms) as u64
    };
    if left < REHYDRATED_TURN_GRACE_MS {
        REHYDRATED_TURN_GRACE_MS
    } else {
        left
    }
}

/// Restores a saved turn deadline on the monotonic clock: its reading now
/// plus `restored_remaining_ms` (the time left, but never less than the
/// grace period), saturated at the end of the clock.
pub fn deadline_from_unix_ms(deadline_at_ms: i64, now_mono_ms: u64, now_ms: i64) -> (deadline_mono_ms: u64)
    ensures
        deadline_mono_ms == later(now_mono_ms, spec_restored_remaining_ms(deadline_at_ms, now_ms)),
        deadline_mono_ms >= now_mono_ms + REHYDRATED_TURN_GRACE_MS || deadline_mono_ms == u64::MAX,
{
    let remaining_ms = restored_remaining_ms(deadline_at_ms, now_ms);
    if now_mono_ms > u64::MAX - remaining_ms {
        u64::MAX
    } else {
        now_mono_ms + remaining_ms
    }
}

/// Saving a turn deadline and restoring it at the same moment gives it back:
/// for a deadline with at least the grace period left, whose time left and
/// unix time fit in `i64`, the restored deadline is the saved one.
pub proof fn lemma_a_deadline_round_trips(deadline_mono_ms: u64, now_mono_ms: u64, now_ms: i64)
    requires
        deadline_mono_ms >= now_mono_ms + REHYDRATED_TURN_GRACE_MS,
        deadline_mono_ms - now_mono_ms <= i64::MAX,
        now_ms + (deadline_mono_ms - now_mono_ms) <= i64::MAX,
    ensures
        later(
            now_mono_ms,
            spec_restored_remaining_ms(
                spec_unix_ms_after(now_ms, elapsed(deadline_mono_ms, now_mono_ms) as u128),
                now_ms,
            ),
        ) == deadline_mono_ms,
{
}

/// A restored clock never gives less than the grace period, whatever was
/// saved.
pub proof fn lemma_a_restored_clock_has_the_grace_period(deadline_at_ms: i64, now_ms: i64)
    ensures
        spec_restored_remaining_ms(deadline_at_ms, now_ms) >= REHYDRATED_TURN_GRACE_MS,
        deadline_at_ms - now_ms >= REHYDRATED_TURN_GRACE_MS && deadline_at_ms - now_ms <= u64::MAX
            ==> spec_restored_remaining_ms(deadline_at_ms, now_ms) == deadline_at_ms - now_ms,
{
}

} // verus!
