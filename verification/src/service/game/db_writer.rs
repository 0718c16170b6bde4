//! Decisions of the database writer: when to keep draining the outbox and
//! which forgotten matches to close.

use vstd::prelude::*;

use super::outbox::OutboxEvent;

verus! {

/// The writer drains the outbox this often (half a second).
pub const FLUSH_INTERVAL_MS: u64 = 500;

/// At most this many events are read per flush.
pub const FLUSH_BATCH_LIMIT: usize = 2000;

/// After a failed flush the writer waits this long.
pub const RETRY_BACKOFF_MS: u64 = 2_000;

/// Forgotten matches are looked for this often.
pub const STALE_SWEEP_INTERVAL_MS: u64 = 60_000;

/// A match nobody touched for this long (ten minutes) is abandoned.
pub const STALE_MATCH_AFTER_MS: i64 = 600_000;

/// At most this many matches are looked at per sweep.
pub const STALE_SWEEP_LIMIT: u64 = 500;

/// Whether another flush should follow at once: a full batch means more
/// events may be waiting.
pub fn flush_again(flushed: usize) -> (again: bool)
    ensures
        again == (flushed >= FLUSH_BATCH_LIMIT),
{
    flushed >= FLUSH_BATCH_LIMIT
}

/// What the sweep knows of a live match's saved state.
#[derive(Clone, Copy, Debug, PartialEq, Eq, Structural)]
pub struct SavedMatch {
    pub saved_at_ms: i64,
    pub white_score: u16,
    pub black_score: u16,
}

/// The event that closes a match the sweep found still active: none when the
/// match is being played in this process or was saved after the cutoff;
/// otherwise it is abandoned with the saved score (0:0 when nothing is
/// saved).
pub open spec fn spec_stale_match_event(
    game_id: u64,
    in_memory: bool,
    saved: Option<SavedMatch>,
    cutoff_ms: i64,
    now_ms: i64,
) -> Option<OutboxEvent> {
    if in_memory {
        None
    } else if saved matches Some(s) && s.saved_at_ms > cutoff_ms {
        None
    } else {
        let (white_score, black_score) = match saved {
            Some(s) => (s.white_score, s.black_score),
            None => (0u16, 0u16),
        };
        Some(OutboxEvent::MatchAbandoned { game_id, white_score, black_score, at_ms: now_ms })
    }
}

pub fn stale_match_event(
    game_id: u64,
    in_memory: bool,
    saved: Option<SavedMatch>,
    cutoff_ms: i64,
    now_ms: i64,
) -> (event: Option<OutboxEvent>)
    ensures
        event == spec_stale_match_event(game_id, in_memory, saved, cutoff_ms, now_ms),
{
    if in_memory {
        return None;
    }
    if let Some(s) = saved {
        if s.saved_at_ms > cutoff_ms {
            return None;
        }
    }
    let (white_score, black_score) = match saved {
        Some(s) => (s.white_score, s.black_score),
        None => (0u16, 0u16),
    };
    Some(OutboxEvent::MatchAbandoned { game_id, white_score, black_score, at_ms: now_ms })
}

/// The unix time before which a match counts as forgotten.
pub fn stale_cutoff_ms(now_ms: i64) -> (cutoff_ms: i64)
    ensures
        cutoff_ms == if now_ms >= i64::MIN + STALE_MATCH_AFTER_MS {
            now_ms - STALE_MATCH_AFTER_MS
        } else {
            i64::MIN as int
        },
{
    if now_ms >= i64::MIN + STALE_MATCH_AFTER_MS {
        now_ms - STALE_MATCH_AFTER_MS
    } else {
        i64::MIN
    }
}

} // verus!
