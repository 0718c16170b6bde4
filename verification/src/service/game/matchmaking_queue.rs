//! Quick-match decisions. One user waits at a time; the next user who asks is
//! paired with them. The queue itself lives in a key-value store; this module
//! decides what each request does with it.

use vstd::prelude::*;

use crate::utils::text::{decimal, prefixed_decimal};

verus! {

/// A search ends with `NoOpponent` after this long (one minute).
pub const WAIT_TIMEOUT_MS: i64 = 60_000;

/// A waiting user who has not polled for this long is gone.
pub const WAITING_STALE_AFTER_MS: i64 = 6_000;

/// How long a match made for a waiting user stays ready to be picked up.
pub const MATCH_PICKUP_WINDOW_MS: i64 = WAITING_STALE_AFTER_MS;

pub const WAITING_KEY: &'static str = "mm:waiting";

/// The waiting entry outlives the longest wait twice over.
pub const WAITING_KEY_TTL_SECONDS: u64 = 120;

pub const MATCHED_KEY_PREFIX: &'static str = "mm:matched:";

/// The key under which a match made for `user_id` waits to be picked up.
pub fn matched_key(user_id: u64) -> (key: String)
    ensures
        key@ == MATCHED_KEY_PREFIX@ + decimal(user_id as nat),
{
    prefixed_decimal(MATCHED_KEY_PREFIX, user_id)
}

#[derive(Clone, Copy, Debug, PartialEq, Eq, Structural)]
pub struct WaitingEntry {
    pub user_id: u64,
    pub joined_at_ms: i64,
    pub last_seen_ms: i64,
}

/// What a quick-match request reports.
#[derive(Clone, Copy, Debug, PartialEq, Eq, Structural)]
pub enum QueueEvent {
    AlreadyMatched(u64),
    NowWaiting,
    OpponentFound(u64),
    NoOpponent,
}

/// What a quick-match request does to the queue.
#[derive(Clone, Copy, Debug, PartialEq, Eq, Structural)]
pub enum QueueAction {
    /// Hand out (and forget) the match already made for this user.
    HandOutMatch(u64),
    /// Store the entry: the user keeps waiting.
    KeepWaiting(WaitingEntry),
    /// Empty the queue and pair the user with the one who waited.
    PairWith(u64),
    /// Store the entry: the user starts waiting.
    StartWaiting(WaitingEntry),
    /// Empty the queue: the search is over.
    TimeOut,
}

/// `a - b`, saturated to the range of `i64`.
pub open spec fn saturating_diff(a: i64, b: i64) -> i64 {
    let d = a - b;
    if d > i64::MAX {
        i64::MAX
    } else if d < i64::MIN {
        i64::MIN
    } else {
        d as i64
    }
}

fn saturating_sub_i64(a: i64, b: i64) -> (d: i64)
    ensures
        d == saturating_diff(a, b),
{
    if b > 0 && a < i64::MIN + b {
        i64::MIN
    } else if b < 0 && a > i64::MAX + b {
        i64::MAX
    } else {
        a - b
    }
}

pub open spec fn spec_is_older_than(now_ms: i64, then_ms: i64, limit_ms: i64) -> bool {
    saturating_diff(now_ms, then_ms) > limit_ms
}

/// Whether more than `limit_ms` has passed from `then_ms` to `now_ms`.
pub fn is_older_than(now_ms: i64, then_ms: i64, limit_ms: i64) -> (older: bool)
    ensures
        older == spec_is_older_than(now_ms, then_ms, limit_ms),
{
    saturating_sub_i64(now_ms, then_ms) > limit_ms
}

pub open spec fn fresh_entry(now_ms: i64, user_id: u64) -> WaitingEntry {
    WaitingEntry { user_id, joined_at_ms: now_ms, last_seen_ms: now_ms }
}

/// The decision of `decide`, stated directly.
pub open spec fn queue_decision(
    now_ms: i64,
    user_id: u64,
    matched_game: Option<u64>,
    waiting: Option<WaitingEntry>,
) -> QueueAction {
    match matched_game {
        Some(game_id) => QueueAction::HandOutMatch(game_id),
        None => match waiting {
            Some(entry) => if entry.user_id == user_id {
                if spec_is_older_than(now_ms, entry.last_seen_ms, WAITING_STALE_AFTER_MS) {
                    QueueAction::StartWaiting(fresh_entry(now_ms, user_id))
                } else if spec_is_older_than(now_ms, entry.joined_at_ms, WAIT_TIMEOUT_MS) {
                    QueueAction::TimeOut
                } else {
                    QueueAction::KeepWaiting(WaitingEntry { last_seen_ms: now_ms, ..entry })
                }
            } else if !spec_is_older_than(now_ms, entry.last_seen_ms, WAITING_STALE_AFTER_MS) {
                QueueAction::PairWith(entry.user_id)
            } else {
                QueueAction::StartWaiting(fresh_entry(now_ms, user_id))
            },
            None => QueueAction::StartWaiting(fresh_entry(now_ms, user_id)),
        },
    }
}

/// Decides what a quick-match request of `user_id` at `now_ms` does, given
/// the match already made for them (if any) and the current waiting entry.
pub fn decide(now_ms: i64, user_id: u64, matched_game: Option<u64>, waiting: Option<WaitingEntry>) -> (action: QueueAction)
    ensures
        action == queue_decision(now_ms, user_id, matched_game, waiting),
        // Nobody is paired with themselves, nor with a waiting user who stopped polling.
        action matches QueueAction::PairWith(other) ==> {
            &&& other != user_id
            &&& waiting matches Some(entry) && entry.user_id == other && !spec_is_older_than(
                now_ms,
                entry.last_seen_ms,
                WAITING_STALE_AFTER_MS,
            )
        },
        // A kept wait remembers when the user joined and refreshes when they were seen.
        action matches QueueAction::KeepWaiting(kept) ==> {
            &&& waiting matches Some(entry) && kept.joined_at_ms == entry.joined_at_ms
            &&& kept.user_id == user_id
            &&& kept.last_seen_ms == now_ms
        },
        action matches QueueAction::StartWaiting(entry) ==> entry == fresh_entry(now_ms, user_id),
{
    if let Some(game_id) = matched_game {
        return QueueAction::HandOutMatch(game_id);
    }

    match waiting {
        Some(entry) => {
            if entry.user_id == user_id {
                if is_older_than(now_ms, entry.last_seen_ms, WAITING_STALE_AFTER_MS) {
                    QueueAction::StartWaiting(
                        WaitingEntry { user_id, joined_at_ms: now_ms, last_seen_ms: now_ms },
                    )
                } else if is_older_than(now_ms, entry.joined_at_ms, WAIT_TIMEOUT_MS) {
                    QueueAction::TimeOut
                } else {
                    QueueAction::KeepWaiting(WaitingEntry { last_seen_ms: now_ms, ..entry })
                }
            } else if !is_older_than(now_ms, entry.last_seen_ms, WAITING_STALE_AFTER_MS) {
                QueueAction::PairWith(entry.user_id)
            } else {
                QueueAction::StartWaiting(
                    WaitingEntry { user_id, joined_at_ms: now_ms, last_seen_ms: now_ms },
                )
            }
        },
        None => QueueAction::StartWaiting(
            WaitingEntry { user_id, joined_at_ms: now_ms, last_seen_ms: now_ms },
        ),
    }
}

pub open spec fn spec_queue_event(action: QueueAction) -> QueueEvent {
    match action {
        QueueAction::HandOutMatch(game_id) => QueueEvent::AlreadyMatched(game_id),
        QueueAction::KeepWaiting(_) | QueueAction::StartWaiting(_) => QueueEvent::NowWaiting,
        QueueAction::PairWith(opponent_id) => QueueEvent::OpponentFound(opponent_id),
        QueueAction::TimeOut => QueueEvent::NoOpponent,
    }
}

/// What the request reports once its action has been carried out.
pub fn queue_event(action: QueueAction) -> (event: QueueEvent)
    ensures
        event == spec_queue_event(action),
{
    match action {
        QueueAction::HandOutMatch(game_id) => QueueEvent::AlreadyMatched(game_id),
        QueueAction::KeepWaiting(_) | QueueAction::StartWaiting(_) => QueueEvent::NowWaiting,
        QueueAction::PairWith(opponent_id) => QueueEvent::OpponentFound(opponent_id),
        QueueAction::TimeOut => QueueEvent::NoOpponent,
    }
}

/// A user who keeps polling waits the whole timeout: while their entry is
/// fresh and no longer than `WAIT_TIMEOUT_MS` old, they keep waiting; once it
/// is older, the search ends.
pub proof fn lemma_the_wait_lasts_the_full_timeout(now_ms: i64, entry: WaitingEntry)
    requires
        !spec_is_older_than(now_ms, entry.last_seen_ms, WAITING_STALE_AFTER_MS),
    ensures
        !spec_is_older_than(now_ms, entry.joined_at_ms, WAIT_TIMEOUT_MS) ==> queue_decision(
            now_ms,
            entry.user_id,
            None,
            Some(entry),
        ) is KeepWaiting,
        spec_is_older_than(now_ms, entry.joined_at_ms, WAIT_TIMEOUT_MS) ==> queue_decision(
            now_ms,
            entry.user_id,
            None,
            Some(entry),
        ) == QueueAction::TimeOut,
{
}

/// A match made for a user is handed out before anything else is looked at.
pub proof fn lemma_a_made_match_comes_first(
    now_ms: i64,
    user_id: u64,
    game_id: u64,
    waiting: Option<WaitingEntry>,
)
    ensures
        queue_decision(now_ms, user_id, Some(game_id), waiting) == QueueAction::HandOutMatch(
            game_id,
        ),
{
}

/// The keys of two different users never collide.
pub proof fn lemma_matched_keys_are_per_user(a: u64, b: u64)
    requires
        a != b,
    ensures
        MATCHED_KEY_PREFIX@ + decimal(a as nat) != MATCHED_KEY_PREFIX@ + decimal(b as nat),
{
    crate::utils::text::lemma_decimal_injective(a as nat, b as nat);
    let ka = MATCHED_KEY_PREFIX@ + decimal(a as nat);
    let kb = MATCHED_KEY_PREFIX@ + decimal(b as nat);
    if ka == kb {
        assert(ka.subrange(MATCHED_KEY_PREFIX@.len() as int, ka.len() as int) =~= decimal(a as nat));
        assert(kb.subrange(MATCHED_KEY_PREFIX@.len() as int, kb.len() as int) =~= decimal(b as nat));
    }
}

/// A user who asks while someone else is waiting and was seen within
/// `WAITING_STALE_AFTER_MS` is paired with them, however long ago they
/// joined; if the one waiting was last seen longer ago than that, they are
/// gone and the user starts waiting in their place.
pub proof fn lemma_a_polling_waiter_is_paired(now_ms: i64, user_id: u64, entry: WaitingEntry)
    requires
        entry.user_id != user_id,
    ensures
        now_ms - entry.last_seen_ms <= WAITING_STALE_AFTER_MS ==> queue_decision(
            now_ms,
            user_id,
            None,
            Some(entry),
        ) == QueueAction::PairWith(entry.user_id),
        now_ms - entry.last_seen_ms > WAITING_STALE_AFTER_MS ==> queue_decision(
            now_ms,
            user_id,
            None,
            Some(entry),
        ) == QueueAction::StartWaiting(WaitingEntry { user_id, joined_at_ms: now_ms, last_seen_ms: now_ms }),
{
}

/// A user whose own waiting entry was last seen longer ago than
/// `WAITING_STALE_AFTER_MS` starts a new wait, joined and seen now, rather
/// than being timed out or kept on the old one.
pub proof fn lemma_a_stale_own_wait_starts_over(now_ms: i64, entry: WaitingEntry)
    requires
        now_ms - entry.last_seen_ms > WAITING_STALE_AFTER_MS,
    ensures
        queue_decision(now_ms, entry.user_id, None, Some(entry)) == QueueAction::StartWaiting(
            WaitingEntry { user_id: entry.user_id, joined_at_ms: now_ms, last_seen_ms: now_ms },
        ),
{
}

/// A user who asks when nobody waits starts waiting, joined and seen now.
pub proof fn lemma_an_empty_queue_is_joined(now_ms: i64, user_id: u64)
    ensures
        queue_decision(now_ms, user_id, None, None) == QueueAction::StartWaiting(
            WaitingEntry { user_id, joined_at_ms: now_ms, last_seen_ms: now_ms },
        ),
{
}

} // verus!
