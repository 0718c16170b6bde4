//! A global sliding-window limit: at most `limit` events in any window.
//!
//! Time is a monotonic clock in milliseconds; the caller supplies it.

use vstd::prelude::*;

use std::collections::VecDeque;

verus! {

/// `a - b`, or zero when `b` is later.
pub open spec fn elapsed(a: u64, b: u64) -> u64 {
    if a >= b { (a - b) as u64 } else { 0 }
}

/// `a + b`, saturated at `u64::MAX`.
pub open spec fn later(a: u64, b: u64) -> u64 {
    if a + b > u64::MAX { u64::MAX } else { (a + b) as u64 }
}

/// The recorded events with those at least a window old dropped from the
/// front.
pub open spec fn drop_expired(events: Seq<u64>, now: u64, window: u64) -> Seq<u64>
    decreases events.len(),
{
    if events.len() > 0 && elapsed(now, events[0]) >= window {
        drop_expired(events.drop_first(), now, window)
    } else {
        events
    }
}

/// What a check does: the remaining events, and either an accepted event
/// (recorded) or the time until the oldest event leaves the window.
pub open spec fn window_check(events: Seq<u64>, now: u64, limit: u32, window: u64) -> (
    Seq<u64>,
    Result<(), u64>,
) {
    let live = drop_expired(events, now, window);
    if live.len() >= limit {
        let retry_after = if live.len() > 0 {
            elapsed(later(live[0], window), now)
        } else {
            window
        };
        (live, Err(retry_after))
    } else {
        (live.push(now), Ok(()))
    }
}

pub struct SlidingWindowLimiter {
    events: VecDeque<u64>,
}

impl View for SlidingWindowLimiter {
    type V = Seq<u64>;

    closed spec fn view(&self) -> Seq<u64> {
        self.events@
    }
}

proof fn lemma_drop_expired_len(events: Seq<u64>, now: u64, window: u64)
    ensures
        drop_expired(events, now, window).len() <= events.len(),
    decreases events.len(),
{
    if events.len() > 0 && elapsed(now, events[0]) >= window {
        lemma_drop_expired_len(events.drop_first(), now, window);
    }
}

impl SlidingWindowLimiter {
    pub fn new() -> (limiter: Self)
        ensures
            limiter@ == Seq::<u64>::empty(),
    {
        SlidingWindowLimiter { events: VecDeque::new() }
    }

    /// Records an event at `now_ms` if fewer than `limit` events are in the
    /// window ending now; otherwise reports how long until a slot frees up.
    /// A refused attempt is not recorded.
    pub fn check_at(&mut self, now_ms: u64, limit: u32, window_ms: u64) -> (result: Result<(), u64>)
        ensures
            (final(self)@, result) == window_check(old(self)@, now_ms, limit, window_ms),
            final(self)@.len() <= if old(self)@.len() > limit { old(self)@.len() } else {
                limit as nat
            },
    {
        proof {
            lemma_drop_expired_len(self@, now_ms, window_ms);
        }
        loop
            invariant
                drop_expired(self@, now_ms, window_ms) == drop_expired(old(self)@, now_ms, window_ms),
            ensures
                self@ == drop_expired(old(self)@, now_ms, window_ms),
            decreases self@.len(),
        {
            if self.events.len() == 0 {
                break;
            }
            let oldest = self.events[0];
            let age = if now_ms >= oldest {
                now_ms - oldest
            } else {
                0
            };
            if age < window_ms {
                break;
            }
            let ghost before = self@;
            self.events.pop_front();
            assert(self@ =~= before.drop_first());
        }
        let ghost live = self@;
        assert(live == drop_expired(old(self)@, now_ms, window_ms));
        if self.events.len() >= limit as usize {
            let retry_after = if self.events.len() > 0 {
                let oldest = self.events[0];
                let free_at = if oldest > u64::MAX - window_ms {
                    u64::MAX
                } else {
                    oldest + window_ms
                };
                if free_at >= now_ms {
                    free_at - now_ms
                } else {
                    0
                }
            } else {
                window_ms
            };
            return Err(retry_after);
        }
        self.events.push_back(now_ms);
        Ok(())
    }

    /// The number of events currently recorded.
    pub fn recorded_events(&self) -> (count: usize)
        ensures
            count == self@.len(),
    {
        self.events.len()
    }
}

/// The memory of the limiter stays bounded by the limit: starting from no
/// more than `limit` events, a check with the same limit leaves no more than
/// `limit` events.
pub proof fn lemma_events_stay_bounded_by_the_limit(events: Seq<u64>, now: u64, limit: u32, window: u64)
    requires
        events.len() <= limit,
    ensures
        window_check(events, now, limit, window).0.len() <= limit,
{
    lemma_drop_expired_len(events, now, window);
}

/// A refused attempt leaves only the unexpired events: it is not recorded and
/// does not extend the block.
pub proof fn lemma_refused_attempts_are_not_recorded(events: Seq<u64>, now: u64, limit: u32, window: u64)
    ensures
        window_check(events, now, limit, window).1 is Err ==> window_check(
            events,
            now,
            limit,
            window,
        ).0 == drop_expired(events, now, window),
{
}

} // verus!
