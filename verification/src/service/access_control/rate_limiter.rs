//! Per-user requests-per-second limit, counted in whole-second windows.

use vstd::prelude::*;

use std::collections::HashMap;

use crate::utils::clock::now_unix_seconds;

verus! {

broadcast use vstd::std_specs::hash::group_hash_axioms;

/// Above this many tracked users, windows of past seconds are dropped.
pub const PURGE_THRESHOLD: usize = 10_000;

/// The windows whose second is `current_second`.
pub open spec fn current_only(windows: Map<u64, (u64, u64)>, current_second: u64) -> Map<u64, (u64, u64)> {
    windows.restrict(windows.dom().filter(|user: u64| windows[user].0 == current_second))
}

/// The windows after the purge that precedes every check.
pub open spec fn purged(windows: Map<u64, (u64, u64)>, current_second: u64) -> Map<u64, (u64, u64)> {
    if windows.len() > PURGE_THRESHOLD {
        current_only(windows, current_second)
    } else {
        windows
    }
}

/// What a request of `user_id` in `current_second` does: the windows after it
/// and whether it is allowed. A user's window is `(second, count)`; a window
/// of an earlier second starts over at zero.
pub open spec fn allow_outcome(
    windows: Map<u64, (u64, u64)>,
    user_id: u64,
    requests_per_second: u64,
    current_second: u64,
) -> (Map<u64, (u64, u64)>, bool) {
    let kept = purged(windows, current_second);
    let count = if kept.contains_key(user_id) && kept[user_id].0 == current_second {
        kept[user_id].1
    } else {
        0
    };
    if count >= requests_per_second {
        (kept.insert(user_id, (current_second, count)), false)
    } else {
        (kept.insert(user_id, (current_second, (count + 1) as u64)), true)
    }
}

pub struct RateLimiter {
    windows: HashMap<u64, (u64, u64)>,
}

impl View for RateLimiter {
    type V = Map<u64, (u64, u64)>;

    closed spec fn view(&self) -> Map<u64, (u64, u64)> {
        self.windows@
    }
}

impl RateLimiter {
    pub fn new() -> (limiter: Self)
        ensures
            limiter@ == Map::<u64, (u64, u64)>::empty(),
    {
        RateLimiter { windows: HashMap::new() }
    }

    /// The number of users with a window.
    pub fn tracked_users(&self) -> (count: usize)
        ensures
            count == self@.len(),
    {
        self.windows.len()
    }

    /// Sets a user's window as it is, for restoring a saved state.
    pub fn set_window(&mut self, user_id: u64, second: u64, count: u64)
        ensures
            final(self)@ == old(self)@.insert(user_id, (second, count)),
    {
        self.windows.insert(user_id, (second, count));
    }

    fn drop_past_seconds(&mut self, current_second: u64)
        ensures
            final(self)@ == current_only(old(self)@, current_second),
    {
        let mut kept: HashMap<u64, (u64, u64)> = HashMap::new();
        let ghost m = self.windows@;
        let ghost items = vstd::std_specs::iter::IteratorSpec::remaining(&vstd::std_specs::hash::spec_hash_map_iter(&self.windows));
        for entry in it: self.windows.iter()
            invariant
                m == self.windows@,
                it.seq() == items,
                it.seq().len() == m.dom().len(),
                forall|i: int|
                    0 <= i < it.seq().len() ==> m.contains_key(*(#[trigger] it.seq()[i]).0) && m[*it.seq()[i].0]
                        == *it.seq()[i].1,
                forall|k: u64| #[trigger] m.contains_key(k) ==> it.seq().contains((&k, &m[k])),
                forall|k: u64|
                    #[trigger] kept@.contains_key(k) <==> (exists|j: int|
                        0 <= j < it.index() && *items[j].0 == k && (*items[j].1).0
                            == current_second),
                forall|k: u64| #[trigger] kept@.contains_key(k) ==> m.contains_key(k) && kept@[k] == m[k],
        {
            let (user, window) = entry;
            if window.0 == current_second {
                kept.insert(*user, *window);
            }
        }
        proof {
            let target = current_only(m, current_second);
            assert forall|k: u64| kept@.contains_key(k) <==> target.contains_key(k) by {
                if target.contains_key(k) {
                    assert(items.contains((&k, &m[k])));
                    let j = choose|j: int| 0 <= j < items.len() && items[j] == (&k, &m[k]);
                    assert(*items[j].0 == k);
                }
            }
            assert(kept@ =~= target);
        }
        self.windows = kept;
    }

    /// Counts a request of `user_id` in `current_second` against
    /// `requests_per_second`; true when it is allowed.
    pub fn allow_at(&mut self, current_second: u64, user_id: u64, requests_per_second: u64) -> (allowed: bool)
        ensures
            (final(self)@, allowed) == allow_outcome(old(self)@, user_id, requests_per_second, current_second),
    {
        if self.windows.len() > PURGE_THRESHOLD {
            self.drop_past_seconds(current_second);
        }
        let count = match self.windows.get(&user_id) {
            Some(window) => if window.0 == current_second {
                window.1
            } else {
                0
            },
            None => 0,
        };
        if count >= requests_per_second {
            self.windows.insert(user_id, (current_second, count));
            return false;
        }
        self.windows.insert(user_id, (current_second, count + 1));
        true
    }

    /// Counts a request of `user_id` now.
    pub fn allow(&mut self, user_id: u64, requests_per_second: u64) -> (allowed: bool)
        ensures
            exists|reading: Option<u128>|
                (final(self)@, allowed) == #[trigger] allow_outcome(
                    old(self)@,
                    user_id,
                    requests_per_second,
                    crate::utils::clock::spec_unix_seconds_from(reading) as u64,
                ),
    {
        let second = now_unix_seconds() as u64;
        self.allow_at(second, user_id, requests_per_second)
    }
}

/// Within one second a user is allowed at most `requests_per_second`
/// requests: a request is refused exactly when the count of the second has
/// reached the budget, and the count never passes it.
pub proof fn lemma_the_budget_holds(
    windows: Map<u64, (u64, u64)>,
    user_id: u64,
    requests_per_second: u64,
    current_second: u64,
)
    requires
        windows.contains_key(user_id) ==> windows[user_id].1 <= requests_per_second,
    ensures
        ({
            let (after, allowed) = allow_outcome(windows, user_id, requests_per_second, current_second);
            &&& after[user_id].0 == current_second
            &&& after[user_id].1 <= requests_per_second
            &&& allowed ==> after[user_id].1 >= 1
        }),
{
}

} // verus!
