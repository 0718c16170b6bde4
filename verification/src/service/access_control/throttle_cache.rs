//! Per-user request limits configured by administrators, kept in memory.

use vstd::prelude::*;

use std::collections::HashMap;

use super::rate_limiter::{allow_outcome, RateLimiter};

verus! {

broadcast use vstd::std_specs::hash::group_hash_axioms;

/// The limits after loading `rows` (user, requests per second) in order: a
/// later row for a user replaces an earlier one.
pub open spec fn limits_of_rows(rows: Seq<(u64, u64)>) -> Map<u64, u64>
    decreases rows.len(),
{
    if rows.len() == 0 {
        Map::empty()
    } else {
        limits_of_rows(rows.drop_last()).insert(rows.last().0, rows.last().1)
    }
}

/// The configured requests-per-second limit of each user that has one.
pub struct ThrottleCache {
    limits: HashMap<u64, u64>,
}

impl View for ThrottleCache {
    type V = Map<u64, u64>;

    closed spec fn view(&self) -> Map<u64, u64> {
        self.limits@
    }
}

impl ThrottleCache {
    /// A cache holding the limits of `rows`, each a (user id, requests per
    /// second) pair as stored in the database.
    pub fn from_rows(rows: &Vec<(u64, u64)>) -> (cache: Self)
        ensures
            cache@ == limits_of_rows(rows@),
    {
        let mut limits: HashMap<u64, u64> = HashMap::new();
        let mut i: usize = 0;
        while i < rows.len()
            invariant
                i <= rows@.len(),
                limits@ == limits_of_rows(rows@.take(i as int)),
            decreases rows@.len() - i,
        {
            let (user_id, requests_per_second) = rows[i];
            limits.insert(user_id, requests_per_second);
            assert(rows@.take(i + 1).drop_last() =~= rows@.take(i as int));
            i = i + 1;
        }
        assert(rows@.take(rows@.len() as int) =~= rows@);
        ThrottleCache { limits }
    }

    /// The configured limit of `user_id`, if there is one.
    pub fn limit_for(&self, user_id: u64) -> (limit: Option<u64>)
        ensures
            limit == (if self@.contains_key(user_id) {
                Some(self@[user_id])
            } else {
                None
            }),
    {
        match self.limits.get(&user_id) {
            Some(limit) => Some(*limit),
            None => None,
        }
    }

    /// Sets the limit of `user_id`.
    pub fn upsert(&mut self, user_id: u64, requests_per_second: u64)
        ensures
            final(self)@ == old(self)@.insert(user_id, requests_per_second),
    {
        self.limits.insert(user_id, requests_per_second);
    }

    /// Drops the limit of `user_id`; it falls back to the default.
    pub fn remove(&mut self, user_id: u64)
        ensures
            final(self)@ == old(self)@.remove(user_id),
    {
        self.limits.remove(&user_id);
    }
}

/// The limit that applies to a user: the configured one, else the default.
pub open spec fn effective_limit(limits: Map<u64, u64>, user_id: u64, default_rps: u64) -> u64 {
    if limits.contains_key(user_id) {
        limits[user_id]
    } else {
        default_rps
    }
}

/// Counts a request of `user_id` against the limit that applies to it (the
/// configured one, else `default_rps`); true when it may go on.
pub fn enforce(cache: &ThrottleCache, limiter: &mut RateLimiter, user_id: u64, default_rps: u64) -> (allowed: bool)
    ensures
        exists|second: u64|
            (final(limiter)@, allowed) == #[trigger] allow_outcome(
                old(limiter)@,
                user_id,
                effective_limit(cache@, user_id, default_rps),
                second,
            ),
{
    let requests_per_second = match cache.limit_for(user_id) {
        Some(limit) => limit,
        None => default_rps,
    };
    assert(requests_per_second == effective_limit(cache@, user_id, default_rps));
    limiter.allow(user_id, requests_per_second)
}

} // verus!
