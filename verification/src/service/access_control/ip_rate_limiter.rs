//! Per-client, per-scope fixed-window rate limits.
//!
//! A client is its IPv4 address, or the /64 network of its IPv6 address (an
//! IPv4-mapped IPv6 address counts as the IPv4 address). Time is a monotonic
//! clock in milliseconds; the caller supplies it.

use vstd::prelude::*;

use super::sliding_window_limiter::elapsed;

verus! {

/// Expired windows are dropped at most this often (once a minute).
pub const PURGE_INTERVAL_MS: u64 = 60_000;

/// The /64 prefix of an IPv6 address.
pub const IPV6_NETWORK_PREFIX_MASK: u128 = 0xFFFF_FFFF_FFFF_FFFF_0000_0000_0000_0000u128;

/// Which budget a request draws from.
#[derive(Clone, Copy, Debug, PartialEq, Eq, Structural, Hash)]
pub enum RateLimitScope {
    AuthRequests,
    PublicRequests,
    GuestCreation,
    CaptchaStart,
    CaptchaVerify,
}

/// A client address: IPv4 as its 32 bits, IPv6 as its 128 bits.
#[derive(Clone, Copy, Debug, PartialEq, Eq, Structural, Hash)]
pub enum IpAddress {
    V4(u32),
    V6(u128),
}

pub open spec fn spec_network_key(ip: IpAddress) -> IpAddress {
    match ip {
        IpAddress::V4(_) => ip,
        IpAddress::V6(bits) => if bits >> 32u128 == 0xFFFFu128 {
            IpAddress::V4((bits & 0xFFFF_FFFFu128) as u32)
        } else {
            IpAddress::V6(bits & IPV6_NETWORK_PREFIX_MASK)
        },
    }
}

/// The client a budget belongs to: an IPv4 address as it is, an
/// IPv4-mapped IPv6 address (`::ffff:a.b.c.d`) as that IPv4 address, any
/// other IPv6 address as its /64 network.
pub fn network_key(ip: IpAddress) -> (key: IpAddress)
    ensures
        key == spec_network_key(ip),
{
    match ip {
        IpAddress::V4(_) => ip,
        IpAddress::V6(bits) => {
            if bits >> 32u128 == 0xFFFFu128 {
                IpAddress::V4((bits & 0xFFFF_FFFFu128) as u32)
            } else {
                IpAddress::V6(bits & IPV6_NETWORK_PREFIX_MASK)
            }
        },
    }
}

/// Two IPv6 addresses in the same /64 network share one budget.
pub proof fn lemma_same_slash_64_same_budget(a: u128, b: u128)
    requires
        a >> 64u128 == b >> 64u128,
        a >> 32u128 != 0xFFFFu128,
        b >> 32u128 != 0xFFFFu128,
    ensures
        spec_network_key(IpAddress::V6(a)) == spec_network_key(IpAddress::V6(b)),
{
    assert(a >> 64u128 == b >> 64u128 ==> a & 0xFFFF_FFFF_FFFF_FFFF_0000_0000_0000_0000u128 == b
        & 0xFFFF_FFFF_FFFF_FFFF_0000_0000_0000_0000u128) by (bit_vector);
}

/// An IPv4-mapped IPv6 address shares the budget of its IPv4 address.
pub proof fn lemma_mapped_ipv4_shares_the_budget(v4: u32)
    ensures
        spec_network_key(IpAddress::V6(0xFFFF_0000_0000u128 | v4 as u128)) == IpAddress::V4(v4),
{
    let bits = 0xFFFF_0000_0000u128 | v4 as u128;
    assert((0xFFFF_0000_0000u128 | v4 as u128) >> 32u128 == 0xFFFFu128) by (bit_vector);
    assert((0xFFFF_0000_0000u128 | v4 as u128) & 0xFFFF_FFFFu128 == v4 as u128) by (bit_vector);
}

#[derive(Clone, Copy, Debug, PartialEq, Eq, Structural)]
pub struct WindowCounter {
    pub expires_at_ms: u64,
    pub count: u32,
}

/// One tracked budget.
#[derive(Clone, Copy, Debug, PartialEq, Eq, Structural)]
pub struct CounterEntry {
    pub scope: RateLimitScope,
    pub network: IpAddress,
    pub counter: WindowCounter,
}

pub open spec fn entry_key(e: CounterEntry) -> (RateLimitScope, IpAddress) {
    (e.scope, e.network)
}

pub open spec fn has_key(s: Seq<CounterEntry>, k: (RateLimitScope, IpAddress)) -> bool {
    exists|i: int| 0 <= i < s.len() && entry_key(s[i]) == k
}

pub open spec fn unique_keys(s: Seq<CounterEntry>) -> bool {
    forall|i: int, j: int|
        0 <= i < s.len() && 0 <= j < s.len() && i != j ==> entry_key(s[i]) != entry_key(s[j])
}

/// The budgets as a map from (scope, client) to their counter.
pub open spec fn counter_map(s: Seq<CounterEntry>) -> Map<(RateLimitScope, IpAddress), WindowCounter> {
    Map::new(
        |k: (RateLimitScope, IpAddress)| has_key(s, k),
        |k: (RateLimitScope, IpAddress)|
            s[choose|i: int| 0 <= i < s.len() && entry_key(s[i]) == k].counter,
    )
}

proof fn lemma_counter_map_at(s: Seq<CounterEntry>, i: int)
    requires
        unique_keys(s),
        0 <= i < s.len(),
    ensures
        counter_map(s).contains_key(entry_key(s[i])),
        counter_map(s)[entry_key(s[i])] == s[i].counter,
{
    let k = entry_key(s[i]);
    assert(has_key(s, k));
    let j = choose|j: int| 0 <= j < s.len() && entry_key(s[j]) == k;
    assert(j == i);
}

proof fn lemma_counter_map_update(s: Seq<CounterEntry>, i: int, c: WindowCounter)
    requires
        unique_keys(s),
        0 <= i < s.len(),
    ensures
        unique_keys(s.update(i, CounterEntry { counter: c, ..s[i] })),
        counter_map(s.update(i, CounterEntry { counter: c, ..s[i] })) == counter_map(s).insert(
            entry_key(s[i]),
            c,
        ),
{
    let t = s.update(i, CounterEntry { counter: c, ..s[i] });
    let k = entry_key(s[i]);
    assert(unique_keys(t)) by {
        assert forall|a: int, b: int| 0 <= a < t.len() && 0 <= b < t.len() && a != b implies entry_key(
            t[a],
        ) != entry_key(t[b]) by {
            assert(entry_key(t[a]) == entry_key(s[a]));
            assert(entry_key(t[b]) == entry_key(s[b]));
        }
    }
    assert forall|key: (RateLimitScope, IpAddress)| #[trigger]
        counter_map(t).contains_key(key) == counter_map(s).insert(k, c).contains_key(key) by {
        if has_key(s, key) {
            let j = choose|j: int| 0 <= j < s.len() && entry_key(s[j]) == key;
            assert(entry_key(t[j]) == key);
        }
        if has_key(t, key) {
            let j = choose|j: int| 0 <= j < t.len() && entry_key(t[j]) == key;
            assert(entry_key(s[j]) == key);
        }
    }
    assert forall|key: (RateLimitScope, IpAddress)| #[trigger] counter_map(t).contains_key(key)
        implies counter_map(t)[key] == counter_map(s).insert(k, c)[key] by {
        let j = choose|j: int| 0 <= j < t.len() && entry_key(t[j]) == key;
        lemma_counter_map_at(t, j);
        if j != i {
            lemma_counter_map_at(s, j);
        }
    }
    assert(counter_map(t) =~= counter_map(s).insert(k, c));
}

proof fn lemma_counter_map_push(s: Seq<CounterEntry>, e: CounterEntry)
    requires
        unique_keys(s),
        !has_key(s, entry_key(e)),
    ensures
        unique_keys(s.push(e)),
        counter_map(s.push(e)) == counter_map(s).insert(entry_key(e), e.counter),
{
    let t = s.push(e);
    let k = entry_key(e);
    assert(unique_keys(t)) by {
        assert forall|a: int, b: int| 0 <= a < t.len() && 0 <= b < t.len() && a != b implies entry_key(
            t[a],
        ) != entry_key(t[b]) by {
            if a == s.len() {
                assert(entry_key(t[b]) == entry_key(s[b]));
            } else if b == s.len() {
                assert(entry_key(t[a]) == entry_key(s[a]));
            } else {
                assert(t[a] == s[a] && t[b] == s[b]);
            }
        }
    }
    assert forall|key: (RateLimitScope, IpAddress)| #[trigger]
        counter_map(t).contains_key(key) == counter_map(s).insert(k, e.counter).contains_key(key) by {
        if has_key(s, key) {
            let j = choose|j: int| 0 <= j < s.len() && entry_key(s[j]) == key;
            assert(t[j] == s[j]);
        }
        if has_key(t, key) {
            let j = choose|j: int| 0 <= j < t.len() && entry_key(t[j]) == key;
            if j < s.len() {
                assert(t[j] == s[j]);
            }
        }
        assert(entry_key(t[s.len() as int]) == k);
    }
    assert forall|key: (RateLimitScope, IpAddress)| #[trigger] counter_map(t).contains_key(key)
        implies counter_map(t)[key] == counter_map(s).insert(k, e.counter)[key] by {
        let j = choose|j: int| 0 <= j < t.len() && entry_key(t[j]) == key;
        lemma_counter_map_at(t, j);
        if j < s.len() {
            assert(t[j] == s[j]);
            lemma_counter_map_at(s, j);
        }
    }
    assert(counter_map(t) =~= counter_map(s).insert(k, e.counter));
}

/// The counters still running at `now`.
pub open spec fn unexpired(counters: Map<(RateLimitScope, IpAddress), WindowCounter>, now: u64) -> Map<
    (RateLimitScope, IpAddress),
    WindowCounter,
> {
    counters.restrict(
        counters.dom().filter(|k: (RateLimitScope, IpAddress)| counters[k].expires_at_ms > now),
    )
}

/// The mathematical model of the limiter.
#[verifier::ext_equal]
pub struct LimiterView {
    pub counters: Map<(RateLimitScope, IpAddress), WindowCounter>,
    pub last_purge_at_ms: u64,
}

/// What a check of (`scope`, `ip`) at `now` does: the limiter after it, and
/// either the request counted or the time until its window ends.
pub open spec fn check_outcome(
    v: LimiterView,
    now: u64,
    scope: RateLimitScope,
    ip: IpAddress,
    limit: u32,
    window: u64,
) -> (LimiterView, Result<(), u64>) {
    let purge = elapsed(now, v.last_purge_at_ms) >= PURGE_INTERVAL_MS;
    let counters = if purge { unexpired(v.counters, now) } else { v.counters };
    let last_purge_at_ms = if purge { now } else { v.last_purge_at_ms };
    let key = (scope, spec_network_key(ip));
    let fresh = WindowCounter { expires_at_ms: (now + window) as u64, count: 0 };
    let found = if counters.contains_key(key) { counters[key] } else { fresh };
    let current = if now >= found.expires_at_ms { fresh } else { found };
    if current.count >= limit {
        (
            LimiterView { counters: counters.insert(key, current), last_purge_at_ms },
            Err(elapsed(current.expires_at_ms, now)),
        )
    } else {
        (
            LimiterView {
                counters: counters.insert(
                    key,
                    WindowCounter { count: (current.count + 1) as u32, ..current },
                ),
                last_purge_at_ms,
            },
            Ok(()),
        )
    }
}

/// The state of the per-client limiter.
pub struct LimiterState {
    counters: Vec<CounterEntry>,
    last_purge_at_ms: u64,
}

impl View for LimiterState {
    type V = LimiterView;

    closed spec fn view(&self) -> LimiterView {
        LimiterView { counters: counter_map(self.counters@), last_purge_at_ms: self.last_purge_at_ms }
    }
}

impl LimiterState {
    #[verifier::type_invariant]
    closed spec fn well_formed(self) -> bool {
        unique_keys(self.counters@)
    }

    /// A limiter with no budget used, created at `now_ms`.
    pub fn new(now_ms: u64) -> (state: Self)
        ensures
            state@ == (LimiterView { counters: Map::empty(), last_purge_at_ms: now_ms }),
    {
        let state = LimiterState { counters: Vec::new(), last_purge_at_ms: now_ms };
        assert(counter_map(state.counters@) =~= Map::empty());
        state
    }

    /// The number of budgets tracked.
    pub fn tracked_clients(&self) -> (count: usize)
        ensures
            count == self@.counters.len(),
    {
        proof {
            use_type_invariant(self);
            lemma_map_len(self.counters@);
        }
        self.counters.len()
    }

    fn find(counters: &Vec<CounterEntry>, scope: RateLimitScope, network: IpAddress) -> (found: Option<usize>)
        ensures
            match found {
                Some(i) => i < counters@.len() && entry_key(counters@[i as int]) == (scope, network),
                None => !has_key(counters@, (scope, network)),
            },
    {
        let mut i: usize = 0;
        while i < counters.len()
            invariant
                i <= counters@.len(),
                forall|j: int| 0 <= j < i ==> entry_key(#[trigger] counters@[j]) != (scope, network),
            decreases counters.len() - i,
        {
            let e = counters[i];
            if e.scope == scope && e.network == network {
                return Some(i);
            }
            i = i + 1;
        }
        None
    }

    fn drop_expired(counters: &Vec<CounterEntry>, now_ms: u64) -> (kept: Vec<CounterEntry>)
        requires
            unique_keys(counters@),
        ensures
            unique_keys(kept@),
            counter_map(kept@) == unexpired(counter_map(counters@), now_ms),
    {
        let ghost s = counters@;
        let ghost mut origin: Seq<int> = Seq::empty();
        let mut kept: Vec<CounterEntry> = Vec::new();
        let mut i: usize = 0;
        while i < counters.len()
            invariant
                s == counters@,
                unique_keys(s),
                i <= s.len(),
                unique_keys(kept@),
                origin.len() == kept@.len(),
                forall|a: int|
                    0 <= a < kept@.len() ==> 0 <= #[trigger] origin[a] < i && kept@[a] == s[origin[a]]
                        && s[origin[a]].counter.expires_at_ms > now_ms,
                forall|b: int|
                    0 <= b < i && s[b].counter.expires_at_ms > now_ms ==> exists|a: int|
                        0 <= a < kept@.len() && kept@[a] == #[trigger] s[b],
            decreases s.len() - i,
        {
            let e = counters[i];
            if e.counter.expires_at_ms > now_ms {
                proof {
                    assert forall|a: int| 0 <= a < kept@.len() implies entry_key(kept@[a]) != entry_key(
                        e,
                    ) by {
                        assert(origin[a] != i);
                    }
                    assert(!has_key(kept@, entry_key(e)));
                    lemma_counter_map_push(kept@, e);
                }
                let ghost before = kept@;
                kept.push(e);
                proof {
                    origin = origin.push(i as int);
                    assert forall|b: int| 0 <= b < i + 1 && s[b].counter.expires_at_ms > now_ms implies exists|
                        a: int,
                    | 0 <= a < kept@.len() && kept@[a] == #[trigger] s[b] by {
                        if b < i {
                            let a = choose|a: int| 0 <= a < before.len() && before[a] == s[b];
                            assert(kept@[a] == before[a]);
                        } else {
                            assert(kept@[before.len() as int] == s[b]);
                        }
                    }
                }
            }
            i = i + 1;
        }
        proof {
            let target = unexpired(counter_map(s), now_ms);
            assert forall|k: (RateLimitScope, IpAddress)| #[trigger] counter_map(kept@).contains_key(k)
                == target.contains_key(k) by {
                if has_key(kept@, k) {
                    let a = choose|a: int| 0 <= a < kept@.len() && entry_key(kept@[a]) == k;
                    lemma_counter_map_at(s, origin[a]);
                }
                if target.contains_key(k) {
                    let b = choose|b: int| 0 <= b < s.len() && entry_key(s[b]) == k;
                    lemma_counter_map_at(s, b);
                    let a = choose|a: int| 0 <= a < kept@.len() && kept@[a] == s[b];
                    assert(entry_key(kept@[a]) == k);
                }
            }
            assert forall|k: (RateLimitScope, IpAddress)| #[trigger] counter_map(kept@).contains_key(k)
                implies counter_map(kept@)[k] == target[k] by {
                let a = choose|a: int| 0 <= a < kept@.len() && entry_key(kept@[a]) == k;
                lemma_counter_map_at(kept@, a);
                lemma_counter_map_at(s, origin[a]);
            }
            assert(counter_map(kept@) =~= target);
        }
        kept
    }

    /// Counts a request of `ip` in `scope` at `now_ms` against `limit` per
    /// `window_ms`; refused with the time until the window ends once the
    /// budget is used up.
    pub fn check_at(
        &mut self,
        now_ms: u64,
        scope: RateLimitScope,
        ip: IpAddress,
        limit: u32,
        window_ms: u64,
    ) -> (result: Result<(), u64>)
        requires
            now_ms + window_ms <= u64::MAX,
        ensures
            (final(self)@, result) == check_outcome(old(self)@, now_ms, scope, ip, limit, window_ms),
    {
        proof {
            use_type_invariant(&*self);
        }
        let since_purge = if now_ms >= self.last_purge_at_ms {
            now_ms - self.last_purge_at_ms
        } else {
            0
        };
        if since_purge >= PURGE_INTERVAL_MS {
            let kept = Self::drop_expired(&self.counters, now_ms);
            self.counters = kept;
            self.last_purge_at_ms = now_ms;
        }
        let mut counters: Vec<CounterEntry> = Vec::new();
        std::mem::swap(&mut counters, &mut self.counters);
        let network = network_key(ip);
        let fresh = WindowCounter { expires_at_ms: now_ms + window_ms, count: 0 };
        let idx = match Self::find(&counters, scope, network) {
            Some(i) => i,
            None => {
                let e = CounterEntry { scope, network, counter: fresh };
                proof {
                    lemma_counter_map_push(counters@, e);
                }
                counters.push(e);
                (counters.len() - 1)
            },
        };
        proof {
            lemma_counter_map_at(counters@, idx as int);
        }
        let found = counters[idx].counter;
        let current = if now_ms >= found.expires_at_ms {
            fresh
        } else {
            found
        };
        let refused = current.count >= limit;
        let stored = if refused {
            current
        } else {
            WindowCounter { count: current.count + 1, ..current }
        };
        let e = CounterEntry { counter: stored, ..counters[idx] };
        proof {
            lemma_counter_map_update(counters@, idx as int, stored);
        }
        counters.set(idx, e);
        self.counters = counters;
        if refused {
            let retry_after = if current.expires_at_ms >= now_ms {
                current.expires_at_ms - now_ms
            } else {
                0
            };
            Err(retry_after)
        } else {
            Ok(())
        }
    }
}

proof fn lemma_map_len(s: Seq<CounterEntry>)
    requires
        unique_keys(s),
    ensures
        counter_map(s).dom().finite(),
        counter_map(s).len() == s.len(),
    decreases s.len(),
{
    if s.len() == 0 {
        assert(counter_map(s).dom() =~= Set::empty());
    } else {
        let t = s.drop_last();
        assert(unique_keys(t));
        lemma_map_len(t);
        assert(!has_key(t, entry_key(s.last())));
        lemma_counter_map_push(t, s.last());
        assert(t.push(s.last()) =~= s);
    }
}

/// No budget is ever exceeded: a counter of a window that is still running
/// never goes past the limit, and a refused request leaves it as it was.
pub proof fn lemma_a_budget_is_never_exceeded(
    v: LimiterView,
    now: u64,
    scope: RateLimitScope,
    ip: IpAddress,
    limit: u32,
    window: u64,
)
    requires
        now + window <= u64::MAX,
        forall|k| #[trigger] v.counters.contains_key(k) ==> v.counters[k].count <= limit,
    ensures
        ({
            let (after, result) = check_outcome(v, now, scope, ip, limit, window);
            let key = (scope, spec_network_key(ip));
            &&& forall|k| #[trigger] after.counters.contains_key(k) ==> after.counters[k].count <= limit
            &&& result is Ok ==> after.counters[key].count >= 1
            &&& result matches Err(retry_after) ==> now + retry_after == after.counters[key].expires_at_ms
        }),
{
}

/// Memory does not grow forever: once a purge is due, a check leaves only
/// windows still running at `now`, besides the one it counted in.
pub proof fn lemma_a_purge_keeps_only_running_windows(
    v: LimiterView,
    now: u64,
    scope: RateLimitScope,
    ip: IpAddress,
    limit: u32,
    window: u64,
)
    requires
        elapsed(now, v.last_purge_at_ms) >= PURGE_INTERVAL_MS,
    ensures
        ({
            let (after, _) = check_outcome(v, now, scope, ip, limit, window);
            &&& after.last_purge_at_ms == now
            &&& forall|k| #[trigger] after.counters.contains_key(k) && k != (scope, spec_network_key(ip))
                ==> v.counters.contains_key(k) && after.counters[k] == v.counters[k]
                    && v.counters[k].expires_at_ms > now
        }),
{
}

} // verus!
