use tavla_api::service::access_control::ip_rate_limiter::{
    network_key, IpAddress, LimiterState, RateLimitScope, PURGE_INTERVAL_MS,
};
use tavla_api::service::access_control::rate_limiter::{RateLimiter, PURGE_THRESHOLD};
use tavla_api::service::access_control::sliding_window_limiter::SlidingWindowLimiter;
use tavla_api::service::access_control::throttle_cache::{enforce, ThrottleCache};

const WINDOW_MS: u64 = 60_000;
const HOUR_MS: u64 = 3_600_000;
const START_MS: u64 = 1_000_000;

fn ipv4(last_octet: u8) -> IpAddress {
    IpAddress::V4(u32::from_be_bytes([203, 0, 113, last_octet]))
}

fn ipv6(groups: [u16; 8]) -> IpAddress {
    IpAddress::V6(groups.iter().fold(0u128, |bits, group| (bits << 16) | *group as u128))
}

fn minutes(count: u64) -> u64 {
    count * 60_000
}

#[test]
fn allows_up_to_the_limit_and_then_reports_the_remaining_window() {
    let mut limiter = LimiterState::new(START_MS);
    for _ in 0..3 {
        assert!(limiter.check_at(START_MS, RateLimitScope::AuthRequests, ipv4(1), 3, WINDOW_MS).is_ok());
    }
    let later = START_MS + 20_000;
    let retry_after = limiter
        .check_at(later, RateLimitScope::AuthRequests, ipv4(1), 3, WINDOW_MS)
        .expect_err("fourth request must be denied");
    assert_eq!(retry_after, 40_000);
}

#[test]
fn window_expiry_resets_the_budget() {
    let mut limiter = LimiterState::new(START_MS);
    assert!(limiter.check_at(START_MS, RateLimitScope::AuthRequests, ipv4(1), 1, WINDOW_MS).is_ok());
    assert!(limiter.check_at(START_MS, RateLimitScope::AuthRequests, ipv4(1), 1, WINDOW_MS).is_err());
    assert!(limiter
        .check_at(START_MS + WINDOW_MS, RateLimitScope::AuthRequests, ipv4(1), 1, WINDOW_MS)
        .is_ok());
}

#[test]
fn clients_and_scopes_have_separate_budgets() {
    let mut limiter = LimiterState::new(START_MS);
    assert!(limiter.check_at(START_MS, RateLimitScope::AuthRequests, ipv4(1), 1, WINDOW_MS).is_ok());
    assert!(limiter.check_at(START_MS, RateLimitScope::AuthRequests, ipv4(2), 1, WINDOW_MS).is_ok());
    assert!(limiter.check_at(START_MS, RateLimitScope::GuestCreation, ipv4(1), 1, WINDOW_MS).is_ok());
    assert!(limiter.check_at(START_MS, RateLimitScope::AuthRequests, ipv4(1), 1, WINDOW_MS).is_err());
}

#[test]
fn ipv6_addresses_in_the_same_slash_64_share_one_budget() {
    let mut limiter = LimiterState::new(START_MS);
    assert!(limiter
        .check_at(START_MS, RateLimitScope::GuestCreation, ipv6([0x2001, 0xdb8, 1, 2, 0, 0, 0, 1]), 1, WINDOW_MS)
        .is_ok());
    assert!(limiter
        .check_at(START_MS, RateLimitScope::GuestCreation, ipv6([0x2001, 0xdb8, 1, 2, 0xffff, 0, 0, 9]), 1, WINDOW_MS)
        .is_err());
    assert!(limiter
        .check_at(START_MS, RateLimitScope::GuestCreation, ipv6([0x2001, 0xdb8, 1, 3, 0, 0, 0, 1]), 1, WINDOW_MS)
        .is_ok());
}

#[test]
fn ipv4_mapped_ipv6_shares_the_budget_with_plain_ipv4() {
    let mut limiter = LimiterState::new(START_MS);
    assert!(limiter.check_at(START_MS, RateLimitScope::AuthRequests, ipv4(7), 1, WINDOW_MS).is_ok());
    assert!(limiter
        .check_at(START_MS, RateLimitScope::AuthRequests, ipv6([0, 0, 0, 0, 0, 0xffff, 0xcb00, 0x7107]), 1, WINDOW_MS)
        .is_err());
}

#[test]
fn expired_windows_are_purged_so_memory_does_not_grow_forever() {
    let mut limiter = LimiterState::new(START_MS);
    for last_octet in 0..=200u8 {
        let _ = limiter.check_at(START_MS, RateLimitScope::AuthRequests, ipv4(last_octet), 5, WINDOW_MS);
    }
    assert_eq!(limiter.tracked_clients(), 201);

    let much_later = START_MS + WINDOW_MS + PURGE_INTERVAL_MS;
    let _ = limiter.check_at(much_later, RateLimitScope::AuthRequests, ipv4(1), 5, WINDOW_MS);
    assert_eq!(limiter.tracked_clients(), 1);
}

#[test]
fn a_mapped_address_becomes_its_ipv4_address_and_ipv6_keeps_its_network() {
    assert_eq!(network_key(ipv6([0, 0, 0, 0, 0, 0xffff, 0xcb00, 0x7107])), ipv4(7));
    assert_eq!(network_key(ipv6([0x2001, 0xdb8, 1, 2, 3, 4, 5, 6])), ipv6([0x2001, 0xdb8, 1, 2, 0, 0, 0, 0]));
    assert_eq!(network_key(ipv4(9)), ipv4(9));
}

#[test]
fn stale_windows_are_dropped_once_the_map_grows_past_the_threshold() {
    let mut limiter = RateLimiter::new();
    for user_id in 0..(PURGE_THRESHOLD as u64 + 5) {
        limiter.set_window(user_id, 0, 1);
    }
    assert!(limiter.allow(1, 10));
    assert_eq!(limiter.tracked_users(), 1);
}

#[test]
fn enforces_the_per_second_budget() {
    let mut limiter = RateLimiter::new();
    assert!(limiter.allow_at(100, 7, 2));
    assert!(limiter.allow_at(100, 7, 2));
    assert!(!limiter.allow_at(100, 7, 2));
}

#[test]
fn a_new_second_gives_a_new_budget() {
    let mut limiter = RateLimiter::new();
    assert!(limiter.allow_at(100, 7, 1));
    assert!(!limiter.allow_at(100, 7, 1));
    assert!(limiter.allow_at(101, 7, 1));
    assert!(limiter.allow_at(101, 8, 1));
}

#[test]
fn allows_up_to_the_limit_then_reports_when_the_oldest_slot_frees_up() {
    let mut limiter = SlidingWindowLimiter::new();
    assert!(limiter.check_at(START_MS, 2, HOUR_MS).is_ok());
    assert!(limiter.check_at(START_MS + minutes(10), 2, HOUR_MS).is_ok());
    let retry_after = limiter
        .check_at(START_MS + minutes(20), 2, HOUR_MS)
        .expect_err("third event inside the hour must be denied");
    assert_eq!(retry_after, minutes(40));
}

#[test]
fn the_window_slides_instead_of_resetting_all_at_once() {
    let mut limiter = SlidingWindowLimiter::new();
    assert!(limiter.check_at(START_MS, 2, HOUR_MS).is_ok());
    assert!(limiter.check_at(START_MS + minutes(30), 2, HOUR_MS).is_ok());
    assert_eq!(limiter.check_at(START_MS + minutes(45), 2, HOUR_MS), Err(minutes(15)));
    assert!(limiter.check_at(START_MS + minutes(61), 2, HOUR_MS).is_ok());
    assert_eq!(limiter.check_at(START_MS + minutes(62), 2, HOUR_MS), Err(minutes(28)));
}

#[test]
fn denied_attempts_are_not_recorded_and_do_not_extend_the_block() {
    let mut limiter = SlidingWindowLimiter::new();
    assert!(limiter.check_at(START_MS, 1, HOUR_MS).is_ok());
    for second in 1..=50u64 {
        assert!(limiter.check_at(START_MS + second * 1000, 1, HOUR_MS).is_err());
    }
    assert_eq!(limiter.recorded_events(), 1);
    assert!(limiter.check_at(START_MS + HOUR_MS, 1, HOUR_MS).is_ok());
}

#[test]
fn a_limit_of_zero_blocks_everything_for_the_whole_window() {
    let mut limiter = SlidingWindowLimiter::new();
    assert_eq!(limiter.check_at(START_MS, 0, HOUR_MS), Err(HOUR_MS));
    assert_eq!(limiter.recorded_events(), 0);
}

#[test]
fn expired_events_are_dropped_so_memory_stays_bounded_by_the_limit() {
    let mut limiter = SlidingWindowLimiter::new();
    for second in 0..100u64 {
        assert!(limiter.check_at(START_MS + second * 1000, 100, HOUR_MS).is_ok());
    }
    assert_eq!(limiter.recorded_events(), 100);
    assert!(limiter.check_at(START_MS + HOUR_MS + minutes(5), 100, HOUR_MS).is_ok());
    assert_eq!(limiter.recorded_events(), 1);
}

#[test]
fn the_last_loaded_limit_of_a_user_wins_and_others_use_the_default() {
    let mut cache = ThrottleCache::from_rows(&vec![(1, 10), (2, 20), (1, 30)]);
    assert_eq!(cache.limit_for(1), Some(30));
    assert_eq!(cache.limit_for(2), Some(20));
    assert_eq!(cache.limit_for(3), None);

    cache.upsert(3, 1);
    assert_eq!(cache.limit_for(3), Some(1));
    cache.remove(1);
    assert_eq!(cache.limit_for(1), None);
}

#[test]
fn enforce_uses_the_configured_limit_before_the_default() {
    let cache = ThrottleCache::from_rows(&vec![(5, 0)]);
    let mut limiter = RateLimiter::new();
    assert!(!enforce(&cache, &mut limiter, 5, 100));
    assert!(enforce(&cache, &mut limiter, 6, 100));
    assert!(!enforce(&cache, &mut limiter, 7, 0));
}
