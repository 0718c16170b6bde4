pub mod sliding_window_limiter;
pub mod rate_limiter;
pub mod ip_rate_limiter;
pub mod throttle_cache;
