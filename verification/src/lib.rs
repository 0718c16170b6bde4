//! Verified core of the Tavla (backgammon) game server: match sessions,
//! matchmaking decisions, rate limiting, captcha problems and the small
//! validation rules of the authentication endpoints.

pub mod service;
pub mod types;
pub mod utils;
