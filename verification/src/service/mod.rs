pub mod access_control;
pub mod authentication;
pub mod captcha;
pub mod entity_service;
pub mod game;
