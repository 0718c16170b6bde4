pub mod ai_player;
pub mod db_writer;
pub mod expired_turn;
pub mod live_state;
pub mod live_store;
pub mod matches;
pub mod matchmaking_queue;
pub mod outbox;
pub mod player;
pub mod session;
pub mod sessions;
pub mod ws_protocol;
