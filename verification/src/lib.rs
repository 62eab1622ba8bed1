//! A verified core for a two-player turn-based game server: board engine,
//! game-state transitions, connection registry, fanout envelopes and the
//! per-connection message handler.

pub mod game_state;
pub mod game_logic;
pub mod game_manager;
pub mod connection_registry;
pub mod json;
pub mod game_messages;
pub mod pubsub;
pub mod handler;
pub mod messages;
pub mod room;
pub mod auth;
