//! Sharing local terminal sessions with a remote browser through a relay.
//!
//! The relay side mints session codes, pairs an agent with browsers and
//! routes frames between them; the agent side attaches multiplexer sessions,
//! frames their output and follows the relay link's reconnect schedule.
pub mod text;
pub mod code;
pub mod frame;
pub mod protocol;
pub mod broker;
pub mod relay;
pub mod agent;
pub mod tunnel;
pub mod tmux;
pub mod listing;
pub mod ui;
pub mod ipc;
pub mod router;
