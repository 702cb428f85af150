//! Supervision and command-dispatch core of a display-control agent.
//!
//! The agent keeps one control channel open to a remote coordinator, turns
//! its commands into display power changes and reports the device's status
//! back. This library holds the decisions, each with a verified contract:
//!
//! - `message_handler`: the router, a state machine from events to actions;
//! - `connection_details`: reconnection backoff;
//! - `watchdog`: the idle timer of a live session;
//! - `json`, `incoming`, `outgoing`: the wire envelope codec;
//! - `app_env`, `cron`, `sysinfo`, `systemd`, `connect`, `text`: settings,
//!   the daily schedule, status snapshots, service installation and helpers.
//!
//! Sockets, timers, files and processes are driven by the embedding program,
//! which performs the actions the router returns and feeds it events.

pub mod app_env;
pub mod app_error;
pub mod connect;
pub mod connection_details;
pub mod cron;
pub mod incoming;
pub mod json;
pub mod message_handler;
pub mod outgoing;
pub mod sysinfo;
pub mod systemd;
pub mod text;
pub mod watchdog;
