//! Per-process mouse-sensitivity scaling, split into a verified core.
//!
//! A long-lived background instance watches which process owns input focus
//! and whether the pointer cursor is hidden, resolves a configuration rule
//! for that process, and drives a sensitivity value to an acceleration
//! driver. Short-lived command invocations coordinate with the background
//! instance over a per-thread mailbox protocol and a small persisted
//! session record.
//!
//! This crate holds the decision logic of that system: the rule engine, the
//! control-message codec, and the instance coordinator's state transitions.
//! Everything here works on plain values; the platform layer performs the
//! actual message posting, file handling and driver writes and feeds the
//! results back in.

pub mod cli;
pub mod config;
pub mod engine;
pub mod msg;
pub mod session;
pub mod settings;
pub mod thread_id;
pub mod util;
