//! A duplex socket session kernel: frames, a bounded outbound queue with a
//! backpressure policy, the heartbeat schedule, the sender and receiver pumps,
//! and the supervisor that resolves one outcome per session; the checks a
//! client makes on its target address and the decisions of the listener.
//!
//! Beside it: a small SQLite-backed key/value and user store reached through
//! an explicit handle, and a few string and trait samples.

pub mod frame;
pub mod queue;
pub mod outcome;
pub mod heartbeat;
pub mod sender;
pub mod receiver;
pub mod supervisor;
pub mod config;
pub mod listener;
pub mod target;
pub mod rust_lang;
pub mod sqlite_sample;
pub mod use_sqlite;
