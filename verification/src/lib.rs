//! Core of a filesystem-activity monitor: raw change records from an OS
//! watch facility are normalized into typed events, carried across a thread
//! boundary by an unbounded channel, and kept in a bounded, newest-first log
//! that a presentation loop drains once per tick.

pub mod channel;
pub mod event;
pub mod log;
pub mod monitor;
pub mod watch;
