//! Mirrors tracks heard on networked media players into a video playlist.
//!
//! The library holds the decisions: the play-history cache, the poller's
//! per-sweep bookkeeping, the playlist session's state machine and the
//! batches of the control surface. Network, disk and timers stay with the
//! caller, which performs the actions that the state machines ask for.

pub mod cache;
mod clock;
pub mod config;
pub mod models;
pub mod sonotube;
pub mod toptastic;
pub mod track;
pub mod tube;
