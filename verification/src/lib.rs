//! Presence monitor core: the miss-tracking state machine that turns a
//! sequence of reachability-probe outcomes into store mutations for one
//! tracked key, with a time-bounded counter and threshold-triggered cleanup.

pub mod config;
pub mod laws;
pub mod tracker;
