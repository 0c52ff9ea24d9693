//! Continuous ICMP reachability probing with pull-based metrics.
//!
//! One prober per target reports the outcome of each echo request through a
//! bounded channel; one collector per target drains that channel on a faster
//! cadence and folds what it finds into counters labelled by target. This
//! crate holds the decisions of both loops and the wiring that pairs them;
//! timers, sockets and task spawning belong to the program that embeds it.
//!
//! - [`address`]: which target names are IP address literals.
//! - [`outcome`]: what a probe reports.
//! - [`channel`]: the bounded queue between the two loops of a target.
//! - [`cadence`]: the collector's polling period, and the proof that it
//!   keeps the queue from filling up.
//! - [`dispatcher`]: the prober of one target.
//! - [`collector`]: the collector of one target.
//! - [`metrics`]: the counters shared by all collectors.
//! - [`sender`]: all targets, wired up and ready to start.
//! - [`error`]: what can go wrong.

pub mod address;
pub mod cadence;
pub mod channel;
pub mod collector;
pub mod dispatcher;
pub mod error;
pub mod metrics;
pub mod outcome;
pub mod sender;

pub use crate::sender::{ping_targets, PingSender, PingTask};
