//! Coverage-guided fuzzing of a full-system simulator.
//!
//! A worker drives one simulator through a session of trials: it sends an
//! input, learns how the run ended, reads the coverage that the run left,
//! and lets that steer which input comes next. This crate holds the
//! decisions of such a worker, each with a contract that Verus proves; it
//! never waits, sends or writes by itself.
//!
//! - [`messages`], [`fault`]: what is exchanged with the target.
//! - [`trial`]: the state machine of a session, and the order of its steps.
//! - [`verdict`]: how the end of a run is read.
//! - [`coverage`]: the coverage map and what the search has seen of it.
//! - [`store`], [`schedule`], [`engine`]: the corpora and the search.
//! - [`worker`]: a session and an engine joined into one worker.
//! - [`broker`], [`config`]: what is decided over all workers of a launch.
//! - [`os`]: what is read of a Windows guest from the target's memory.

pub mod broker;
pub mod config;
pub mod coverage;
pub mod engine;
pub mod fault;
pub mod messages;
pub mod os;
pub mod schedule;
pub mod store;
pub mod trial;
pub mod verdict;
pub mod worker;
