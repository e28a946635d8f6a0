//! Decision logic of a supervisor for a long-running node daemon.
//!
//! The supervisor launches the daemon, watches its diagnostic stream for signs
//! of life, tears the process tree down when the daemon stalls or reports a
//! storage lock, and restarts it after a delay. This crate holds every decision
//! of that loop as verified functions on plain values; spawning, reading,
//! killing and sleeping are left to the program that drives them.
//!
//! - [`classifier`] turns one line of the stream into a [`classifier::Signal`].
//! - [`tracker`] counts how long the daemon has made no progress.
//! - [`run`] is one supervised run: from events to the next thing to do.
//! - [`teardown`] picks the processes that the end of a run kills, and bounds
//!   the wait for the daemon to be gone.
//! - [`supervisor`] is the loop around the runs, with its countdown.
//! - [`status`] names the ways in which a run can end.
//! - [`text`] holds the text search and number reading the classifier needs.
//! - [`pattern`] is the boundary to the regular-expression engine.

pub mod classifier;
pub mod pattern;
pub mod run;
pub mod status;
pub mod supervisor;
pub mod teardown;
pub mod text;
pub mod tracker;
