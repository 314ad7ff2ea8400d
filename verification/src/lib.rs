//! A minimal process supervisor, as a verified decision core.
//!
//! The supervisor launches a command, keeps it alive, and restarts or stops
//! it when another process writes or deletes a control file. This crate holds
//! what is decided along the way and performs no I/O itself:
//!
//! - [`watch`] classifies what the file watcher delivers and folds the
//!   deliveries of one poll cycle into the signals of that cycle;
//! - [`supervisor`] is the state machine that turns those signals, and the
//!   outcome of every action it asks for, into the next action;
//! - [`trace`] states what holds of whole runs of that machine;
//! - [`control`] names the control file.

pub mod control;
pub mod supervisor;
pub mod trace;
pub mod watch;
