//! Core of a filesystem-change automation daemon.
//!
//! Each configured entry names a directory or file to watch, a coalescing
//! delay, a list of exclude patterns and an ordered list of shell commands.
//! This crate holds the verified kernel of the daemon: the configuration
//! model and its validation, the exclude filter, the per-entry watcher and
//! handler state machines, the command-run sequencing and the signal
//! dispatch that drives reload and shutdown. The surrounding process (thread
//! spawning, filesystem subscriptions, process execution, logging) drives
//! these state machines and performs the effects they request.

pub mod cli;
pub mod config;
pub mod handler;
pub mod pattern;
pub mod runner;
pub mod signal;
pub mod watcher;
