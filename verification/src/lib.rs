//! The engine of a reconnaissance run: a graph of what was discovered, a
//! bus of events, a registry of discovery tasks, and the dispatcher that
//! decides which tasks an event launches and when the run is over.
//!
//! The library takes every decision and waits for nothing: fetching,
//! reading files, threads and waiting are the caller's.
pub mod args;
pub mod bus;
pub mod config;
pub mod database;
pub mod events;
pub mod flags;
pub mod helpers;
pub mod json;
pub mod logger;
pub mod modules;
pub mod session;
pub mod state;
