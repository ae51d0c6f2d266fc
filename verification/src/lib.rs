//! Core of a local live-preview server for generated document trees.
//!
//! The library holds the logic that is worth stating exactly: mapping URL
//! tails to files under a session's output root, sizing and truncating the
//! chunks of a streamed response, coalescing and filtering filesystem change
//! events, the per-session reload broadcast, and the registry of open
//! sessions. The surrounding transport (HTTP routes, sockets, file handles,
//! watch threads) hands these functions plain values and acts on what they
//! decide.

pub mod bus;
pub mod config;
pub mod debounce;
pub mod ignore;
pub mod path_guard;
pub mod registry;
pub mod route;
pub mod session;
pub mod static_server;

use vstd::prelude::*;

verus! {

/// A single reload notification. It carries no detail: receiving it twice
/// has the same effect as receiving it once.
pub const RELOAD_TOKEN: &'static str = "reload";

} // verus!
