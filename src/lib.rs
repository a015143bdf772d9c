//! The hot-reload substrate of a notebook host.
//!
//! A project is built as a shared object whose cells the host lists and runs;
//! the host rebuilds and remaps it while running, and keeps the values that
//! cells store across those reloads as tagged bytes.
//!
//! - `store`, `tags`, `context`: the data store, the type tags of its values,
//!   and the checked access that cells have to it.
//! - `loader`: what the host records of a mapped module: its cells in
//!   declaration order, and a fresh path for each reload.
//! - `coordinator`: when to start, cancel, join and reload, so that no code
//!   runs after its module is replaced.
//! - `settings`, `app_state`, `watch`, `manifest`, `config`: the host's
//!   settings, interface state, change detection and project files.
use vstd::prelude::*;

pub mod app_state;
pub mod config;
pub mod context;
pub mod coordinator;
pub mod errors;
pub mod host_error;
pub mod loader;
pub mod manifest;
pub mod settings;
pub mod store;
pub mod tags;
pub mod testing;
pub mod text;
pub mod watch;

verus! {

} // verus!
