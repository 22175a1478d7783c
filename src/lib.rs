//! Manages installed runtime versions under `~/.jman`: which are installed,
//! which one the active pointer designates, and the shell environment that
//! exposes it. Each operation is decided here as a plan of filesystem steps
//! over a model of what is on disk; carrying the steps out is left to the
//! caller.

pub mod api;
pub mod env;
pub mod label;
pub mod laws;
pub mod layout;
pub mod models;
pub mod paths;
pub mod registry;
pub mod store;
pub mod text;
