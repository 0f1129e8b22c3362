//! Profile-scoped dotfile management: profiles and their configuration,
//! the tracked-file engine that binds home paths to a profile's store, and
//! the synchronisation protocol against a remote history.

pub mod cli;
pub mod config;
pub mod engine;
pub mod hint;
pub mod profile;
pub mod sync;
