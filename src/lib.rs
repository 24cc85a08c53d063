//! A session and incremental-sync engine for a federated chat client, with the
//! small list, preference and command-line helpers that sit around it.
//!
//! - `config`: a key/value store with a reserved-key policy and a journal of
//!   changes to make durable.
//! - `session`: login, room and filter resolution, and the single-listener
//!   long-poll loop, as steps that say what to ask the server next.
//! - `vault`: the vault's display list: sorting, filtering and navigation.
//! - `prefs`: user preference values and the stored form of time offsets.
//! - `args`: crate specs and option values of the build tool's command line.

pub mod args;
pub mod config;
pub mod prefs;
pub mod session;
pub mod vault;
