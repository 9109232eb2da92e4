//! Coordination logic for a documentation server that rebuilds its
//! documentation tree when watched sources change.

pub mod builder;
pub mod config;
pub mod coordinator;
pub mod paths;
pub mod runs;
pub mod server;
pub mod text;
pub mod watcher;
