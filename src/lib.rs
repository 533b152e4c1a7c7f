//! Request handling core of a backup-repository daemon: configuration
//! validation, the repository lifecycle state machine, and the registry that
//! gives each repository identity exactly one session.
pub mod config;
pub mod daemon;
pub mod lifecycle;
pub mod registry;
