//! Verified core of the TiyGate desktop client and its SQLite maintenance task.
pub mod maintenance;
pub mod text;
pub mod client_config;
pub mod provider;
pub mod commands;
