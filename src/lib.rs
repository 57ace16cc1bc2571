//! Provisioning of per-account Git workspaces: each account gets its own SSH
//! key path, SSH host alias, working directory and identity lookup entry.
pub mod config;
pub mod error;
pub mod lookup;
pub mod probe;
pub mod resources;
pub mod script;
pub mod ssh_config;
pub mod workflow;
