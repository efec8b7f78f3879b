//! Control plane of a daemon that runs one RPC proxy listener per network
//! environment ("workdir"): the events it consumes, the registry of listeners it
//! maintains, and the decisions that turn a configuration change into a registry
//! update and, for a new listener, a proxy server to start.

pub mod config;
pub mod controller;
pub mod laws;
pub mod message;
pub mod registry;
pub mod text;
pub mod workdirs;
