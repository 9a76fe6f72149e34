//! Remote control of one cloud-hosted game server.
//!
//! The crate holds the rules that both sides of the control surface share
//! and follow: how a provider's status vocabulary is folded into
//! [`server_state::ServerState`], how a provider reply is read, how a
//! command is dispatched and answered, and how the desktop client decides
//! when to poll again. Every function is verified against its contract.
//! Network calls, the runtime and the window live outside of the crate.

pub mod text;

pub mod server_state;

pub mod config;

pub mod provider;

pub mod error;

pub mod types;

pub mod wire;

pub mod server_status;

pub mod instance_status;

pub mod server_starter;

pub mod server_stopper;

pub mod ec2;

pub mod dispatch;

pub mod server;

pub mod manager;

pub mod client;
