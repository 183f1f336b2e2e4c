//! Verified core of the Nebulous container orchestrator: server configuration,
//! VPN settings, status classifications, platform decisions and the text
//! handling they rely on.

pub mod clock;
pub mod config;
pub mod find;
pub mod models;
pub mod text;
pub mod resources;
pub mod vpn;
pub mod platforms;
pub mod controllers;
pub mod conversion;
pub mod client;
pub mod commands;
pub mod handlers;
