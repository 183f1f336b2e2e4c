//! Decisions of the command-line commands.

pub mod exec;
pub mod headscale;
pub mod login;
