//! Container platforms driven through a shell or an HTTP endpoint.

pub mod docker;
pub mod factory;
pub mod http;
pub mod local;
pub mod platform;
pub mod ssh;
