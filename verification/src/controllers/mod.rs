//! Reconciliation controllers: how each status of a container or platform
//! is handled.

pub mod containers;
pub mod platforms;
