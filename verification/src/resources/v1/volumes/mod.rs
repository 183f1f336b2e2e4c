//! Volumes.

pub mod models;
