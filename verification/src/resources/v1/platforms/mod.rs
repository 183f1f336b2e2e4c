//! Platform models of version 1.

pub mod models;
