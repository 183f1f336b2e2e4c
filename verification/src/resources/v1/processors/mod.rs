//! Processors.

pub mod base;
