//! Resource models and their platforms.

pub mod containers;
pub mod v1;
