//! Version 1 of the resource models.

pub mod containers;
pub mod platforms;
pub mod processors;
pub mod volumes;
