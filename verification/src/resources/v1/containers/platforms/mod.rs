//! Platforms built on the Docker platform.

pub mod gce;
pub mod nebulous;
