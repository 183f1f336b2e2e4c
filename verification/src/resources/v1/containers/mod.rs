//! Container platforms of version 1.

pub mod ec2;
pub mod factory;
pub mod kube;
pub mod models;
pub mod nebius;
pub mod platforms;
