//! The family of types a container model version consists of.

use vstd::prelude::*;

verus! {

/// The types one version of the container model is made of.
pub trait ContainerModelVersion {
    type Container;
    type ContainerMetaRequest;
    type ContainerHealthCheck;
    type ContainerStatus;
    type EnvVar;
    type ErrorResponse;
    type ContainerResource;
    type Port;
    type PortRequest;
    type SSHKey;
    type UpdateContainer;
    type ContainerSearch;
}

} // verus!
