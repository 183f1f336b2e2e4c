//! The platform model of version 1.

use vstd::prelude::*;

verus! {

/// A container platform as stored (version 1 records no fields yet).
#[derive(Debug, Clone, Copy, PartialEq, Eq, Structural)]
pub struct V1ContainerPlatform {}

/// Version 1 of the platform model.
#[derive(Debug, Clone, Copy)]
pub struct V1;

} // verus!
