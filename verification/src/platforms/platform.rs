//! What a platform reports about its capacity to take containers.

use vstd::prelude::*;

verus! {

/// Whether a platform can take containers.
#[derive(Debug, Clone, Copy, PartialEq, Eq, Structural)]
pub enum ContainerPlatformStatus {
    Initializing,
    Ready,
    Unavailable,
    DoNotSchedule,
    Terminating,
}

} // verus!
