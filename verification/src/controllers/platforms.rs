//! The platform controller's decisions.

use crate::resources::v1::platforms::models::V1ContainerPlatform;
use std::sync::Arc;
use vstd::prelude::*;

verus! {

/// Reconciles the container platforms.
pub struct ContainerPlatformController<S> {
    pub app_state: Arc<S>,
}

/// Lifecycle status of a platform.
#[derive(Debug, Clone, Copy, PartialEq, Eq, Structural)]
pub enum ContainerPlatformStatus {
    Started,
    Initializing,
    Available,
    Unavailable,
    Stopped,
    Terminating,
    Terminated,
}

/// What the controller does with a platform.
#[derive(Debug, Clone, Copy, PartialEq, Eq, Structural)]
pub enum PlatformAction {
    Initialize,
    Watch,
    Terminate,
    Nothing,
}

/// The action for each status: started platforms are initialised, live ones
/// watched, stopped ones terminated, terminated ones left alone.
pub open spec fn spec_platform_action(s: ContainerPlatformStatus) -> PlatformAction {
    match s {
        ContainerPlatformStatus::Started => PlatformAction::Initialize,
        ContainerPlatformStatus::Initializing
        | ContainerPlatformStatus::Available
        | ContainerPlatformStatus::Unavailable
        | ContainerPlatformStatus::Terminating => PlatformAction::Watch,
        ContainerPlatformStatus::Stopped => PlatformAction::Terminate,
        ContainerPlatformStatus::Terminated => PlatformAction::Nothing,
    }
}

/// The status of a stored platform: version 1 platforms are available.
pub fn platform_status(platform: &V1ContainerPlatform) -> (r: ContainerPlatformStatus)
    ensures
        r == ContainerPlatformStatus::Available,
{
    ContainerPlatformStatus::Available
}

impl<S> ContainerPlatformController<S> {
    /// A controller over this application state.
    pub fn new(app_state: Arc<S>) -> (r: Self)
        ensures
            r.app_state == app_state,
    {
        ContainerPlatformController { app_state }
    }

    /// The action for a platform in this status.
    pub fn action_for(status: ContainerPlatformStatus) -> (r: PlatformAction)
        ensures
            r == spec_platform_action(status),
    {
        match status {
            ContainerPlatformStatus::Started => PlatformAction::Initialize,
            ContainerPlatformStatus::Initializing
            | ContainerPlatformStatus::Available
            | ContainerPlatformStatus::Unavailable
            | ContainerPlatformStatus::Terminating => PlatformAction::Watch,
            ContainerPlatformStatus::Stopped => PlatformAction::Terminate,
            ContainerPlatformStatus::Terminated => PlatformAction::Nothing,
        }
    }

    /// The action taken when a stored platform is handled.
    pub fn handle_action(&self, platform: &V1ContainerPlatform) -> (r: PlatformAction)
        ensures
            r == PlatformAction::Watch,
    {
        Self::action_for(platform_status(platform))
    }
}

/// Law: a started platform is initialised, a stopped one terminated, a
/// terminated one left alone, and every other one watched.
pub proof fn law_platform_actions(s: ContainerPlatformStatus)
    ensures
        (spec_platform_action(s) == PlatformAction::Initialize) <==> s == ContainerPlatformStatus::Started,
        (spec_platform_action(s) == PlatformAction::Terminate) <==> s == ContainerPlatformStatus::Stopped,
        (spec_platform_action(s) == PlatformAction::Nothing) <==> s == ContainerPlatformStatus::Terminated,
        (spec_platform_action(s) == PlatformAction::Watch) <==> !(s == ContainerPlatformStatus::Started
            || s == ContainerPlatformStatus::Stopped || s == ContainerPlatformStatus::Terminated),
{
}

} // verus!
