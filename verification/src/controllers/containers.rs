//! The container controller's decisions.

use crate::text::{concat2, text_eq};
use std::sync::Arc;
use vstd::prelude::*;
use vstd::string::*;

verus! {

/// Reconciles containers against the platforms they run on.
pub struct ContainerController<S> {
    pub app_state: Arc<S>,
}

/// Status of a container as the controller sees it.
#[derive(Debug, Clone, Copy, PartialEq, Eq, Structural)]
pub enum ContainerStatus {
    Pending,
    Scheduled,
    Creating,
    Running,
    Unreachable,
    Killed,
    Stopping,
    Finished,
    Failed,
}

/// What the controller does with a container.
#[derive(Debug, Clone, Copy, PartialEq, Eq, Structural)]
pub enum ContainerAction {
    Schedule,
    Watch,
    Kill,
    Nothing,
}

/// The names a status is stored under.
pub open spec fn container_status_for(s: Seq<char>) -> Option<ContainerStatus> {
    if s == "Pending"@ {
        Some(ContainerStatus::Pending)
    } else if s == "Scheduled"@ {
        Some(ContainerStatus::Scheduled)
    } else if s == "Creating"@ {
        Some(ContainerStatus::Creating)
    } else if s == "Running"@ {
        Some(ContainerStatus::Running)
    } else if s == "Unreachable"@ {
        Some(ContainerStatus::Unreachable)
    } else if s == "Killed"@ {
        Some(ContainerStatus::Killed)
    } else if s == "Stopping"@ {
        Some(ContainerStatus::Stopping)
    } else if s == "Finished"@ {
        Some(ContainerStatus::Finished)
    } else if s == "Failed"@ {
        Some(ContainerStatus::Failed)
    } else {
        None
    }
}

/// The action for each status: pending and scheduled containers are
/// scheduled, live ones watched, killed ones removed, finished and failed
/// ones left alone.
pub open spec fn spec_action_for(s: ContainerStatus) -> ContainerAction {
    match s {
        ContainerStatus::Pending | ContainerStatus::Scheduled => ContainerAction::Schedule,
        ContainerStatus::Creating
        | ContainerStatus::Running
        | ContainerStatus::Unreachable
        | ContainerStatus::Stopping => ContainerAction::Watch,
        ContainerStatus::Killed => ContainerAction::Kill,
        ContainerStatus::Finished | ContainerStatus::Failed => ContainerAction::Nothing,
    }
}

impl ContainerStatus {
    /// The status stored under this name; only the nine status names are
    /// accepted.
    pub fn from_string(status: &str) -> (r: Self)
        requires
            container_status_for(status@) is Some,
        ensures
            container_status_for(status@) == Some(r),
    {
        if text_eq(status, "Pending") {
            ContainerStatus::Pending
        } else if text_eq(status, "Scheduled") {
            ContainerStatus::Scheduled
        } else if text_eq(status, "Creating") {
            ContainerStatus::Creating
        } else if text_eq(status, "Running") {
            ContainerStatus::Running
        } else if text_eq(status, "Unreachable") {
            ContainerStatus::Unreachable
        } else if text_eq(status, "Killed") {
            ContainerStatus::Killed
        } else if text_eq(status, "Stopping") {
            ContainerStatus::Stopping
        } else if text_eq(status, "Finished") {
            ContainerStatus::Finished
        } else {
            ContainerStatus::Failed
        }
    }
}

/// The parts of a container the controller works with.
#[derive(Debug, Clone)]
pub struct ControllerContainer {
    pub id: String,
    pub status: ContainerStatus,
    pub platform: Option<String>,
}

impl<S> ContainerController<S> {
    /// A controller over this application state.
    pub fn new(app_state: Arc<S>) -> (r: Self)
        ensures
            r.app_state == app_state,
    {
        ContainerController { app_state }
    }

    /// The action for a container in this status.
    pub fn action_for(status: ContainerStatus) -> (r: ContainerAction)
        ensures
            r == spec_action_for(status),
    {
        match status {
            ContainerStatus::Pending | ContainerStatus::Scheduled => ContainerAction::Schedule,
            ContainerStatus::Creating
            | ContainerStatus::Running
            | ContainerStatus::Unreachable
            | ContainerStatus::Stopping => ContainerAction::Watch,
            ContainerStatus::Killed => ContainerAction::Kill,
            ContainerStatus::Finished | ContainerStatus::Failed => ContainerAction::Nothing,
        }
    }

    /// The action taken when a container is handled: containers are taken
    /// to be scheduled, so they are scheduled.
    pub fn handle_action(&self) -> (r: ContainerAction)
        ensures
            r == ContainerAction::Schedule,
    {
        Self::action_for(ContainerStatus::Scheduled)
    }

    /// The platform a container asks for; a container naming none cannot be
    /// scheduled yet.
    pub fn requested_platform(container: &ControllerContainer) -> (r: Result<String, String>)
        ensures
            match r {
                Ok(p) => container.platform == Some(p),
                Err(e) => container.platform is None && e@ == "No platform specified for container "@
                    + container.id@,
            },
    {
        match &container.platform {
            Some(p) => Ok(p.clone()),
            None => Err(concat2("No platform specified for container ", container.id.as_str())),
        }
    }
}

/// Law: read from its stored name, a container waiting to run (`Pending`,
/// `Scheduled`) is scheduled; one being created, running, unreachable or
/// stopping is watched; a `Killed` one is killed; a `Finished` or `Failed`
/// one is left alone.
pub proof fn law_container_actions_by_name(name: Seq<char>)
    requires
        container_status_for(name) is Some,
    ensures
        ({
            let a = spec_action_for(container_status_for(name)->0);
            &&& (a == ContainerAction::Schedule <==> (name == "Pending"@ || name == "Scheduled"@))
            &&& (a == ContainerAction::Watch <==> (name == "Creating"@ || name == "Running"@ || name
                == "Unreachable"@ || name == "Stopping"@))
            &&& (a == ContainerAction::Kill <==> name == "Killed"@)
            &&& (a == ContainerAction::Nothing <==> (name == "Finished"@ || name == "Failed"@))
        }),
{
    reveal_strlit("Pending");
    reveal_strlit("Scheduled");
    reveal_strlit("Creating");
    reveal_strlit("Running");
    reveal_strlit("Unreachable");
    reveal_strlit("Killed");
    reveal_strlit("Stopping");
    reveal_strlit("Finished");
    reveal_strlit("Failed");
    assert("Pending"@[0] == 'P' && "Scheduled"@[0] == 'S' && "Creating"@[0] == 'C' && "Running"@[0]
        == 'R' && "Unreachable"@[0] == 'U' && "Killed"@[0] == 'K' && "Stopping"@[0] == 'S'
        && "Finished"@[0] == 'F' && "Failed"@[0] == 'F');
    assert("Scheduled"@[1] == 'c' && "Stopping"@[1] == 't' && "Finished"@[1] == 'i' && "Failed"@[1]
        == 'a');
}

} // verus!
