//! Containers run on Nebius virtual machines: the setup script of a node,
//! the `docker run` command deployed to it, and how the watcher reacts to
//! each poll of the creation operation.

use super::ec2::{env_flags, env_flags_text};
use crate::text::{concat2, concat3, pairs};
use vstd::prelude::*;
use vstd::string::*;

verus! {

/// Setup script of a node, before the Tailscale auth key.
pub const NEBIUS_USER_DATA_HEAD: &'static str = "#!/bin/bash\n        apt-get update\n        apt-get install -y docker.io curl\n        \n        curl -fsSL https://tailscale.com/install.sh | sh\n        \n        tailscaled --tun=userspace-networking &\n        \n        tailscale up --auth-key=";

/// Setup script of a node, between the auth key and the host name.
pub const NEBIUS_USER_DATA_MIDDLE: &'static str = " --hostname=";

/// Setup script of a node, after the host name.
pub const NEBIUS_USER_DATA_TAIL: &'static str = " --ssh --advertise-tags=tag:node\n        ";

/// The setup script of a node joining the tailnet with this key and name.
pub open spec fn nebius_user_data(ts_auth_key: Seq<char>, hostname: Seq<char>) -> Seq<char> {
    NEBIUS_USER_DATA_HEAD@ + ts_auth_key + NEBIUS_USER_DATA_MIDDLE@ + hostname + NEBIUS_USER_DATA_TAIL@
}

/// The setup script of a node (Debian or Ubuntu image): installs Docker and
/// Tailscale, then joins the tailnet with the auth key under the host name.
pub fn build_node_user_data(ts_auth_key: &str, hostname: &str) -> (r: String)
    ensures
        r@ == nebius_user_data(ts_auth_key@, hostname@),
{
    let mut r = String::from_str(NEBIUS_USER_DATA_HEAD);
    r.append(ts_auth_key);
    r.append(NEBIUS_USER_DATA_MIDDLE);
    r.append(hostname);
    r.append(NEBIUS_USER_DATA_TAIL);
    r
}

/// The command run on the node: `docker run -d --name <id> <env flags>
/// --restart unless-stopped <image> <command>`.
pub open spec fn nebius_docker_run(
    id: Seq<char>,
    env: Seq<(Seq<char>, Seq<char>)>,
    image: Seq<char>,
    command: Seq<char>,
) -> Seq<char> {
    "docker run -d --name "@ + id + " "@ + env_flags_text(env) + " --restart unless-stopped "@
        + image + " "@ + command
}

/// The `docker run` command deploying a container to its node.
pub fn docker_run_command(
    id: &str,
    env: &Vec<(String, String)>,
    image: &str,
    command: &Option<String>,
) -> (r: String)
    ensures
        r@ == nebius_docker_run(
            id@,
            pairs(env@),
            image@,
            match command {
                Some(c) => c@,
                None => Seq::<char>::empty(),
            },
        ),
{
    let flags = env_flags(env);
    let mut r = concat2("docker run -d --name ", id);
    r.append(" ");
    r.append(flags.as_str());
    r.append(" --restart unless-stopped ");
    r.append(image);
    r.append(" ");
    match command {
        Some(c) => r.append(c.as_str()),
        None => {},
    }
    proof {
        assert(r@ =~= nebius_docker_run(
            id@,
            pairs(env@),
            image@,
            match command {
                Some(c) => c@,
                None => Seq::<char>::empty(),
            },
        ));
    }
    r
}

/// The creation operation a container waits for, recorded as its resource
/// name; a container without one cannot be watched.
pub fn operation_id(resource_name: &Option<String>) -> (r: Result<String, String>)
    ensures
        match r {
            Ok(id) => *resource_name == Some(id),
            Err(e) => resource_name is None && e@ == "Container is missing operation ID to watch"@,
        },
{
    match resource_name {
        Some(id) => Ok(id.clone()),
        None => Err(String::from_str("Container is missing operation ID to watch")),
    }
}

/// Where the state of an operation is polled.
pub fn operation_url(operation_id: &str) -> (r: String)
    ensures
        r@ == "https://operation.api.nebius.com/v1/operations/"@ + operation_id@,
{
    concat2("https://operation.api.nebius.com/v1/operations/", operation_id)
}

/// Outcome of one poll of the creation operation.
#[derive(Debug, Clone)]
pub enum NebiusPoll {
    /// The poll was answered with an error status.
    RequestFailed,
    /// The operation as reported; `error` is the rendered error when the
    /// operation failed.
    Operation { done: bool, error: Option<String> },
}

/// What the watcher does after a poll.
#[derive(Debug, Clone)]
pub enum NebiusWatchAction {
    /// Poll again later.
    Continue,
    /// Record the container as failed with `status_message`, and stop with
    /// the error `error`.
    Fail { status_message: String, error: String },
    /// The machine is up: deploy the container, record it as running, stop.
    Deploy,
}

/// The watcher's reaction to a poll: keep polling until the operation is
/// done, then fail with its error or deploy the container.
pub fn nebius_watch_step(poll: NebiusPoll) -> (r: NebiusWatchAction)
    ensures
        match poll {
            NebiusPoll::RequestFailed => r is Continue,
            NebiusPoll::Operation { done, error } => if !done {
                r is Continue
            } else {
                match error {
                    Some(e) => r matches NebiusWatchAction::Fail { status_message, error }
                        && status_message@ == e@ && error@ == "Nebius VM creation failed: "@ + e@,
                    None => r is Deploy,
                }
            },
        },
{
    match poll {
        NebiusPoll::RequestFailed => NebiusWatchAction::Continue,
        NebiusPoll::Operation { done, error } => if !done {
            NebiusWatchAction::Continue
        } else {
            match error {
                Some(e) => {
                    let msg = concat2("Nebius VM creation failed: ", e.as_str());
                    NebiusWatchAction::Fail { status_message: e, error: msg }
                },
                None => NebiusWatchAction::Deploy,
            }
        },
    }
}

/// The container deleted is looked up first; an unknown id is refused.
pub fn container_to_delete<T>(found: Option<T>, id: &str) -> (r: Result<T, String>)
    ensures
        match r {
            Ok(c) => found == Some(c),
            Err(e) => found is None && e@ == "Container "@ + id@ + " not found"@,
        },
{
    match found {
        Some(c) => Ok(c),
        None => Err(concat3("Container ", id, " not found")),
    }
}

/// How a Nebius virtual machine for a container is requested.
#[derive(Debug, Clone)]
pub struct NebiusCreatePlan {
    pub folder_id: String,
    /// The machine's name: the container's VPN host name.
    pub name: String,
    /// Memory in bytes.
    pub memory: i64,
    pub cores: i64,
    pub zone_id: String,
    pub platform_id: String,
    pub boot_disk_auto_delete: bool,
    pub image_id: String,
    /// Boot disk size in bytes.
    pub disk_size: i64,
    pub subnet_id: String,
    /// Machine metadata: the node setup script under `user-data`.
    pub metadata: Vec<(String, String)>,
    /// The status the container is given while the machine is provisioned,
    /// and its message.
    pub status: String,
    pub status_message: String,
}

/// The request for a Nebius machine named after the container's host name:
/// 4 GiB of memory, 2 cores, zone `ru-central1-a`, platform `standard-v3`,
/// a 20 GiB boot disk (deleted with the machine) from image
/// `fd8v95d8o2285pif4go1`, the subnet, and the node setup script as
/// `user-data`; meanwhile the container is `creating`, with the message
/// `Provisioning VM on Nebius`.
pub fn plan_instance_create(hostname: &str, ts_auth_key: &str, folder_id: &str, subnet_id: &str) -> (r:
    NebiusCreatePlan)
    ensures
        r.folder_id@ == folder_id@,
        r.name@ == hostname@,
        r.memory == 4 * 1024 * 1024 * 1024,
        r.cores == 2,
        r.zone_id@ == "ru-central1-a"@,
        r.platform_id@ == "standard-v3"@,
        r.boot_disk_auto_delete,
        r.image_id@ == "fd8v95d8o2285pif4go1"@,
        r.disk_size == 20 * 1024 * 1024 * 1024,
        r.subnet_id@ == subnet_id@,
        pairs(r.metadata@) == seq![("user-data"@, nebius_user_data(ts_auth_key@, hostname@))],
        r.status@ == "creating"@,
        r.status_message@ == "Provisioning VM on Nebius"@,
{
    let user_data = build_node_user_data(ts_auth_key, hostname);
    let metadata = vec![(String::from_str("user-data"), user_data)];
    proof {
        assert(pairs(metadata@) =~= seq![("user-data"@, nebius_user_data(ts_auth_key@, hostname@))]);
    }
    NebiusCreatePlan {
        folder_id: String::from_str(folder_id),
        name: String::from_str(hostname),
        memory: 4 * 1024 * 1024 * 1024,
        cores: 2,
        zone_id: String::from_str("ru-central1-a"),
        platform_id: String::from_str("standard-v3"),
        boot_disk_auto_delete: true,
        image_id: String::from_str("fd8v95d8o2285pif4go1"),
        disk_size: 20 * 1024 * 1024 * 1024,
        subnet_id: String::from_str(subnet_id),
        metadata,
        status: String::from_str("creating"),
        status_message: String::from_str("Provisioning VM on Nebius"),
    }
}

/// Value of the `authorization` header of a Nebius request: `Bearer <token>`.
pub fn authorization_value(token: &str) -> (r: String)
    ensures
        r@ == "Bearer "@ + token@,
{
    concat2("Bearer ", token)
}

} // verus!
