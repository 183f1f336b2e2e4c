//! Containers run with the `docker` command line over a shell connection.

use super::platform::ContainerPlatformStatus;
use crate::text::{concat2, concat3};
use vstd::prelude::*;
use vstd::string::*;

verus! {

/// A Docker host reached through a shell connection.
#[derive(Debug, Clone)]
pub struct DockerPlatform<C> {
    pub connection: C,
}

/// What the platform keeps of a container: its image.
#[derive(Debug, Clone)]
pub struct DockerContainer {
    pub image: String,
}

/// The container described by `docker inspect`: the image of its
/// configuration, empty when there is none.
pub fn docker_container_from_inspect(config_image: Option<String>) -> (r: DockerContainer)
    ensures
        r.image@ == (match config_image {
            Some(i) => i@,
            None => Seq::<char>::empty(),
        }),
{
    match config_image {
        Some(i) => DockerContainer { image: i },
        None => DockerContainer { image: String::new() },
    }
}

impl<C> DockerPlatform<C> {
    /// A platform using this connection.
    pub fn new(connection: C) -> (r: Self)
        ensures
            r.connection == connection,
    {
        DockerPlatform { connection }
    }

    /// Command that starts a container: `docker run -d <image>`.
    pub fn create_command(&self, container: &DockerContainer) -> (r: String)
        ensures
            r@ == "docker run -d "@ + container.image@,
    {
        concat2("docker run -d ", container.image.as_str())
    }

    /// Command that describes a container: `docker inspect <id>`.
    pub fn get_command(&self, id: &str) -> (r: String)
        ensures
            r@ == "docker inspect "@ + id@,
    {
        concat2("docker inspect ", id)
    }

    /// Command that removes a container: `docker rm -f <id>`.
    pub fn delete_command(&self, id: &str) -> (r: String)
        ensures
            r@ == "docker rm -f "@ + id@,
    {
        concat2("docker rm -f ", id)
    }

    /// Removal succeeded exactly when the command printed nothing.
    pub fn delete_outcome(&self, output: &str) -> (r: Result<(), String>)
        ensures
            match r {
                Ok(()) => output@.len() == 0,
                Err(e) => output@.len() > 0 && e@ == "Failed to delete container: "@ + output@,
            },
    {
        if output.unicode_len() == 0 {
            Ok(())
        } else {
            Err(concat2("Failed to delete container: ", output))
        }
    }

    /// Command that fetches the last 1000 log lines of a container.
    pub fn logs_command(&self, id: &str) -> (r: String)
        ensures
            r@ == "docker logs --tail 1000 "@ + id@,
    {
        concat2("docker logs --tail 1000 ", id)
    }

    /// Command that runs `command` inside a container, interactively.
    pub fn exec_command(&self, id: &str, command: &str) -> (r: String)
        ensures
            r@ == "docker exec -it "@ + id@ + " "@ + command@,
    {
        let mut r = concat3("docker exec -it ", id, " ");
        r.append(command);
        r
    }

    /// The platform takes containers exactly when its connection is up.
    pub fn status_from(&self, connected: bool) -> (r: ContainerPlatformStatus)
        ensures
            r == (if connected {
                ContainerPlatformStatus::Ready
            } else {
                ContainerPlatformStatus::DoNotSchedule
            }),
    {
        if connected {
            ContainerPlatformStatus::Ready
        } else {
            ContainerPlatformStatus::DoNotSchedule
        }
    }
}

} // verus!
