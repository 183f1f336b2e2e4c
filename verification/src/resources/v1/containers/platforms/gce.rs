//! Containers run with Docker on a Google Compute Engine instance.

use crate::platforms::docker::{DockerContainer, DockerPlatform};
use crate::platforms::ssh::{SSHConnection, SshSpec};
use vstd::prelude::*;
use vstd::string::*;

verus! {

/// Where the GCE instance is and how to reach it.
#[derive(Debug, Clone)]
pub struct GceSpec {
    pub gce_zone: String,
    pub gce_instance: String,
    pub ssh: SshSpec,
}

/// Docker on a GCE instance, reached over SSH.
#[derive(Debug, Clone)]
pub struct GCEPlatform {
    pub inner: DockerPlatform<SSHConnection>,
    pub gce_zone: String,
    pub gce_instance: String,
}

/// The first problem of a specification, if any.
pub open spec fn gce_spec_error(zone: Seq<char>, instance: Seq<char>) -> Option<Seq<char>> {
    if zone.len() == 0 {
        Some("GCE zone is required"@)
    } else if instance.len() == 0 {
        Some("GCE instance is required"@)
    } else {
        None
    }
}

impl GCEPlatform {
    /// A platform on this instance.
    pub fn new(gce_zone: String, gce_instance: String, connection: SSHConnection) -> (r: Self)
        ensures
            r.gce_zone == gce_zone,
            r.gce_instance == gce_instance,
            r.inner.connection == connection,
    {
        let inner = DockerPlatform::new(connection);
        GCEPlatform { inner, gce_zone, gce_instance }
    }

    /// A specification needs a zone and an instance.
    pub fn validate(spec: &GceSpec) -> (r: Result<(), String>)
        ensures
            match r {
                Ok(()) => gce_spec_error(spec.gce_zone@, spec.gce_instance@) is None,
                Err(e) => gce_spec_error(spec.gce_zone@, spec.gce_instance@) == Some(e@),
            },
    {
        if spec.gce_zone.as_str().unicode_len() == 0 {
            return Err(String::from_str("GCE zone is required"));
        }
        if spec.gce_instance.as_str().unicode_len() == 0 {
            return Err(String::from_str("GCE instance is required"));
        }
        Ok(())
    }

    /// The platform a specification describes.
    pub fn from_spec(spec: GceSpec) -> (r: Self)
        ensures
            r.gce_zone == spec.gce_zone,
            r.gce_instance == spec.gce_instance,
            r.inner.connection.host == spec.ssh.host,
            r.inner.connection.port == spec.ssh.port,
            r.inner.connection.username == spec.ssh.username,
            r.inner.connection.private_key == spec.ssh.private_key,
    {
        let GceSpec { gce_zone, gce_instance, ssh } = spec;
        let connection = SSHConnection::from_spec(ssh);
        GCEPlatform::new(gce_zone, gce_instance, connection)
    }

    /// Command that starts a container on the instance.
    pub fn create_command(&self, container: &DockerContainer) -> (r: String)
        ensures
            r@ == "docker run -d "@ + container.image@,
    {
        self.inner.create_command(container)
    }

    /// Command that describes a container on the instance.
    pub fn get_command(&self, id: &str) -> (r: String)
        ensures
            r@ == "docker inspect "@ + id@,
    {
        self.inner.get_command(id)
    }

    /// Command that removes a container from the instance.
    pub fn delete_command(&self, id: &str) -> (r: String)
        ensures
            r@ == "docker rm -f "@ + id@,
    {
        self.inner.delete_command(id)
    }
}

} // verus!
