//! A shell reached over SSH.

use crate::text::concat2;
use vstd::prelude::*;
use vstd::string::*;

verus! {

/// Where and as whom to connect over SSH.
#[derive(Debug, Clone)]
pub struct SshSpec {
    pub host: String,
    pub port: u16,
    pub username: String,
    pub private_key: String,
}

/// An SSH connection to a host.
#[derive(Debug, Clone)]
pub struct SSHConnection {
    pub host: String,
    pub port: u16,
    pub username: String,
    pub private_key: String,
}

impl SSHConnection {
    /// The connection a platform specification describes.
    pub fn from_spec(spec: SshSpec) -> (r: Self)
        ensures
            r.host == spec.host,
            r.port == spec.port,
            r.username == spec.username,
            r.private_key == spec.private_key,
    {
        SSHConnection {
            host: spec.host,
            port: spec.port,
            username: spec.username,
            private_key: spec.private_key,
        }
    }

    /// Connecting always succeeds.
    pub fn connect(&self) -> (r: Result<(), String>)
        ensures
            r is Ok,
    {
        Ok(())
    }

    /// Disconnecting always succeeds.
    pub fn disconnect(&self) -> (r: Result<(), String>)
        ensures
            r is Ok,
    {
        Ok(())
    }

    /// The connection always counts as established.
    pub fn is_connected(&self) -> (b: bool)
        ensures
            b,
    {
        true
    }

    /// Running a command answers `Executed command: <command>`.
    pub fn run_command(&self, method: &str) -> (r: Result<String, String>)
        ensures
            r matches Ok(out) && out@ == "Executed command: "@ + method@,
    {
        Ok(concat2("Executed command: ", method))
    }
}

} // verus!
