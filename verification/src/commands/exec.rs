//! Running a command in a container over SSH.

use crate::text::{concat2, split_whitespace, words};
use crate::vpn::device_name;
use vstd::prelude::*;

verus! {

/// The SSH host of a container: its VPN device name, `container-<id>`.
pub fn exec_ssh_host(container_id: &str) -> (r: String)
    ensures
        r@ == device_name(container_id@),
{
    concat2("container-", container_id)
}

/// The command run in the container, split into its words.
pub fn exec_command_parts(command: &str) -> (r: Vec<String>)
    ensures
        crate::text::strs(r@) == words(command@),
{
    split_whitespace(command)
}

} // verus!
