//! The shell of the machine the server runs on.

use vstd::prelude::*;

verus! {

/// The local shell (`sh -c`); commands are run by the server process.
#[derive(Debug, Clone, Copy)]
pub struct LocalShell {}

/// Connecting to the local shell succeeds exactly when a probe command
/// (`which sh`) succeeded.
pub fn local_connect_outcome(probe_succeeded: bool) -> (r: Result<(), String>)
    ensures
        match r {
            Ok(()) => probe_succeeded,
            Err(e) => !probe_succeeded && e@ == "Failed to connect to local shell"@,
        },
{
    if probe_succeeded {
        Ok(())
    } else {
        Err(String::from_str("Failed to connect to local shell"))
    }
}

} // verus!
