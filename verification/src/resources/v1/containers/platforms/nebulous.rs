//! A platform that is itself a Nebulous server, reached over its REST API.

use vstd::prelude::*;

verus! {

/// A Nebulous server reached through a REST connection.
#[derive(Debug, Clone)]
pub struct NebulousPlatform<C> {
    pub connection: C,
}

impl<C> NebulousPlatform<C> {
    /// A platform using this connection.
    pub fn new(connection: C) -> (r: Self)
        ensures
            r.connection == connection,
    {
        NebulousPlatform { connection }
    }
}

} // verus!
