//! Which platform a specification's kind names.

use crate::text::{concat2, text_eq};
use vstd::prelude::*;
use vstd::string::*;

verus! {

/// The kinds of platform.
#[derive(Debug, Clone, Copy, PartialEq, Eq, Structural)]
pub enum PlatformKind {
    LocalDocker,
    RemoteDocker,
    EC2,
    GCE,
    Nebulous,
}

/// The kind a name stands for.
pub open spec fn kind_for(s: Seq<char>) -> Option<PlatformKind> {
    if s == "local-docker"@ {
        Some(PlatformKind::LocalDocker)
    } else if s == "remote-docker"@ {
        Some(PlatformKind::RemoteDocker)
    } else if s == "ec2"@ {
        Some(PlatformKind::EC2)
    } else if s == "gce"@ {
        Some(PlatformKind::GCE)
    } else if s == "nebulous"@ {
        Some(PlatformKind::Nebulous)
    } else {
        None
    }
}

impl PlatformKind {
    /// Reads a kind name (`local-docker`, `remote-docker`, `ec2`, `gce`,
    /// `nebulous`); any other name is refused.
    pub fn from_str(s: &str) -> (r: Result<Self, String>)
        ensures
            match r {
                Ok(k) => kind_for(s@) == Some(k),
                Err(e) => kind_for(s@) is None && e@ == "Unknown platform kind: "@ + s@,
            },
    {
        if text_eq(s, "local-docker") {
            Ok(PlatformKind::LocalDocker)
        } else if text_eq(s, "remote-docker") {
            Ok(PlatformKind::RemoteDocker)
        } else if text_eq(s, "ec2") {
            Ok(PlatformKind::EC2)
        } else if text_eq(s, "gce") {
            Ok(PlatformKind::GCE)
        } else if text_eq(s, "nebulous") {
            Ok(PlatformKind::Nebulous)
        } else {
            Err(concat2("Unknown platform kind: ", s))
        }
    }
}

/// The platform to build for a specification of the given kind.
pub fn create_platform_from_kind(kind: &str) -> (r: Result<PlatformKind, String>)
    ensures
        match r {
            Ok(k) => kind_for(kind@) == Some(k),
            Err(e) => kind_for(kind@) is None && e@ == "Unknown platform kind: "@ + kind@,
        },
{
    PlatformKind::from_str(kind)
}

} // verus!
