//! Which container platform a request names.

use crate::text::text_eq;
use vstd::prelude::*;
use vstd::string::*;

verus! {

/// The container platforms requests can name.
#[derive(Debug, Clone, Copy, PartialEq, Eq, Structural)]
pub enum PlatformType {
    Runpod,
    Kube,
    Ec2,
    Nebius,
}

/// The platform a name stands for: `runpod`, `kube`, `ec2` or `nebius`.
pub open spec fn platform_type_for(name: Seq<char>) -> Option<PlatformType> {
    if name == "runpod"@ {
        Some(PlatformType::Runpod)
    } else if name == "kube"@ {
        Some(PlatformType::Kube)
    } else if name == "ec2"@ {
        Some(PlatformType::Ec2)
    } else if name == "nebius"@ {
        Some(PlatformType::Nebius)
    } else {
        None
    }
}

/// The platform a request names; `None` for an unknown name, which the
/// server treats as invalid.
pub fn platform_factory(platform: &str) -> (r: Option<PlatformType>)
    ensures
        r == platform_type_for(platform@),
{
    if text_eq(platform, "runpod") {
        Some(PlatformType::Runpod)
    } else if text_eq(platform, "kube") {
        Some(PlatformType::Kube)
    } else if text_eq(platform, "ec2") {
        Some(PlatformType::Ec2)
    } else if text_eq(platform, "nebius") {
        Some(PlatformType::Nebius)
    } else {
        None
    }
}

/// The platform a container request asks for, `runpod` when it names none.
pub fn requested_platform(platform: &Option<String>) -> (r: String)
    ensures
        r@ == (match platform {
            Some(p) => p@,
            None => "runpod"@,
        }),
{
    match platform {
        Some(p) => p.clone(),
        None => String::from_str("runpod"),
    }
}

} // verus!
