//! Volumes and the paths synchronised into containers.

use crate::models::{V1ResourceMeta, V1ResourceMetaRequest};
use vstd::prelude::*;
use vstd::string::*;

verus! {

/// A stored volume.
#[derive(Debug, Clone)]
pub struct V1Volume {
    pub kind: String,
    pub metadata: V1ResourceMeta,
    pub source: String,
}

/// A request for a volume.
#[derive(Debug, Clone)]
pub struct V1VolumeRequest {
    pub metadata: V1ResourceMetaRequest,
    pub source: String,
}

/// Kind written on a volume when none is given: `Volume`.
pub fn default_volume_kind() -> (r: String)
    ensures
        r@ == "Volume"@,
{
    String::from_str("Volume")
}

/// One path synchronised between a source and a destination.
#[derive(Debug, Clone)]
pub struct V1VolumePath {
    pub source: String,
    pub dest: String,
    pub resync: bool,
    pub continuous: bool,
    pub driver: V1VolumeDriver,
}

/// Driver used when none is given: `RcloneSync`.
pub fn default_volume_driver() -> (r: V1VolumeDriver)
    ensures
        r == V1VolumeDriver::RcloneSync,
{
    V1VolumeDriver::RcloneSync
}

/// Paths are not synchronised continuously unless asked.
pub fn default_continuous() -> (r: bool)
    ensures
        r == false,
{
    false
}

/// Cache directory used when none is given: `/nebu/cache`.
pub fn default_cache_dir() -> (r: String)
    ensures
        r@ == "/nebu/cache"@,
{
    String::from_str("/nebu/cache")
}

/// The paths to synchronise and the cache directory.
#[derive(Debug, Clone)]
pub struct V1VolumeConfig {
    pub paths: Vec<V1VolumePath>,
    pub cache_dir: String,
}

/// How a path is synchronised.
#[derive(Debug, Clone, Copy, PartialEq, Eq, Structural)]
pub enum V1VolumeDriver {
    RcloneSync,
    RcloneCopy,
    RcloneBisync,
    RcloneMount,
}

/// Displayed name of a driver.
pub open spec fn driver_text(d: V1VolumeDriver) -> Seq<char> {
    match d {
        V1VolumeDriver::RcloneSync => "rclone-sync"@,
        V1VolumeDriver::RcloneCopy => "rclone-copy"@,
        V1VolumeDriver::RcloneBisync => "rclone-bisync"@,
        V1VolumeDriver::RcloneMount => "rclone-mount"@,
    }
}

impl Default for V1VolumeDriver {
    fn default() -> (r: Self)
        ensures
            r == V1VolumeDriver::RcloneSync,
    {
        V1VolumeDriver::RcloneSync
    }
}

impl V1VolumeDriver {
    /// The displayed name: `rclone-sync`, `rclone-copy`, `rclone-bisync` or
    /// `rclone-mount`.
    pub fn to_string(&self) -> (r: String)
        ensures
            r@ == driver_text(*self),
    {
        match self {
            V1VolumeDriver::RcloneSync => String::from_str("rclone-sync"),
            V1VolumeDriver::RcloneCopy => String::from_str("rclone-copy"),
            V1VolumeDriver::RcloneBisync => String::from_str("rclone-bisync"),
            V1VolumeDriver::RcloneMount => String::from_str("rclone-mount"),
        }
    }
}

} // verus!
