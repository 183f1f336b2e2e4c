//! A platform reached through an HTTP API.

use crate::text::concat3;
use vstd::prelude::*;
use vstd::string::*;

verus! {

/// An HTTP endpoint and the path used to check its health.
#[derive(Debug, Clone)]
pub struct HTTPConnection {
    pub host: String,
    pub health_check_path: String,
}

impl HTTPConnection {
    /// URL of `path` on this endpoint: `<host>/<path>`.
    pub fn url(&self, path: &str) -> (r: String)
        ensures
            r@ == self.host@ + "/"@ + path@,
    {
        concat3(self.host.as_str(), "/", path)
    }

    /// URL of the health check.
    pub fn health_check_url(&self) -> (r: String)
        ensures
            r@ == self.host@ + "/"@ + self.health_check_path@,
    {
        self.url(self.health_check_path.as_str())
    }

    /// The endpoint counts as connected exactly when the health check
    /// request succeeded.
    pub fn is_connected_from(health_check_succeeded: bool) -> (b: bool)
        ensures
            b == health_check_succeeded,
    {
        health_check_succeeded
    }
}

} // verus!
