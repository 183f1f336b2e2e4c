//! The HTTP client of the Nebulous API: where each request goes, with which
//! credentials, and what a failure says.

use crate::config::{spec_current_server, GlobalConfig};
use crate::text::{concat2, concat3, opt_str};
use vstd::prelude::*;
use vstd::string::*;

verus! {

/// A container as the API returns it.
#[derive(Debug, Clone)]
pub struct ContainerResponse {
    pub metadata: ContainerMetadata,
}

/// Identity of a returned container.
#[derive(Debug, Clone)]
pub struct ContainerMetadata {
    pub id: Option<String>,
    pub name: Option<String>,
}

/// A secret as the API returns it.
#[derive(Debug, Clone)]
pub struct SecretResponse {
    pub metadata: SecretMetadata,
}

/// Identity of a returned secret.
#[derive(Debug, Clone)]
pub struct SecretMetadata {
    pub id: Option<String>,
    pub name: Option<String>,
}

/// Where the API is and the key that authenticates requests to it.
#[derive(Debug, Clone)]
pub struct NebulousClient {
    pub base_url: String,
    pub api_key: String,
}

/// Why the configuration gives no client, if it does not.
pub open spec fn client_config_error(c: crate::config::GlobalConfigView) -> Option<Seq<char>> {
    match spec_current_server(c) {
        None => Some("No current server config found"@),
        Some(s) => if s.server is None {
            Some("Server URL not found in config"@)
        } else if s.api_key is None {
            Some("API key not found in config"@)
        } else {
            None
        },
    }
}

/// The namespace used when none is given: `default`.
pub open spec fn namespace_or_default(ns: Option<&str>) -> Seq<char> {
    match ns {
        Some(n) => n@,
        None => "default"@,
    }
}

fn namespace_text(ns: Option<&str>) -> (r: String)
    ensures
        r@ == namespace_or_default(ns),
{
    match ns {
        Some(n) => String::from_str(n),
        None => String::from_str("default"),
    }
}

impl NebulousClient {
    /// A client for this server and key.
    pub fn new(server: String, api_key: String) -> (r: Self)
        ensures
            r.base_url == server,
            r.api_key == api_key,
    {
        NebulousClient { base_url: server, api_key }
    }

    /// A client for the current server of the configuration; refused when
    /// there is no current server or it lacks its URL or its key.
    pub fn new_from_config(config: &GlobalConfig) -> (r: Result<Self, String>)
        ensures
            match r {
                Ok(c) => {
                    &&& client_config_error(config@) is None
                    &&& spec_current_server(config@) matches Some(s)
                    &&& s.server == Some(c.base_url@)
                    &&& s.api_key == Some(c.api_key@)
                },
                Err(e) => client_config_error(config@) == Some(e@),
            },
    {
        let current = match config.get_current_server_config() {
            Some(c) => c,
            None => {
                return Err(String::from_str("No current server config found"));
            },
        };
        let server_url = match &current.server {
            Some(s) => s.clone(),
            None => {
                return Err(String::from_str("Server URL not found in config"));
            },
        };
        let api = match &current.api_key {
            Some(k) => k.clone(),
            None => {
                return Err(String::from_str("API key not found in config"));
            },
        };
        Ok(NebulousClient { base_url: server_url, api_key: api })
    }

    /// Value of the `Authorization` header: `Bearer <key>`.
    pub fn authorization(&self) -> (r: String)
        ensures
            r@ == "Bearer "@ + self.api_key@,
    {
        concat2("Bearer ", self.api_key.as_str())
    }

    /// The URL of the container collection: `<base>/v1/containers`.
    pub fn containers_url(&self) -> (r: String)
        ensures
            r@ == self.base_url@ + "/v1/containers"@,
    {
        concat2(self.base_url.as_str(), "/v1/containers")
    }

    /// The URL of the secret collection: `<base>/v1/secrets`.
    pub fn secrets_url(&self) -> (r: String)
        ensures
            r@ == self.base_url@ + "/v1/secrets"@,
    {
        concat2(self.base_url.as_str(), "/v1/secrets")
    }

    /// The URL of one container, `<base>/v1/containers/<namespace>/<name>`
    /// (namespace `default` unless given).
    pub fn container_url(&self, name: &str, namespace: Option<&str>) -> (r: String)
        ensures
            r@ == self.base_url@ + "/v1/containers/"@ + namespace_or_default(namespace) + "/"@
                + name@,
    {
        let ns = namespace_text(namespace);
        let mut r = concat3(self.base_url.as_str(), "/v1/containers/", ns.as_str());
        r.append("/");
        r.append(name);
        r
    }

    /// The URL of one secret, `<base>/v1/secrets/<namespace>/<name>`
    /// (namespace `default` unless given).
    pub fn secret_url(&self, name: &str, namespace: Option<&str>) -> (r: String)
        ensures
            r@ == self.base_url@ + "/v1/secrets/"@ + namespace_or_default(namespace) + "/"@
                + name@,
    {
        let ns = namespace_text(namespace);
        let mut r = concat3(self.base_url.as_str(), "/v1/secrets/", ns.as_str());
        r.append("/");
        r.append(name);
        r
    }

    /// Where a listing or a lookup goes: one container when a name is
    /// given, the collection otherwise.
    pub fn get_containers_url(&self, name: Option<&str>, namespace: Option<&str>) -> (r: String)
        ensures
            r@ == (match name {
                Some(n) => self.base_url@ + "/v1/containers/"@ + namespace_or_default(namespace)
                    + "/"@ + n@,
                None => self.base_url@ + "/v1/containers"@,
            }),
    {
        match name {
            Some(n) => self.container_url(n, namespace),
            None => self.containers_url(),
        }
    }

    /// Where a listing or a lookup of secrets goes.
    pub fn get_secrets_url(&self, name: Option<&str>, namespace: Option<&str>) -> (r: String)
        ensures
            r@ == (match name {
                Some(n) => self.base_url@ + "/v1/secrets/"@ + namespace_or_default(namespace)
                    + "/"@ + n@,
                None => self.base_url@ + "/v1/secrets"@,
            }),
    {
        match name {
            Some(n) => self.secret_url(n, namespace),
            None => self.secrets_url(),
        }
    }
}

/// The report of a failed request: `Failed to <action>: <detail>`.
pub fn request_failure(action: &str, detail: &str) -> (r: String)
    ensures
        r@ == "Failed to "@ + action@ + ": "@ + detail@,
{
    let mut r = concat3("Failed to ", action, ": ");
    r.append(detail);
    r
}

/// `<namespace>/<name>`, with namespace `default` unless given.
pub fn qualified_name(name: &str, namespace: Option<&str>) -> (r: String)
    ensures
        r@ == namespace_or_default(namespace) + "/"@ + name@,
{
    let ns = namespace_text(namespace);
    concat3(ns.as_str(), "/", name)
}

} // verus!
