//! Decisions of the Tailscale client: which address a device answers with,
//! what an auth-key request asks for, and what a key response yields.

use super::{first_ipv4, ipv4_address, is_ipv4_text, VpnAuthKey, VpnCreateOpts, VpnKeyCapabilities};
use crate::find::{first_index_where, is_first_match, lemma_first_index_where, no_match};
use crate::text::{concat3, strs};
use vstd::prelude::*;
use vstd::string::*;

verus! {

/// The first IPv4 address among `addresses`, as an index (`-1` if none).
pub open spec fn first_ipv4_index(addresses: Seq<String>) -> int {
    first_index_where(strs(addresses), ipv4_address())
}

/// Law: the address a device answers with is an IPv4 address of its list,
/// and none before it in the list is one; when none is found, the list
/// holds no IPv4 address at all.
pub proof fn law_device_ip_is_first_ipv4(addresses: Seq<String>)
    ensures
        first_ipv4_index(addresses) >= 0 ==> is_first_match(
            strs(addresses),
            ipv4_address(),
            first_ipv4_index(addresses),
        ) && is_ipv4_text(addresses[first_ipv4_index(addresses)]@),
        first_ipv4_index(addresses) == -1 <==> no_match(strs(addresses), ipv4_address()),
{
    lemma_first_index_where(strs(addresses), ipv4_address());
    let k = first_ipv4_index(addresses);
    if k >= 0 {
        assert(strs(addresses)[k] == addresses[k]@);
    }
}

/// The IPv4 address of a Tailscale device, given what the device lookup
/// found: no device, a device without an address list, or its addresses.
pub fn tailscale_device_ip(hostname: &str, device: Option<Option<Vec<String>>>) -> (r: Result<
    String,
    String,
>)
    ensures
        match device {
            None => r matches Err(e) && e@ == "No Tailscale device found with hostname '"@
                + hostname@ + "'"@,
            Some(None) => r matches Err(e) && e@ == "Tailscale device '"@ + hostname@
                + "' has no addresses listed"@,
            Some(Some(addrs)) => {
                let k = first_ipv4_index(addrs@);
                match r {
                    Ok(a) => k >= 0 && a@ == addrs@[k]@,
                    Err(e) => k == -1 && e@ == "No IPv4 address found for Tailscale device '"@
                        + hostname@ + "'"@,
                }
            },
        },
{
    match device {
        None => Err(concat3("No Tailscale device found with hostname '", hostname, "'")),
        Some(None) => Err(concat3("Tailscale device '", hostname, "' has no addresses listed")),
        Some(Some(addresses)) => match first_ipv4(&addresses) {
            Some(a) => Ok(a),
            None => Err(concat3("No IPv4 address found for Tailscale device '", hostname, "'")),
        },
    }
}

/// What is sent to Tailscale to create an auth key: its description and the
/// properties of the devices it creates.
#[derive(Debug, Clone)]
pub struct AuthKeyRequest {
    pub description: String,
    pub create: Option<VpnCreateOpts>,
}

/// The device properties asked for when the caller gives no capabilities:
/// single use, ephemeral, preauthorized, tagged `tag:container`.
pub open spec fn is_default_create_opts(o: VpnCreateOpts) -> bool {
    &&& o.reusable == Some(false)
    &&& o.ephemeral == Some(true)
    &&& o.preauthorized == Some(true)
    &&& o.tags matches Some(t) && strs(t@) == seq!["tag:container"@]
}

/// The request for an auth key with this description: the given device
/// capabilities, or the default ones when none are given.
pub fn auth_key_request(description: &str, capabilities: Option<VpnKeyCapabilities>) -> (r:
    AuthKeyRequest)
    ensures
        r.description@ == description@,
        match capabilities {
            Some(c) => r.create == (match c.devices {
                Some(d) => d.create,
                None => None,
            }),
            None => r.create matches Some(o) && is_default_create_opts(o),
        },
{
    let create = match capabilities {
        Some(c) => match c.devices {
            Some(d) => d.create,
            None => None,
        },
        None => {
            let tags = vec![String::from_str("tag:container")];
            proof {
                assert(strs(tags@) =~= seq!["tag:container"@]);
            }
            Some(
                VpnCreateOpts {
                    reusable: Some(false),
                    ephemeral: Some(true),
                    preauthorized: Some(true),
                    tags: Some(tags),
                },
            )
        },
    };
    AuthKeyRequest { description: String::from_str(description), create }
}

/// The key Tailscale answered with; a response without a key is refused.
pub fn auth_key_from_response(
    key: Option<String>,
    description: Option<String>,
    created: Option<String>,
    expires: Option<String>,
) -> (r: Result<VpnAuthKey, String>)
    ensures
        match r {
            Ok(k) => key == Some(k.key) && k.description == description && k.created == created
                && k.expires == expires && k.capabilities is None,
            Err(e) => key is None && e@
                == "Server did not return a value in `key` from Tailscale API after key creation"@,
        },
{
    match key {
        Some(k) => Ok(VpnAuthKey { key: k, description, created, expires, capabilities: None }),
        None => Err(
            String::from_str(
                "Server did not return a value in `key` from Tailscale API after key creation",
            ),
        ),
    }
}

} // verus!
