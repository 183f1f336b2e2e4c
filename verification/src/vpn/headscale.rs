//! Decisions of the Headscale client: errors, device records, the address a
//! device answers with, and the auth keys it hands out.

use super::{first_ipv4, VpnAuthKey, VpnDevice, VpnKeyCapabilities};
use super::tailscale::first_ipv4_index;
use crate::clock::{
    day_number, law_next_date_is_one_day_later, next_date, rfc3339_date, rfc3339_hours_from_now,
    rfc3339_next_day, rfc3339_now, rfc3339_time_part,
};
use crate::text::concat3;
use vstd::prelude::*;
use vstd::string::*;

verus! {

/// An error reported by the Headscale client.
#[derive(Debug, Clone)]
pub struct HeadscaleError {
    message: String,
}

impl HeadscaleError {
    /// An error with this message.
    pub fn new(message: &str) -> (r: Self)
        ensures
            r.view() == message@,
    {
        HeadscaleError { message: String::from_str(message) }
    }

    /// The message, as displayed.
    pub fn message(&self) -> (r: &String)
        ensures
            r@ == self.view(),
    {
        &self.message
    }

    /// The message text.
    pub closed spec fn view(&self) -> Seq<char> {
        self.message@
    }
}

/// The IPv4 address of a Headscale device, given its addresses when the
/// lookup found it.
pub fn headscale_device_ip(hostname: &str, device: Option<Vec<String>>) -> (r: Result<
    String,
    String,
>)
    ensures
        match device {
            None => r matches Err(e) && e@ == "No Headscale device found with hostname '"@
                + hostname@ + "'"@,
            Some(addrs) => {
                let k = first_ipv4_index(addrs@);
                match r {
                    Ok(a) => k >= 0 && a@ == addrs@[k]@,
                    Err(e) => k == -1 && e@ == "No IPv4 address found for Headscale device '"@
                        + hostname@ + "'"@,
                }
            },
        },
{
    match device {
        None => Err(concat3("No Headscale device found with hostname '", hostname, "'")),
        Some(addresses) => match first_ipv4(&addresses) {
            Some(a) => Ok(a),
            None => Err(concat3("No IPv4 address found for Headscale device '", hostname, "'")),
        },
    }
}

/// The device record for a Headscale node: its name, its given name as host
/// name (empty when unset), its addresses, no tags, and when it was last seen.
pub fn headscale_device(
    name: String,
    given_name: Option<String>,
    ip_addresses: Vec<String>,
    last_seen: Option<String>,
) -> (r: VpnDevice)
    ensures
        r.name == Some(name),
        r.hostname matches Some(h) && h@ == (match given_name {
            Some(g) => g@,
            None => Seq::<char>::empty(),
        }),
        r.addresses == Some(ip_addresses),
        r.tags is None,
        r.created == last_seen,
{
    let hostname = match given_name {
        Some(g) => g,
        None => String::new(),
    };
    VpnDevice {
        name: Some(name),
        hostname: Some(hostname),
        addresses: Some(ip_addresses),
        tags: None,
        created: last_seen,
    }
}

/// The auth key record for a key Headscale created: created now and
/// expiring 24 hours later (the next day, at the same time of day), with the
/// description and capabilities asked for.
pub fn headscale_auth_key(
    key: String,
    description: &str,
    capabilities: Option<VpnKeyCapabilities>,
) -> (r: VpnAuthKey)
    ensures
        r.key == key,
        r.description matches Some(d) && d@ == description@,
        r.created is Some,
        r.expires is Some,
        r.capabilities == capabilities,
        match (r.created, r.expires) {
            (Some(c), Some(e)) => match rfc3339_date(c@) {
                Some((y, m, d)) => !(y == 9999 && m == 12 && d == 31) ==> {
                    &&& rfc3339_date(e@) == Some(next_date(y, m, d))
                    &&& day_number(next_date(y, m, d).0, next_date(y, m, d).1, next_date(y, m, d).2)
                        == day_number(y, m, d) + 1
                    &&& rfc3339_time_part(e@) == rfc3339_time_part(c@)
                },
                None => true,
            },
            _ => false,
        },
{
    let created = rfc3339_now();
    let expires = match rfc3339_next_day(created.as_str()) {
        Some(e) => e,
        None => rfc3339_hours_from_now(24),
    };
    proof {
        match rfc3339_date(created@) {
            Some((y, m, d)) => {
                if !(y == 9999 && m == 12 && d == 31) {
                    assert(y >= 0 && 1 <= m <= 12 && 1 <= d);
                    law_next_date_is_one_day_later(y, m, d);
                }
            },
            None => {},
        }
    }
    VpnAuthKey {
        key,
        description: Some(String::from_str(description)),
        created: Some(created),
        expires: Some(expires),
        capabilities,
    }
}

/// Whether removing a device by name talks to Headscale: only when the
/// device was found.
pub fn should_remove_device(found: &Option<VpnDevice>) -> (b: bool)
    ensures
        b == found is Some,
{
    found.is_some()
}

} // verus!
