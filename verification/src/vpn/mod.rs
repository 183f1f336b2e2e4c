//! VPN providers (Tailscale and Headscale): their settings, how the
//! provider is chosen and checked, and the naming of container devices.

pub mod headscale;
pub mod tailscale;

use crate::find::{first_index_where, is_first_match, lemma_first_match_unique, lemma_no_match};
use crate::text::{all_digits, concat2, digits_value, split_char, split_on, strs, text_eq};
use vstd::prelude::*;
use vstd::string::*;

verus! {

/// The VPN provider in use.
#[derive(Debug, Clone, Copy, PartialEq, Eq, Structural)]
pub enum VpnProvider {
    Tailscale,
    Headscale,
}

/// Settings of the Tailscale provider.
#[derive(Debug, Clone)]
pub struct TailscaleConfig {
    pub api_key: String,
    pub tailnet: String,
}

/// Settings of the Headscale provider.
#[derive(Debug, Clone)]
pub struct HeadscaleConfig {
    pub api_key: String,
    pub login_server: String,
    pub organization: Option<String>,
}

/// The provider and its settings.
#[derive(Debug, Clone)]
pub struct VpnConfig {
    pub provider: VpnProvider,
    pub tailscale: Option<TailscaleConfig>,
    pub headscale: Option<HeadscaleConfig>,
}

/// The VPN-related server settings (`VPN_PROVIDER`, `VPN_API_KEY`,
/// `VPN_TAILNET`, `VPN_LOGIN_SERVER`, `VPN_ORGANIZATION`), each as found.
#[derive(Debug, Clone)]
pub struct VpnSettings {
    pub vpn_provider: Option<String>,
    pub vpn_api_key: Option<String>,
    pub vpn_tailnet: Option<String>,
    pub vpn_login_server: Option<String>,
    pub vpn_organization: Option<String>,
}

/// A device of the VPN.
#[derive(Debug, Clone)]
pub struct VpnDevice {
    pub name: Option<String>,
    pub hostname: Option<String>,
    pub addresses: Option<Vec<String>>,
    pub tags: Option<Vec<String>>,
    pub created: Option<String>,
}

/// An authentication key for joining the VPN.
#[derive(Debug, Clone)]
pub struct VpnAuthKey {
    pub key: String,
    pub description: Option<String>,
    pub created: Option<String>,
    pub expires: Option<String>,
    pub capabilities: Option<VpnKeyCapabilities>,
}

/// What a key allows.
#[derive(Debug, Clone)]
pub struct VpnKeyCapabilities {
    pub devices: Option<VpnDeviceCapabilities>,
}

/// What a key allows for devices.
#[derive(Debug, Clone)]
pub struct VpnDeviceCapabilities {
    pub create: Option<VpnCreateOpts>,
}

/// Properties of the devices a key creates.
#[derive(Debug, Clone)]
pub struct VpnCreateOpts {
    pub reusable: Option<bool>,
    pub ephemeral: Option<bool>,
    pub preauthorized: Option<bool>,
    pub tags: Option<Vec<String>>,
}

/// The first problem with a configuration, if any.
pub open spec fn vpn_config_error(c: VpnConfig) -> Option<Seq<char>> {
    match c.provider {
        VpnProvider::Tailscale => match c.tailscale {
            None => Some("Tailscale configuration is required for Tailscale provider"@),
            Some(t) => if t.api_key@.len() == 0 {
                Some("Tailscale API key cannot be empty"@)
            } else if t.tailnet@.len() == 0 {
                Some("Tailscale tailnet cannot be empty"@)
            } else {
                None
            },
        },
        VpnProvider::Headscale => match c.headscale {
            None => Some("Headscale configuration is required for Headscale provider"@),
            Some(h) => if h.api_key@.len() == 0 {
                Some("Headscale API key cannot be empty"@)
            } else if h.login_server@.len() == 0 {
                Some("Headscale login server cannot be empty"@)
            } else {
                None
            },
        },
    }
}

/// The first setting the provider needs that is missing, if any.
pub open spec fn vpn_env_error(p: VpnProvider, s: VpnSettings) -> Option<Seq<char>> {
    match p {
        VpnProvider::Tailscale => if s.vpn_api_key is None {
            Some("Tailscale requires VPN_API_KEY environment variable"@)
        } else if s.vpn_tailnet is None {
            Some("Tailscale requires VPN_TAILNET environment variable"@)
        } else {
            None
        },
        VpnProvider::Headscale => if s.vpn_api_key is None {
            Some("Headscale requires VPN_API_KEY environment variable"@)
        } else if s.vpn_login_server is None {
            Some("Headscale requires VPN_LOGIN_SERVER environment variable"@)
        } else {
            None
        },
    }
}

/// The provider a setting selects: Headscale for `headscale` or
/// `Headscale`, Tailscale for anything else and when unset.
pub open spec fn provider_for(setting: Option<String>) -> VpnProvider {
    match setting {
        Some(v) => if v@ == "headscale"@ || v@ == "Headscale"@ {
            VpnProvider::Headscale
        } else {
            VpnProvider::Tailscale
        },
        None => VpnProvider::Tailscale,
    }
}

/// The configuration built from settings for a provider.
pub open spec fn config_for(p: VpnProvider, s: VpnSettings) -> VpnConfig {
    match p {
        VpnProvider::Tailscale => VpnConfig {
            provider: VpnProvider::Tailscale,
            tailscale: Some(TailscaleConfig { api_key: s.vpn_api_key->0, tailnet: s.vpn_tailnet->0 }),
            headscale: None,
        },
        VpnProvider::Headscale => VpnConfig {
            provider: VpnProvider::Headscale,
            tailscale: None,
            headscale: Some(
                HeadscaleConfig {
                    api_key: s.vpn_api_key->0,
                    login_server: s.vpn_login_server->0,
                    organization: s.vpn_organization,
                },
            ),
        },
    }
}

/// Why settings give no usable configuration, if they do not.
pub open spec fn vpn_settings_error(s: VpnSettings) -> Option<Seq<char>> {
    let p = provider_for(s.vpn_provider);
    match vpn_env_error(p, s) {
        Some(e) => Some("Environment validation failed: "@ + e),
        None => match vpn_config_error(config_for(p, s)) {
            Some(e) => Some("VPN configuration validation failed: "@ + e),
            None => None,
        },
    }
}

fn cloned_text(o: &Option<String>) -> (r: String)
    requires
        o is Some,
    ensures
        r == o->0,
{
    match o {
        Some(s) => s.clone(),
        None => String::new(),
    }
}

fn is_empty_text(s: &String) -> (b: bool)
    ensures
        b == (s@.len() == 0),
{
    s.as_str().unicode_len() == 0
}

impl VpnConfig {
    /// A Tailscale configuration.
    pub fn tailscale(api_key: String, tailnet: String) -> (r: Self)
        ensures
            r == (VpnConfig {
                provider: VpnProvider::Tailscale,
                tailscale: Some(TailscaleConfig { api_key, tailnet }),
                headscale: None,
            }),
    {
        VpnConfig {
            provider: VpnProvider::Tailscale,
            tailscale: Some(TailscaleConfig { api_key, tailnet }),
            headscale: None,
        }
    }

    /// A Headscale configuration.
    pub fn headscale(api_key: String, login_server: String, organization: Option<String>) -> (r:
        Self)
        ensures
            r == (VpnConfig {
                provider: VpnProvider::Headscale,
                tailscale: None,
                headscale: Some(HeadscaleConfig { api_key, login_server, organization }),
            }),
    {
        VpnConfig {
            provider: VpnProvider::Headscale,
            tailscale: None,
            headscale: Some(HeadscaleConfig { api_key, login_server, organization }),
        }
    }

    /// Checks that the selected provider has its settings and that its key
    /// and tailnet (Tailscale) or login server (Headscale) are not empty.
    pub fn validate(&self) -> (r: Result<(), String>)
        ensures
            match r {
                Ok(()) => vpn_config_error(*self) is None,
                Err(e) => vpn_config_error(*self) == Some(e@),
            },
    {
        match self.provider {
            VpnProvider::Tailscale => {
                match &self.tailscale {
                    None => {
                        return Err(
                            String::from_str(
                                "Tailscale configuration is required for Tailscale provider",
                            ),
                        );
                    },
                    Some(t) => {
                        if is_empty_text(&t.api_key) {
                            return Err(String::from_str("Tailscale API key cannot be empty"));
                        }
                        if is_empty_text(&t.tailnet) {
                            return Err(String::from_str("Tailscale tailnet cannot be empty"));
                        }
                    },
                }
            },
            VpnProvider::Headscale => {
                match &self.headscale {
                    None => {
                        return Err(
                            String::from_str(
                                "Headscale configuration is required for Headscale provider",
                            ),
                        );
                    },
                    Some(h) => {
                        if is_empty_text(&h.api_key) {
                            return Err(String::from_str("Headscale API key cannot be empty"));
                        }
                        if is_empty_text(&h.login_server) {
                            return Err(String::from_str("Headscale login server cannot be empty"));
                        }
                    },
                }
            },
        }
        Ok(())
    }

    /// Checks that the settings the provider needs are present: the API key
    /// and the tailnet (Tailscale) or the login server (Headscale).
    pub fn validate_env_for_provider(provider: &VpnProvider, settings: &VpnSettings) -> (r:
        Result<(), String>)
        ensures
            match r {
                Ok(()) => vpn_env_error(*provider, *settings) is None,
                Err(e) => vpn_env_error(*provider, *settings) == Some(e@),
            },
    {
        match provider {
            VpnProvider::Tailscale => {
                if settings.vpn_api_key.is_none() {
                    return Err(
                        String::from_str("Tailscale requires VPN_API_KEY environment variable"),
                    );
                }
                if settings.vpn_tailnet.is_none() {
                    return Err(
                        String::from_str("Tailscale requires VPN_TAILNET environment variable"),
                    );
                }
            },
            VpnProvider::Headscale => {
                if settings.vpn_api_key.is_none() {
                    return Err(
                        String::from_str("Headscale requires VPN_API_KEY environment variable"),
                    );
                }
                if settings.vpn_login_server.is_none() {
                    return Err(
                        String::from_str(
                            "Headscale requires VPN_LOGIN_SERVER environment variable",
                        ),
                    );
                }
            },
        }
        Ok(())
    }
}

/// The provider a `VPN_PROVIDER` value selects.
pub fn provider_from_setting(setting: &Option<String>) -> (p: VpnProvider)
    ensures
        p == provider_for(*setting),
{
    match setting {
        Some(v) => if text_eq(v.as_str(), "headscale") || text_eq(v.as_str(), "Headscale") {
            VpnProvider::Headscale
        } else {
            VpnProvider::Tailscale
        },
        None => VpnProvider::Tailscale,
    }
}

/// The first of two settings that is present.
pub open spec fn first_present(a: Option<String>, b: Option<String>) -> Option<String> {
    match a {
        Some(x) => Some(x),
        None => b,
    }
}

/// The settings with the legacy variables filled in where the `VPN_*` ones
/// are missing: `TAILSCALE_API_KEY`, then `TS_API_KEY`, for `VPN_API_KEY`,
/// and `TAILSCALE_TAILNET` for `VPN_TAILNET`.
pub fn with_legacy_settings(
    settings: VpnSettings,
    tailscale_api_key: Option<String>,
    ts_api_key: Option<String>,
    tailscale_tailnet: Option<String>,
) -> (r: VpnSettings)
    ensures
        r.vpn_api_key == first_present(
            settings.vpn_api_key,
            first_present(tailscale_api_key, ts_api_key),
        ),
        r.vpn_tailnet == first_present(settings.vpn_tailnet, tailscale_tailnet),
        r.vpn_provider == settings.vpn_provider,
        r.vpn_login_server == settings.vpn_login_server,
        r.vpn_organization == settings.vpn_organization,
{
    let legacy_key = match tailscale_api_key {
        Some(k) => Some(k),
        None => ts_api_key,
    };
    let api_key = match settings.vpn_api_key {
        Some(k) => Some(k),
        None => legacy_key,
    };
    let tailnet = match settings.vpn_tailnet {
        Some(t) => Some(t),
        None => tailscale_tailnet,
    };
    VpnSettings {
        vpn_provider: settings.vpn_provider,
        vpn_api_key: api_key,
        vpn_tailnet: tailnet,
        vpn_login_server: settings.vpn_login_server,
        vpn_organization: settings.vpn_organization,
    }
}

/// The configuration the server starts its VPN client with: the provider is
/// chosen from `VPN_PROVIDER`, its settings must be present, and the
/// resulting configuration must validate.
pub fn vpn_config_from_settings(settings: &VpnSettings) -> (r: Result<VpnConfig, String>)
    ensures
        match r {
            Ok(c) => vpn_settings_error(*settings) is None && c == config_for(
                provider_for(settings.vpn_provider),
                *settings,
            ),
            Err(e) => vpn_settings_error(*settings) == Some(e@),
        },
{
    let provider = provider_from_setting(&settings.vpn_provider);
    match VpnConfig::validate_env_for_provider(&provider, settings) {
        Err(e) => {
            return Err(concat2("Environment validation failed: ", e.as_str()));
        },
        Ok(()) => {},
    }
    let config = match provider {
        VpnProvider::Tailscale => VpnConfig::tailscale(
            cloned_text(&settings.vpn_api_key),
            cloned_text(&settings.vpn_tailnet),
        ),
        VpnProvider::Headscale => {
            let organization = match &settings.vpn_organization {
                Some(o) => Some(o.clone()),
                None => None,
            };
            VpnConfig::headscale(
                cloned_text(&settings.vpn_api_key),
                cloned_text(&settings.vpn_login_server),
                organization,
            )
        },
    };
    match config.validate() {
        Err(e) => Err(concat2("VPN configuration validation failed: ", e.as_str())),
        Ok(()) => Ok(config),
    }
}

/// Law: a configuration validates exactly when its provider's settings are
/// present with a non-empty key and a non-empty tailnet (Tailscale) or login
/// server (Headscale); an empty key is refused before the other setting is
/// looked at.
pub proof fn law_validation(c: VpnConfig)
    ensures
        (vpn_config_error(c) is None) <==> (match c.provider {
            VpnProvider::Tailscale => c.tailscale matches Some(t) && t.api_key@.len() > 0
                && t.tailnet@.len() > 0,
            VpnProvider::Headscale => c.headscale matches Some(h) && h.api_key@.len() > 0
                && h.login_server@.len() > 0,
        }),
        c.provider == VpnProvider::Tailscale ==> (c.tailscale matches Some(t) && t.api_key@.len()
            == 0 ==> vpn_config_error(c) == Some("Tailscale API key cannot be empty"@)),
        c.provider == VpnProvider::Headscale ==> (c.headscale matches Some(h) && h.api_key@.len()
            == 0 ==> vpn_config_error(c) == Some("Headscale API key cannot be empty"@)),
{
}

/// Law: settings the server accepts give a configuration that validates,
/// for the provider `VPN_PROVIDER` selects.
pub proof fn law_accepted_settings_validate(s: VpnSettings)
    requires
        vpn_settings_error(s) is None,
    ensures
        vpn_config_error(config_for(provider_for(s.vpn_provider), s)) is None,
        config_for(provider_for(s.vpn_provider), s).provider == provider_for(s.vpn_provider),
{
}

// ---------------------------------------------------------------------------
// Device names
// ---------------------------------------------------------------------------

/// The VPN device name of a container.
pub open spec fn device_name(container_id: Seq<char>) -> Seq<char> {
    "container-"@ + container_id
}

/// A VPN client.  Providers implement the remote operations; every client
/// names the device of a container `container-<id>`.
pub trait VpnClient {
    /// Device name of the container with this id.
    fn get_device_name(&self, container_id: &str) -> (r: String)
        ensures
            r@ == device_name(container_id@),
    {
        concat2("container-", container_id)
    }
}

/// Device name of a container through the installed client; refused when no
/// client is installed.
pub fn get_device_name_for_container<C: VpnClient>(client: Option<&C>, container_id: &str) -> (r:
    Result<String, String>)
    ensures
        match r {
            Ok(n) => client is Some && n@ == device_name(container_id@),
            Err(e) => client is None && e@ == "VPN client not initialized"@,
        },
{
    match client {
        Some(c) => Ok(c.get_device_name(container_id)),
        None => Err(String::from_str("VPN client not initialized")),
    }
}

/// Law: different containers get different device names.
pub proof fn law_device_names_distinct(a: Seq<char>, b: Seq<char>)
    requires
        a != b,
    ensures
        device_name(a) != device_name(b),
{
    let p = "container-"@;
    if device_name(a) == device_name(b) {
        assert(device_name(a).subrange(p.len() as int, device_name(a).len() as int) =~= a);
        assert(device_name(b).subrange(p.len() as int, device_name(b).len() as int) =~= b);
    }
}

// ---------------------------------------------------------------------------
// IPv4 addresses
// ---------------------------------------------------------------------------

/// One dotted-decimal component: one to three ASCII digits, no leading zero
/// (except `0` itself), at most 255.
pub open spec fn is_ipv4_octet(p: Seq<char>) -> bool {
    &&& 1 <= p.len() <= 3
    &&& all_digits(p)
    &&& (p.len() == 1 || p[0] != '0')
    &&& digits_value(p) <= 255
}

/// `s` is an IPv4 address in dotted-decimal form: four components separated
/// by dots, nothing else (the form `IpAddr` parses as an IPv4 address).
pub open spec fn is_ipv4_text(s: Seq<char>) -> bool {
    let parts = split_on(s, '.');
    parts.len() == 4 && forall|i: int| 0 <= i < 4 ==> #[trigger] is_ipv4_octet(parts[i])
}

/// The predicate "is an IPv4 address".
pub open spec fn ipv4_address() -> spec_fn(Seq<char>) -> bool {
    |s: Seq<char>| is_ipv4_text(s)
}

fn is_octet(p: &str) -> (b: bool)
    ensures
        b == is_ipv4_octet(p@),
{
    let n = p.unicode_len();
    if n < 1 || n > 3 {
        return false;
    }
    let mut v: u32 = 0;
    let mut i: usize = 0;
    proof {
        assert(p@.take(0) =~= Seq::<char>::empty());
    }
    while i < n
        invariant
            n == p@.len(),
            1 <= n <= 3,
            i <= n,
            all_digits(p@.take(i as int)),
            v == digits_value(p@.take(i as int)),
            i == 0 ==> v == 0,
            i == 1 ==> v < 10,
            i == 2 ==> v < 100,
            v < 1000,
        decreases n - i,
    {
        let c = p.get_char(i);
        proof {
            assert(p@.take(i + 1).drop_last() =~= p@.take(i as int));
            assert(p@.take(i + 1).last() == c);
        }
        if !('0' <= c && c <= '9') {
            proof {
                assert(!crate::text::is_digit(p@[i as int]));
            }
            return false;
        }
        v = v * 10 + ((c as u32) - ('0' as u32));
        proof {
            assert forall|j: int| 0 <= j < i + 1 implies #[trigger] crate::text::is_digit(
                p@.take(i + 1)[j],
            ) by {
                if j < i {
                    assert(p@.take(i + 1)[j] == p@.take(i as int)[j]);
                }
            }
        }
        i = i + 1;
    }
    proof {
        assert(p@.take(n as int) =~= p@);
    }
    if n > 1 && p.get_char(0) == '0' {
        return false;
    }
    v <= 255
}

/// Whether `s` is an IPv4 address in dotted-decimal form.
pub fn is_ipv4_address(s: &str) -> (b: bool)
    ensures
        b == is_ipv4_text(s@),
{
    let parts = split_char(s, '.');
    if parts.len() != 4 {
        return false;
    }
    let mut i: usize = 0;
    while i < 4
        invariant
            parts.len() == 4,
            strs(parts@) == split_on(s@, '.'),
            i <= 4,
            forall|j: int| 0 <= j < i ==> #[trigger] is_ipv4_octet(split_on(s@, '.')[j]),
        decreases 4 - i,
    {
        if !is_octet(parts[i].as_str()) {
            proof {
                assert(strs(parts@)[i as int] == parts@[i as int]@);
            }
            return false;
        }
        proof {
            assert(strs(parts@)[i as int] == parts@[i as int]@);
        }
        i = i + 1;
    }
    true
}

/// The first address of the list that is an IPv4 address.
pub fn first_ipv4(addresses: &Vec<String>) -> (r: Option<String>)
    ensures
        ({
            let k = first_index_where(strs(addresses@), ipv4_address());
            match r {
                Some(a) => k >= 0 && a@ == addresses@[k]@,
                None => k == -1,
            }
        }),
{
    let ghost p = ipv4_address();
    let mut i: usize = 0;
    while i < addresses.len()
        invariant
            i <= addresses.len(),
            p == ipv4_address(),
            forall|j: int| 0 <= j < i ==> !p(#[trigger] strs(addresses@)[j]),
        decreases addresses.len() - i,
    {
        if is_ipv4_address(addresses[i].as_str()) {
            proof {
                assert(strs(addresses@)[i as int] == addresses@[i as int]@);
                assert(is_first_match(strs(addresses@), p, i as int));
                lemma_first_match_unique(strs(addresses@), p, i as int);
            }
            return Some(addresses[i].clone());
        }
        proof {
            assert(strs(addresses@)[i as int] == addresses@[i as int]@);
        }
        i = i + 1;
    }
    proof {
        lemma_no_match(strs(addresses@), p);
    }
    None
}

} // verus!
