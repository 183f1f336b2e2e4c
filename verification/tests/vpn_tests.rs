use nebulous::vpn::with_legacy_settings;
use nebulous::vpn::headscale::{
    headscale_auth_key, headscale_device, headscale_device_ip, should_remove_device,
    HeadscaleError,
};
use nebulous::vpn::tailscale::{auth_key_from_response, auth_key_request, tailscale_device_ip};
use nebulous::vpn::{
    first_ipv4, get_device_name_for_container, is_ipv4_address, provider_from_setting,
    vpn_config_from_settings, VpnClient, VpnConfig, VpnCreateOpts, VpnDevice,
    VpnDeviceCapabilities, VpnKeyCapabilities, VpnProvider, VpnSettings,
};

struct TestClient;

impl VpnClient for TestClient {}

fn settings(
    provider: Option<&str>,
    key: Option<&str>,
    tailnet: Option<&str>,
    login: Option<&str>,
    org: Option<&str>,
) -> VpnSettings {
    VpnSettings {
        vpn_provider: provider.map(String::from),
        vpn_api_key: key.map(String::from),
        vpn_tailnet: tailnet.map(String::from),
        vpn_login_server: login.map(String::from),
        vpn_organization: org.map(String::from),
    }
}

fn strings(v: &[&str]) -> Vec<String> {
    v.iter().map(|s| s.to_string()).collect()
}

#[test]
fn validate_accepts_complete_tailscale() {
    let c = VpnConfig::tailscale("k".to_string(), "net".to_string());
    assert_eq!(c.provider, VpnProvider::Tailscale);
    assert_eq!(c.validate(), Ok(()));
}

#[test]
fn validate_rejects_empty_tailscale_fields() {
    let c = VpnConfig::tailscale(String::new(), "net".to_string());
    assert_eq!(c.validate(), Err("Tailscale API key cannot be empty".to_string()));
    let c = VpnConfig::tailscale("k".to_string(), String::new());
    assert_eq!(c.validate(), Err("Tailscale tailnet cannot be empty".to_string()));
}

#[test]
fn validate_rejects_missing_provider_section() {
    let mut c = VpnConfig::tailscale("k".to_string(), "n".to_string());
    c.tailscale = None;
    assert_eq!(
        c.validate(),
        Err("Tailscale configuration is required for Tailscale provider".to_string())
    );
    let mut h = VpnConfig::headscale("k".to_string(), "https://hs".to_string(), None);
    h.headscale = None;
    assert_eq!(
        h.validate(),
        Err("Headscale configuration is required for Headscale provider".to_string())
    );
}

#[test]
fn validate_headscale() {
    let h = VpnConfig::headscale("k".to_string(), "https://hs".to_string(), Some("o".to_string()));
    assert_eq!(h.validate(), Ok(()));
    let h = VpnConfig::headscale(String::new(), "https://hs".to_string(), None);
    assert_eq!(h.validate(), Err("Headscale API key cannot be empty".to_string()));
    let h = VpnConfig::headscale("k".to_string(), String::new(), None);
    assert_eq!(h.validate(), Err("Headscale login server cannot be empty".to_string()));
}

#[test]
fn env_checks_per_provider() {
    let s = settings(None, None, Some("n"), None, None);
    assert_eq!(
        VpnConfig::validate_env_for_provider(&VpnProvider::Tailscale, &s),
        Err("Tailscale requires VPN_API_KEY environment variable".to_string())
    );
    let s = settings(None, Some("k"), None, None, None);
    assert_eq!(
        VpnConfig::validate_env_for_provider(&VpnProvider::Tailscale, &s),
        Err("Tailscale requires VPN_TAILNET environment variable".to_string())
    );
    assert_eq!(
        VpnConfig::validate_env_for_provider(&VpnProvider::Headscale, &s),
        Err("Headscale requires VPN_LOGIN_SERVER environment variable".to_string())
    );
    let s = settings(None, None, None, Some("l"), None);
    assert_eq!(
        VpnConfig::validate_env_for_provider(&VpnProvider::Headscale, &s),
        Err("Headscale requires VPN_API_KEY environment variable".to_string())
    );
    let s = settings(None, Some("k"), Some("n"), Some("l"), None);
    assert_eq!(VpnConfig::validate_env_for_provider(&VpnProvider::Tailscale, &s), Ok(()));
    assert_eq!(VpnConfig::validate_env_for_provider(&VpnProvider::Headscale, &s), Ok(()));
}

#[test]
fn provider_selection() {
    assert_eq!(provider_from_setting(&None), VpnProvider::Tailscale);
    assert_eq!(provider_from_setting(&Some("headscale".to_string())), VpnProvider::Headscale);
    assert_eq!(provider_from_setting(&Some("Headscale".to_string())), VpnProvider::Headscale);
    assert_eq!(provider_from_setting(&Some("HEADSCALE".to_string())), VpnProvider::Tailscale);
    assert_eq!(provider_from_setting(&Some("tailscale".to_string())), VpnProvider::Tailscale);
}

#[test]
fn config_from_settings_tailscale() {
    let s = settings(None, Some("key"), Some("tn"), None, None);
    let c = vpn_config_from_settings(&s).unwrap();
    assert_eq!(c.provider, VpnProvider::Tailscale);
    let t = c.tailscale.unwrap();
    assert_eq!(t.api_key, "key");
    assert_eq!(t.tailnet, "tn");
    assert!(c.headscale.is_none());
}

#[test]
fn config_from_settings_headscale() {
    let s = settings(Some("headscale"), Some("key"), None, Some("https://hs"), Some("org"));
    let c = vpn_config_from_settings(&s).unwrap();
    assert_eq!(c.provider, VpnProvider::Headscale);
    let h = c.headscale.unwrap();
    assert_eq!(h.api_key, "key");
    assert_eq!(h.login_server, "https://hs");
    assert_eq!(h.organization.as_deref(), Some("org"));
}

#[test]
fn config_from_settings_errors() {
    let s = settings(None, None, Some("tn"), None, None);
    assert_eq!(
        vpn_config_from_settings(&s).unwrap_err(),
        "Environment validation failed: Tailscale requires VPN_API_KEY environment variable"
    );
    let s = settings(None, Some(""), Some("tn"), None, None);
    assert_eq!(
        vpn_config_from_settings(&s).unwrap_err(),
        "VPN configuration validation failed: Tailscale API key cannot be empty"
    );
}

#[test]
fn accepted_settings_validate_example() {
    let s = settings(Some("headscale"), Some("k"), None, Some("https://x"), None);
    let c = vpn_config_from_settings(&s).unwrap();
    assert_eq!(c.validate(), Ok(()));
}

#[test]
fn device_names() {
    let c = TestClient;
    assert_eq!(c.get_device_name("abc"), "container-abc");
    assert_eq!(
        get_device_name_for_container(Some(&c), "abc"),
        Ok("container-abc".to_string())
    );
    assert_eq!(
        get_device_name_for_container::<TestClient>(None, "abc"),
        Err("VPN client not initialized".to_string())
    );
    assert_ne!(c.get_device_name("a"), c.get_device_name("b"));
}

#[test]
fn ipv4_recognition() {
    for (s, ok) in [
        ("100.64.0.1", true),
        ("0.0.0.0", true),
        ("255.255.255.255", true),
        ("256.1.1.1", false),
        ("01.2.3.4", false),
        ("1.2.3", false),
        ("1.2.3.4.5", false),
        ("fd7a:115c::1", false),
        ("", false),
        ("1..3.4", false),
        ("a.b.c.d", false),
    ] {
        assert_eq!(is_ipv4_address(s), ok, "{}", s);
    }
}

#[test]
fn first_ipv4_picks_first() {
    let a = strings(&["fd7a:115c:a1e0::1", "100.101.102.103", "10.0.0.1"]);
    assert_eq!(first_ipv4(&a), Some("100.101.102.103".to_string()));
    assert_eq!(first_ipv4(&strings(&["fd7a::1"])), None);
    assert_eq!(first_ipv4(&Vec::new()), None);
}

#[test]
fn tailscale_ip_outcomes() {
    assert_eq!(
        tailscale_device_ip("h", None),
        Err("No Tailscale device found with hostname 'h'".to_string())
    );
    assert_eq!(
        tailscale_device_ip("h", Some(None)),
        Err("Tailscale device 'h' has no addresses listed".to_string())
    );
    assert_eq!(
        tailscale_device_ip("h", Some(Some(strings(&["fd7a::1"])))),
        Err("No IPv4 address found for Tailscale device 'h'".to_string())
    );
    assert_eq!(
        tailscale_device_ip("h", Some(Some(strings(&["fd7a::1", "100.1.2.3"])))),
        Ok("100.1.2.3".to_string())
    );
}

#[test]
fn headscale_ip_outcomes() {
    assert_eq!(
        headscale_device_ip("h", None),
        Err("No Headscale device found with hostname 'h'".to_string())
    );
    assert_eq!(
        headscale_device_ip("h", Some(strings(&["::1"]))),
        Err("No IPv4 address found for Headscale device 'h'".to_string())
    );
    assert_eq!(
        headscale_device_ip("h", Some(strings(&["100.64.0.7"]))),
        Ok("100.64.0.7".to_string())
    );
}

#[test]
fn default_auth_key_request() {
    let r = auth_key_request("desc", None);
    assert_eq!(r.description, "desc");
    let o = r.create.unwrap();
    assert_eq!(o.reusable, Some(false));
    assert_eq!(o.ephemeral, Some(true));
    assert_eq!(o.preauthorized, Some(true));
    assert_eq!(o.tags, Some(vec!["tag:container".to_string()]));
}

#[test]
fn given_capabilities_are_sent() {
    let caps = VpnKeyCapabilities {
        devices: Some(VpnDeviceCapabilities {
            create: Some(VpnCreateOpts {
                reusable: Some(true),
                ephemeral: None,
                preauthorized: Some(false),
                tags: None,
            }),
        }),
    };
    let r = auth_key_request("d", Some(caps));
    let o = r.create.unwrap();
    assert_eq!(o.reusable, Some(true));
    assert_eq!(o.ephemeral, None);
    assert_eq!(o.preauthorized, Some(false));
    let r = auth_key_request("d", Some(VpnKeyCapabilities { devices: None }));
    assert!(r.create.is_none());
}

#[test]
fn auth_key_response() {
    let k = auth_key_from_response(
        Some("tskey-1".to_string()),
        Some("d".to_string()),
        Some("c".to_string()),
        None,
    )
    .unwrap();
    assert_eq!(k.key, "tskey-1");
    assert_eq!(k.description.as_deref(), Some("d"));
    assert_eq!(k.created.as_deref(), Some("c"));
    assert!(k.expires.is_none());
    assert_eq!(
        auth_key_from_response(None, None, None, None).unwrap_err(),
        "Server did not return a value in `key` from Tailscale API after key creation"
    );
}

#[test]
fn headscale_records() {
    let d = headscale_device("n".to_string(), None, strings(&["1.2.3.4"]), Some("t".to_string()));
    assert_eq!(d.name.as_deref(), Some("n"));
    assert_eq!(d.hostname.as_deref(), Some(""));
    assert_eq!(d.addresses, Some(strings(&["1.2.3.4"])));
    assert!(d.tags.is_none());
    assert_eq!(d.created.as_deref(), Some("t"));
    let d = headscale_device("n".to_string(), Some("g".to_string()), vec![], None);
    assert_eq!(d.hostname.as_deref(), Some("g"));
}

#[test]
fn headscale_key_times() {
    let k = headscale_auth_key("key".to_string(), "desc", None);
    assert_eq!(k.key, "key");
    assert_eq!(k.description.as_deref(), Some("desc"));
    let created = k.created.unwrap();
    let expires = k.expires.unwrap();
    assert!(created.contains('T'));
    assert_ne!(created, expires);
    assert!(k.capabilities.is_none());
}

#[test]
fn headscale_error_message() {
    let e = HeadscaleError::new("boom");
    assert_eq!(e.message(), "boom");
}

#[test]
fn removal_only_when_found() {
    assert!(!should_remove_device(&None));
    let d = VpnDevice { name: None, hostname: None, addresses: None, tags: None, created: None };
    assert!(should_remove_device(&Some(d)));
}

#[test]
fn legacy_variables_fill_missing_settings() {
    let s = settings(None, None, None, None, None);
    let r = with_legacy_settings(s, Some("tk".to_string()), Some("ts".to_string()), Some("net".to_string()));
    assert_eq!(r.vpn_api_key.as_deref(), Some("tk"));
    assert_eq!(r.vpn_tailnet.as_deref(), Some("net"));
    let s = settings(None, None, None, None, None);
    let r = with_legacy_settings(s, None, Some("ts".to_string()), None);
    assert_eq!(r.vpn_api_key.as_deref(), Some("ts"));
    assert!(r.vpn_tailnet.is_none());
    let s = settings(Some("headscale"), Some("vpn"), Some("t"), Some("l"), Some("o"));
    let r = with_legacy_settings(s, Some("tk".to_string()), Some("ts".to_string()), Some("net".to_string()));
    assert_eq!(r.vpn_api_key.as_deref(), Some("vpn"));
    assert_eq!(r.vpn_tailnet.as_deref(), Some("t"));
    assert_eq!(r.vpn_provider.as_deref(), Some("headscale"));
    assert_eq!(r.vpn_login_server.as_deref(), Some("l"));
    assert_eq!(r.vpn_organization.as_deref(), Some("o"));
    let c = vpn_config_from_settings(&with_legacy_settings(
        settings(None, None, None, None, None),
        Some("k".to_string()),
        None,
        Some("n".to_string()),
    ))
    .unwrap();
    assert_eq!(c.tailscale.unwrap().api_key, "k");
}
