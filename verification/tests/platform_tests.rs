use nebulous::commands::headscale::validate_api_key_output;
use nebulous::commands::headscale::checked_api_key_status;
use nebulous::client::{qualified_name, request_failure, NebulousClient};
use nebulous::commands::exec::{exec_command_parts, exec_ssh_host};
use nebulous::commands::headscale::{
    api_key_status, create_api_key_command, list_api_keys_command, revoke_api_key_command,
    timestamp_command, ApiKeyEntry, ApiKeyExpiration,
};
use nebulous::commands::login::{
    check_auth_and_hub, check_login_name, hub_api_url, login_server_config, normalize_server_url,
};
use nebulous::config::{GlobalConfig, ServerConfig};
use nebulous::controllers::containers::{
    ContainerAction, ContainerController, ContainerStatus, ControllerContainer,
};
use nebulous::controllers::platforms::{
    platform_status, ContainerPlatformController, ContainerPlatformStatus as PlatformState,
    PlatformAction,
};
use nebulous::handlers::{new_secret_id, owner_ids, secret_deletion_outcome, secret_id_from};
use nebulous::platforms::docker::{docker_container_from_inspect, DockerContainer, DockerPlatform};
use nebulous::platforms::factory::{create_platform_from_kind, PlatformKind};
use nebulous::platforms::http::HTTPConnection;
use nebulous::platforms::local::{local_connect_outcome, LocalShell};
use nebulous::platforms::platform::ContainerPlatformStatus;
use nebulous::platforms::ssh::{SSHConnection, SshSpec};
use nebulous::resources::v1::containers::platforms::gce::{GCEPlatform, GceSpec};
use nebulous::resources::v1::containers::platforms::nebulous::NebulousPlatform;
use nebulous::resources::v1::platforms::models::V1ContainerPlatform;
use nebulous::resources::v1::processors::base::ProcessorStatus;
use nebulous::resources::v1::volumes::models::{
    default_cache_dir, default_continuous, default_volume_driver, default_volume_kind,
    V1VolumeDriver,
};
use std::sync::Arc;

fn ssh_spec() -> SshSpec {
    SshSpec {
        host: "h".to_string(),
        port: 22,
        username: "u".to_string(),
        private_key: "k".to_string(),
    }
}

// ---------------------------------------------------------------- processors and volumes

#[test]
fn processor_status_lists() {
    assert_eq!(
        ProcessorStatus::inactive(),
        vec![ProcessorStatus::Failed, ProcessorStatus::Stopped, ProcessorStatus::Invalid]
    );
    assert_eq!(ProcessorStatus::active().len(), 6);
    for s in ProcessorStatus::active() {
        assert!(s.is_active());
        assert!(!s.is_inactive());
    }
    for s in ProcessorStatus::inactive() {
        assert!(s.is_inactive());
        assert!(!s.needs_start());
        assert!(!s.needs_watch());
    }
}

#[test]
fn processor_status_work() {
    assert!(ProcessorStatus::Defined.needs_start());
    assert!(ProcessorStatus::Scaling.needs_start());
    assert!(ProcessorStatus::Scaling.needs_watch());
    assert!(ProcessorStatus::Pending.needs_start());
    assert!(!ProcessorStatus::Pending.needs_watch());
    assert!(ProcessorStatus::Running.needs_watch());
    assert!(ProcessorStatus::Created.needs_watch());
    assert!(!ProcessorStatus::Running.needs_start());
}

#[test]
fn processor_status_text_round_trip() {
    let all = [
        ProcessorStatus::Defined,
        ProcessorStatus::Scaling,
        ProcessorStatus::Pending,
        ProcessorStatus::Running,
        ProcessorStatus::Failed,
        ProcessorStatus::Stopped,
        ProcessorStatus::Creating,
        ProcessorStatus::Created,
    ];
    for s in all {
        assert_eq!(ProcessorStatus::from_str(&s.to_string()), Ok(s));
        assert_eq!(ProcessorStatus::from_str(&s.to_string().to_uppercase()), Ok(s));
    }
    assert_eq!(ProcessorStatus::Invalid.to_string(), "invalid");
    assert_eq!(
        ProcessorStatus::from_str("invalid"),
        Err("Unknown processor status: invalid".to_string())
    );
    assert_eq!(ProcessorStatus::from_str("RuNnInG"), Ok(ProcessorStatus::Running));
    assert_eq!(
        ProcessorStatus::from_str("bogus"),
        Err("Unknown processor status: bogus".to_string())
    );
}

#[test]
fn volume_defaults() {
    assert_eq!(default_volume_kind(), "Volume");
    assert_eq!(default_volume_driver(), V1VolumeDriver::RcloneSync);
    assert_eq!(V1VolumeDriver::default(), V1VolumeDriver::RcloneSync);
    assert!(!default_continuous());
    assert_eq!(default_cache_dir(), "/nebu/cache");
    assert_eq!(V1VolumeDriver::RcloneSync.to_string(), "rclone-sync");
    assert_eq!(V1VolumeDriver::RcloneCopy.to_string(), "rclone-copy");
    assert_eq!(V1VolumeDriver::RcloneBisync.to_string(), "rclone-bisync");
    assert_eq!(V1VolumeDriver::RcloneMount.to_string(), "rclone-mount");
}

// ---------------------------------------------------------------- shell platforms

#[test]
fn docker_commands() {
    let p = DockerPlatform::new(LocalShell {});
    let c = DockerContainer { image: "nginx:1".to_string() };
    assert_eq!(p.create_command(&c), "docker run -d nginx:1");
    assert_eq!(p.get_command("abc"), "docker inspect abc");
    assert_eq!(p.delete_command("abc"), "docker rm -f abc");
    assert_eq!(p.logs_command("abc"), "docker logs --tail 1000 abc");
    assert_eq!(p.exec_command("abc", "ls -la"), "docker exec -it abc ls -la");
}

#[test]
fn docker_outcomes() {
    let p = DockerPlatform::new(LocalShell {});
    assert_eq!(p.delete_outcome(""), Ok(()));
    assert_eq!(p.delete_outcome("boom"), Err("Failed to delete container: boom".to_string()));
    assert_eq!(p.status_from(true), ContainerPlatformStatus::Ready);
    assert_eq!(p.status_from(false), ContainerPlatformStatus::DoNotSchedule);
    assert_eq!(docker_container_from_inspect(Some("img".to_string())).image, "img");
    assert_eq!(docker_container_from_inspect(None).image, "");
}

#[test]
fn local_shell_outcome() {
    assert_eq!(local_connect_outcome(true), Ok(()));
    assert_eq!(local_connect_outcome(false), Err("Failed to connect to local shell".to_string()));
}

#[test]
fn http_connection_urls() {
    let c = HTTPConnection { host: "http://h:8080".to_string(), health_check_path: "health".to_string() };
    assert_eq!(c.url("v1/x"), "http://h:8080/v1/x");
    assert_eq!(c.health_check_url(), "http://h:8080/health");
    assert!(HTTPConnection::is_connected_from(true));
    assert!(!HTTPConnection::is_connected_from(false));
}

#[test]
fn ssh_connection() {
    let c = SSHConnection::from_spec(ssh_spec());
    assert_eq!(c.host, "h");
    assert_eq!(c.port, 22);
    assert_eq!(c.username, "u");
    assert_eq!(c.private_key, "k");
    assert_eq!(c.connect(), Ok(()));
    assert_eq!(c.disconnect(), Ok(()));
    assert!(c.is_connected());
    assert_eq!(c.run_command("uptime"), Ok("Executed command: uptime".to_string()));
}

#[test]
fn gce_platform() {
    let spec = GceSpec { gce_zone: "z".to_string(), gce_instance: "i".to_string(), ssh: ssh_spec() };
    assert_eq!(GCEPlatform::validate(&spec), Ok(()));
    let p = GCEPlatform::from_spec(spec);
    assert_eq!(p.gce_zone, "z");
    assert_eq!(p.gce_instance, "i");
    assert_eq!(p.inner.connection.host, "h");
    let c = DockerContainer { image: "x".to_string() };
    assert_eq!(p.create_command(&c), "docker run -d x");
    assert_eq!(p.get_command("1"), "docker inspect 1");
    assert_eq!(p.delete_command("1"), "docker rm -f 1");
    let bad = GceSpec { gce_zone: String::new(), gce_instance: String::new(), ssh: ssh_spec() };
    assert_eq!(GCEPlatform::validate(&bad), Err("GCE zone is required".to_string()));
    let bad = GceSpec { gce_zone: "z".to_string(), gce_instance: String::new(), ssh: ssh_spec() };
    assert_eq!(GCEPlatform::validate(&bad), Err("GCE instance is required".to_string()));
    let direct = GCEPlatform::new("a".to_string(), "b".to_string(), SSHConnection::from_spec(ssh_spec()));
    assert_eq!(direct.gce_zone, "a");
}

#[test]
fn nebulous_platform_keeps_connection() {
    let p = NebulousPlatform::new(5u8);
    assert_eq!(p.connection, 5);
}

#[test]
fn platform_kinds() {
    assert_eq!(PlatformKind::from_str("local-docker"), Ok(PlatformKind::LocalDocker));
    assert_eq!(PlatformKind::from_str("remote-docker"), Ok(PlatformKind::RemoteDocker));
    assert_eq!(PlatformKind::from_str("ec2"), Ok(PlatformKind::EC2));
    assert_eq!(PlatformKind::from_str("gce"), Ok(PlatformKind::GCE));
    assert_eq!(create_platform_from_kind("nebulous"), Ok(PlatformKind::Nebulous));
    assert_eq!(
        create_platform_from_kind("lambda"),
        Err("Unknown platform kind: lambda".to_string())
    );
}

// ---------------------------------------------------------------- controllers

#[test]
fn container_controller_actions() {
    type C = ContainerController<()>;
    assert_eq!(C::action_for(ContainerStatus::Pending), ContainerAction::Schedule);
    assert_eq!(C::action_for(ContainerStatus::Scheduled), ContainerAction::Schedule);
    assert_eq!(C::action_for(ContainerStatus::Creating), ContainerAction::Watch);
    assert_eq!(C::action_for(ContainerStatus::Running), ContainerAction::Watch);
    assert_eq!(C::action_for(ContainerStatus::Unreachable), ContainerAction::Watch);
    assert_eq!(C::action_for(ContainerStatus::Stopping), ContainerAction::Watch);
    assert_eq!(C::action_for(ContainerStatus::Killed), ContainerAction::Kill);
    assert_eq!(C::action_for(ContainerStatus::Finished), ContainerAction::Nothing);
    assert_eq!(C::action_for(ContainerStatus::Failed), ContainerAction::Nothing);
    let c = ContainerController::new(Arc::new(()));
    assert_eq!(c.handle_action(), ContainerAction::Schedule);
}

#[test]
fn container_status_names() {
    for (s, v) in [
        ("Pending", ContainerStatus::Pending),
        ("Scheduled", ContainerStatus::Scheduled),
        ("Creating", ContainerStatus::Creating),
        ("Running", ContainerStatus::Running),
        ("Unreachable", ContainerStatus::Unreachable),
        ("Killed", ContainerStatus::Killed),
        ("Stopping", ContainerStatus::Stopping),
        ("Finished", ContainerStatus::Finished),
        ("Failed", ContainerStatus::Failed),
    ] {
        assert_eq!(ContainerStatus::from_string(s), v);
    }
}

#[test]
fn container_requested_platform() {
    let c = ControllerContainer {
        id: "c1".to_string(),
        status: ContainerStatus::Pending,
        platform: Some("kube".to_string()),
    };
    assert_eq!(ContainerController::<()>::requested_platform(&c), Ok("kube".to_string()));
    let c = ControllerContainer { id: "c2".to_string(), status: ContainerStatus::Pending, platform: None };
    assert_eq!(
        ContainerController::<()>::requested_platform(&c),
        Err("No platform specified for container c2".to_string())
    );
}

#[test]
fn platform_controller_actions() {
    type P = ContainerPlatformController<()>;
    assert_eq!(P::action_for(PlatformState::Started), PlatformAction::Initialize);
    assert_eq!(P::action_for(PlatformState::Initializing), PlatformAction::Watch);
    assert_eq!(P::action_for(PlatformState::Available), PlatformAction::Watch);
    assert_eq!(P::action_for(PlatformState::Unavailable), PlatformAction::Watch);
    assert_eq!(P::action_for(PlatformState::Terminating), PlatformAction::Watch);
    assert_eq!(P::action_for(PlatformState::Stopped), PlatformAction::Terminate);
    assert_eq!(P::action_for(PlatformState::Terminated), PlatformAction::Nothing);
    let p = V1ContainerPlatform {};
    assert_eq!(platform_status(&p), PlatformState::Available);
    let c = ContainerPlatformController::new(Arc::new(1u32));
    assert_eq!(c.handle_action(&p), PlatformAction::Watch);
}

// ---------------------------------------------------------------- client

fn config_with(server: Option<&str>, key: Option<&str>) -> GlobalConfig {
    let mut c = GlobalConfig::default();
    c.update_server(
        ServerConfig {
            name: "s".to_string(),
            api_key: key.map(String::from),
            server: server.map(String::from),
            auth_server: None,
        },
        true,
    );
    c
}

#[test]
fn client_from_config() {
    let c = NebulousClient::new_from_config(&config_with(Some("http://n"), Some("k"))).unwrap();
    assert_eq!(c.base_url, "http://n");
    assert_eq!(c.api_key, "k");
    assert_eq!(
        NebulousClient::new_from_config(&GlobalConfig::default()).unwrap_err(),
        "No current server config found"
    );
    assert_eq!(
        NebulousClient::new_from_config(&config_with(None, Some("k"))).unwrap_err(),
        "Server URL not found in config"
    );
    assert_eq!(
        NebulousClient::new_from_config(&config_with(Some("u"), None)).unwrap_err(),
        "API key not found in config"
    );
}

#[test]
fn client_urls() {
    let c = NebulousClient::new("http://n".to_string(), "key".to_string());
    assert_eq!(c.authorization(), "Bearer key");
    assert_eq!(c.containers_url(), "http://n/v1/containers");
    assert_eq!(c.secrets_url(), "http://n/v1/secrets");
    assert_eq!(c.container_url("web", None), "http://n/v1/containers/default/web");
    assert_eq!(c.container_url("web", Some("ns")), "http://n/v1/containers/ns/web");
    assert_eq!(c.secret_url("s", Some("ns")), "http://n/v1/secrets/ns/s");
    assert_eq!(c.get_containers_url(None, Some("ns")), "http://n/v1/containers");
    assert_eq!(c.get_containers_url(Some("a"), None), "http://n/v1/containers/default/a");
    assert_eq!(c.get_secrets_url(None, None), "http://n/v1/secrets");
    assert_eq!(c.get_secrets_url(Some("a"), Some("x")), "http://n/v1/secrets/x/a");
    assert_eq!(request_failure("delete container", "404"), "Failed to delete container: 404");
    assert_eq!(qualified_name("a", None), "default/a");
    assert_eq!(qualified_name("a", Some("n")), "n/a");
}

// ---------------------------------------------------------------- commands

#[test]
fn exec_helpers() {
    assert_eq!(exec_ssh_host("abc"), "container-abc");
    assert_eq!(exec_command_parts("  ls   -la /tmp "), vec!["ls", "-la", "/tmp"]);
    assert!(exec_command_parts("   ").is_empty());
}

#[test]
fn headscale_commands() {
    assert_eq!(
        create_api_key_command("90d"),
        vec!["headscale", "apikeys", "create", "--expiration", "90d"]
    );
    assert_eq!(list_api_keys_command(), vec!["headscale", "apikeys", "list", "-o", "json"]);
    assert_eq!(timestamp_command(), vec!["date", "+%s%N"]);
    assert_eq!(
        revoke_api_key_command("abc"),
        vec!["headscale", "apikeys", "expire", "--prefix", "abc"]
    );
}

fn key(prefix: Option<&str>, exp: Option<(i64, i64)>) -> ApiKeyEntry {
    ApiKeyEntry {
        prefix: prefix.map(String::from),
        expiration: exp.map(|(s, n)| ApiKeyExpiration { seconds: Some(s), nanos: Some(n) }),
    }
}

#[test]
fn headscale_key_status() {
    let keys = vec![key(None, None), key(Some("aaa"), Some((100, 5))), key(Some("aaa"), None)];
    assert_eq!(api_key_status(&keys, "zzz", "0"), Ok(false));
    assert_eq!(api_key_status(&keys, "aaa", "100000000004"), Ok(true));
    assert_eq!(api_key_status(&keys, "aaa", "100000000005"), Ok(true));
    assert_eq!(api_key_status(&keys, "aaa", "100000000006"), Ok(false));
    let keys = vec![key(Some("bbb"), None)];
    assert_eq!(
        api_key_status(&keys, "bbb", "1"),
        Err("API key with prefix bbb has no expiration time".to_string())
    );
}

#[test]
fn login_url_normalisation() {
    assert_eq!(normalize_server_url(" https://x.io// "), "https://x.io");
    assert_eq!(normalize_server_url("https://x.io"), "https://x.io");
    assert_eq!(normalize_server_url("///"), "");
    assert_eq!(hub_api_url("https://hub.io/"), "https://hub.io/settings/api");
}

#[test]
fn login_checks() {
    assert_eq!(check_auth_and_hub(&None, &None), Ok(()));
    assert_eq!(check_auth_and_hub(&Some("a".to_string()), &Some("h".to_string())), Ok(()));
    let msg = "Either auth or hub URL provided. Please provide both or neither.".to_string();
    assert_eq!(check_auth_and_hub(&Some("a".to_string()), &None), Err(msg.clone()));
    assert_eq!(check_auth_and_hub(&None, &Some("h".to_string())), Err(msg));
    let cfg = config_with(Some("u"), Some("k"));
    assert_eq!(check_login_name(&cfg, "other", false), Ok(()));
    assert_eq!(check_login_name(&cfg, "s", true), Ok(()));
    assert_eq!(
        check_login_name(&cfg, "s", false),
        Err("Server with name 's' already exists. Please choose a different name or set --update flag."
            .to_string())
    );
}

#[test]
fn login_record() {
    let s = login_server_config(
        "n".to_string(),
        "http://u".to_string(),
        "k".to_string(),
        Some("http://a".to_string()),
    );
    assert_eq!(s.name, "n");
    assert_eq!(s.server.as_deref(), Some("http://u"));
    assert_eq!(s.api_key.as_deref(), Some("k"));
    assert_eq!(s.auth_server.as_deref(), Some("http://a"));
}

// ---------------------------------------------------------------- handlers

#[test]
fn owners_are_orgs_then_user() {
    let r = owner_ids(vec!["org1".to_string(), "org2".to_string()], &"me@x".to_string());
    assert_eq!(r, vec!["org1", "org2", "me@x"]);
    assert_eq!(owner_ids(vec![], &"me".to_string()), vec!["me"]);
}

#[test]
fn secret_ids_and_deletion() {
    assert_eq!(secret_id_from("abc"), "secret-abc");
    let a = new_secret_id();
    let b = new_secret_id();
    assert_eq!(a.len(), 43);
    assert!(a.starts_with("secret-"));
    assert_ne!(a, b);
    assert_eq!(secret_deletion_outcome(1), Ok(()));
    assert_eq!(
        secret_deletion_outcome(0),
        Err("Secret not found or already deleted".to_string())
    );
}

#[test]
fn headscale_checked_key_status() {
    let keys = vec![key(Some("aaa"), Some((100, 5)))];
    assert_eq!(checked_api_key_status(&keys, "aaa", "100000000004"), Some(Ok(true)));
    assert_eq!(checked_api_key_status(&keys, "aaa", "100000000006"), Some(Ok(false)));
    assert_eq!(checked_api_key_status(&keys, "aaa", "12\n"), None);
    assert_eq!(checked_api_key_status(&keys, "zzz", "not a number"), Some(Ok(false)));
    let keys = vec![key(Some("big"), Some((i64::MAX, 0)))];
    assert_eq!(checked_api_key_status(&keys, "big", "1"), None);
    let keys = vec![ApiKeyEntry {
        prefix: Some("p".to_string()),
        expiration: Some(ApiKeyExpiration { seconds: Some(1), nanos: None }),
    }];
    assert_eq!(checked_api_key_status(&keys, "p", "1"), None);
    let keys = vec![key(Some("n"), None)];
    assert_eq!(
        checked_api_key_status(&keys, "n", "x"),
        Some(Err("API key with prefix n has no expiration time".to_string()))
    );
}

#[test]
fn headscale_key_list_output() {
    let list = r#"[{"prefix":"aaa","expiration":{"seconds":100,"nanos":5}},{"prefix":"bbb"},{"prefix":7}]"#;
    assert_eq!(validate_api_key_output(list, "aaa", "100000000004"), Some(Ok(true)));
    assert_eq!(validate_api_key_output(list, "aaa", "100000000006"), Some(Ok(false)));
    assert_eq!(validate_api_key_output(list, "zzz", "1"), Some(Ok(false)));
    assert_eq!(
        validate_api_key_output(list, "bbb", "1"),
        Some(Err("API key with prefix bbb has no expiration time".to_string()))
    );
    assert_eq!(validate_api_key_output(list, "aaa", "1\n"), None);
    let no_nanos = r#"[{"prefix":"p","expiration":{"seconds":1}}]"#;
    assert_eq!(validate_api_key_output(no_nanos, "p", "1"), None);
    let broken = "not json";
    let expected = serde_json::from_str::<Vec<serde_json::Value>>(broken).unwrap_err().to_string();
    assert_eq!(validate_api_key_output(broken, "p", "1"), Some(Err(expected)));
}
