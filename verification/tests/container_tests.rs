use nebulous::resources::v1::containers::ec2::Ec2DeclareStep as St;
use nebulous::resources::v1::containers::ec2::{
    ec2_watch_step, Ec2WatchAction as A, Ec2WatchEvent as Ev, Ec2WatchPhase, Ec2WatchState,
};
use base64::Engine;
use nebulous::models::V1ResourceMetaRequest;
use nebulous::resources::v1::containers::ec2;
use nebulous::resources::v1::containers::factory::{
    platform_factory, requested_platform, PlatformType,
};
use nebulous::resources::v1::containers::kube::{
    job_status_text, watch_job_step, JobStatusCounts, JobWatchAction, JobWatchEvent,
    JobWatchState, KubePlatform, MAX_JOB_WATCH_ERRORS,
};
use nebulous::resources::v1::containers::models::{
    container_from_row, new_container_identity, V1ContainerRequest, V1ContainerStatus, V1EnvVar,
};
use nebulous::resources::v1::containers::nebius;
use nebulous::resources::v1::containers::nebius::{nebius_watch_step, NebiusPoll, NebiusWatchAction};
use nebulous::resources::v1::containers::ec2::{Ec2InstanceState as S, InstanceWatchStatus as W};

fn strings(v: &[&str]) -> Vec<String> {
    v.iter().map(|s| s.to_string()).collect()
}

fn env(pairs: &[(&str, &str)]) -> Vec<(String, String)> {
    pairs.iter().map(|(k, v)| (k.to_string(), v.to_string())).collect()
}

// ---------------------------------------------------------------- kube

#[test]
fn kube_platform_from_env_defaults_namespace() {
    let p = KubePlatform::from_env_values(None, None, None);
    assert_eq!(p.namespace(), "default");
    assert!(p.kubeconfig_path().is_none());
    assert!(p.context().is_none());
    let p = KubePlatform::from_env_values(
        Some("ns".to_string()),
        Some("/k".to_string()),
        Some("ctx".to_string()),
    );
    assert_eq!(p.namespace(), "ns");
    assert_eq!(p.kubeconfig_path().as_deref(), Some("/k"));
    assert_eq!(p.context().as_deref(), Some("ctx"));
}

#[test]
fn kube_constructors() {
    let p = KubePlatform::with_namespace("jobs".to_string());
    assert_eq!(p.namespace(), "jobs");
    assert!(p.context().is_none());
    let p = KubePlatform::with_config("a".to_string(), None, Some("c".to_string()));
    assert_eq!(p.namespace(), "a");
    assert!(p.kubeconfig_path().is_none());
    assert_eq!(p.context().as_deref(), Some("c"));
}

#[test]
fn kube_common_env_and_map() {
    let p = KubePlatform::with_namespace("n".to_string());
    assert_eq!(p.get_common_env(), env(&[("PLATFORM", "kubernetes")]));
    assert!(p.accelerator_map().is_empty());
}

#[test]
fn kube_gpu_request() {
    let p = KubePlatform::with_namespace("n".to_string());
    assert_eq!(p.gpu_request(&None), (0, "nvidia-tesla-t4".to_string()));
    assert_eq!(
        p.gpu_request(&Some(strings(&["2:NVIDIA_TESLA_T4"]))),
        (2, "nvidia-tesla-t4".to_string())
    );
    assert_eq!(p.gpu_request(&Some(strings(&["x:T4"]))), (0, "nvidia-tesla-t4".to_string()));
    assert_eq!(p.gpu_request(&Some(strings(&["4"]))), (0, "nvidia-tesla-t4".to_string()));
    assert_eq!(p.gpu_request(&Some(vec![])), (0, "nvidia-tesla-t4".to_string()));
    assert_eq!(
        p.gpu_request(&Some(strings(&["3:A100", "1:T4"]))),
        (3, "nvidia-tesla-t4".to_string())
    );
}

#[test]
fn kube_gpu_count_is_the_requested_number() {
    let p = KubePlatform::with_namespace("n".to_string());
    for n in [0i32, 1, 7, 16, -3, i32::MAX] {
        let req = Some(vec![format!("{}:NVIDIA_A100", n)]);
        assert_eq!(p.gpu_request(&req), (n, "nvidia-tesla-t4".to_string()));
        let plan = p.plan_job(&"j".to_string(), &"i".to_string(), &None, &req, None, &None);
        if n > 0 {
            assert_eq!(plan.gpu_limit, Some(n.to_string()));
        } else {
            assert!(plan.gpu_limit.is_none());
        }
    }
}

#[test]
fn kube_resolve_name() {
    let meta = V1ResourceMetaRequest {
        name: Some("job-a".to_string()),
        namespace: None,
        labels: None,
        owner_ref: None,
    };
    assert_eq!(KubePlatform::resolve_name(&Some(meta)), Some("job-a".to_string()));
    let meta = V1ResourceMetaRequest { name: None, namespace: None, labels: None, owner_ref: None };
    let generated = KubePlatform::resolve_name(&Some(meta)).unwrap();
    assert!(!generated.is_empty());
    assert_eq!(generated.split('-').count(), 3);
    let random = KubePlatform::resolve_name(&None).unwrap();
    assert!(!random.is_empty());
    assert_eq!(random.split('-').count(), 3);
}

#[test]
fn kube_job_env_order() {
    let p = KubePlatform::with_namespace("n".to_string());
    let user = vec![
        V1EnvVar { key: "A".to_string(), value: Some("1".to_string()) },
        V1EnvVar { key: "B".to_string(), value: None },
    ];
    let e = p.job_env(Some("{}".to_string()), &Some(user));
    let view: Vec<(String, Option<String>)> =
        e.iter().map(|v| (v.name.clone(), v.value.clone())).collect();
    assert_eq!(
        view,
        vec![
            ("PLATFORM".to_string(), Some("kubernetes".to_string())),
            ("ORIGN_SYNC_CONFIG".to_string(), Some("{}".to_string())),
            ("A".to_string(), Some("1".to_string())),
            ("B".to_string(), None),
        ]
    );
    let e = p.job_env(None, &None);
    assert_eq!(e.len(), 1);
    assert_eq!(e[0].name, "PLATFORM");
}

#[test]
fn kube_plan_job_with_gpus() {
    let p = KubePlatform::with_namespace("n".to_string());
    let plan = p.plan_job(
        &"job".to_string(),
        &"img:1".to_string(),
        &Some("python  app.py".to_string()),
        &Some(strings(&["2:T4"])),
        None,
        &None,
    );
    assert_eq!(plan.name, "job");
    assert_eq!(plan.image, "img:1");
    assert_eq!(plan.command, Some(strings(&["python", "", "app.py"])));
    assert_eq!(plan.container_port, 8000);
    assert_eq!(plan.gpu_count, 2);
    assert_eq!(plan.gpu_type, "nvidia-tesla-t4");
    assert_eq!(plan.gpu_limit.as_deref(), Some("2"));
    assert_eq!(plan.node_selector, env(&[("role", "gpu"), ("gpu-type", "nvidia")]));
    assert_eq!(
        plan.volume_mounts,
        env(&[("huggingface-cache", "/huggingface"), ("nebu-pvc", "/nebu")])
    );
    assert_eq!(
        plan.volume_claims,
        env(&[("huggingface-cache", "huggingface-cache-pvc"), ("nebu-pvc", "nebu-pvc")])
    );
    assert_eq!(plan.restart_policy, "Never");
    assert_eq!(plan.labels, env(&[("app", "job")]));
    assert_eq!(plan.backoff_limit, 0);
}

#[test]
fn kube_plan_job_without_gpus() {
    let p = KubePlatform::with_namespace("n".to_string());
    let plan = p.plan_job(&"j".to_string(), &"i".to_string(), &None, &None, None, &None);
    assert!(plan.command.is_none());
    assert_eq!(plan.gpu_count, 0);
    assert!(plan.gpu_limit.is_none());
    assert_eq!(plan.node_selector, env(&[("role", "gpu")]));
}

fn counts(completed: bool, s: Option<i32>, a: Option<i32>, f: Option<i32>) -> JobStatusCounts {
    JobStatusCounts { completed, succeeded: s, active: a, failed: f }
}

#[test]
fn kube_job_status_names() {
    assert_eq!(job_status_text(&None), "pending");
    assert_eq!(job_status_text(&Some(counts(true, Some(1), None, None))), "completed");
    assert_eq!(job_status_text(&Some(counts(true, Some(0), None, Some(1)))), "failed");
    assert_eq!(job_status_text(&Some(counts(true, None, None, None))), "failed");
    assert_eq!(job_status_text(&Some(counts(false, None, Some(1), Some(2)))), "running");
    assert_eq!(job_status_text(&Some(counts(false, None, Some(0), Some(2)))), "failed");
    assert_eq!(job_status_text(&Some(counts(false, None, None, None))), "pending");
}

#[test]
fn kube_watch_gives_up_at_fifth_failure() {
    assert_eq!(MAX_JOB_WATCH_ERRORS, 5);
    let mut state = JobWatchState::new();
    for i in 1..=5 {
        let (s, a) = watch_job_step(state, JobWatchEvent::FetchFailed);
        assert_eq!(s.consecutive_errors, i);
        if i < 5 {
            assert!(matches!(a, JobWatchAction::Wait));
        } else {
            match a {
                JobWatchAction::MarkFailedAndStop { status, message, ready } => {
                    assert_eq!(status, "failed");
                    assert_eq!(message, "Too many consecutive errors");
                    assert!(!ready);
                }
                _ => panic!("expected the watch to give up"),
            }
        }
        state = s;
    }
}

#[test]
fn kube_watch_success_resets_errors() {
    let mut state = JobWatchState::new();
    for _ in 0..4 {
        state = watch_job_step(state, JobWatchEvent::FetchFailed).0;
    }
    let (s, a) = watch_job_step(state, JobWatchEvent::Fetched(None));
    assert_eq!(s.consecutive_errors, 0);
    assert_eq!(s.last_status, "pending");
    assert!(matches!(a, JobWatchAction::Record(ref x) if x == "pending"));
    let (s, a) = watch_job_step(s, JobWatchEvent::FetchFailed);
    assert_eq!(s.consecutive_errors, 1);
    assert!(matches!(a, JobWatchAction::Wait));
}

#[test]
fn kube_watch_records_only_changes() {
    let state = JobWatchState::new();
    let running = Some(counts(false, None, Some(1), None));
    let (s, a) = watch_job_step(state, JobWatchEvent::Fetched(running));
    assert!(matches!(a, JobWatchAction::Record(ref x) if x == "running"));
    let (s, a) = watch_job_step(s, JobWatchEvent::Fetched(running));
    assert!(matches!(a, JobWatchAction::Wait));
    assert_eq!(s.last_status, "running");
    let done = Some(counts(true, Some(1), None, None));
    let (s, a) = watch_job_step(s, JobWatchEvent::Fetched(done));
    assert!(matches!(a, JobWatchAction::RecordAndStop(ref x) if x == "completed"));
    assert_eq!(s.last_status, "completed");
    let failed = Some(counts(true, None, None, Some(1)));
    let (_, a) = watch_job_step(JobWatchState::new(), JobWatchEvent::Fetched(failed));
    assert!(matches!(a, JobWatchAction::RecordAndStop(ref x) if x == "failed"));
}

// ---------------------------------------------------------------- ec2

#[test]
fn ec2_user_data_embeds_key_and_host() {
    let s = ec2::build_node_user_data("tskey-abc", "node-1");
    assert!(s.starts_with("#!/bin/bash\n"));
    assert!(s.contains("tailscale up --auth-key=tskey-abc --hostname=\"node-1\" --ssh"));
    assert_eq!(
        s,
        format!(
            "{}{}{}{}{}",
            ec2::EC2_USER_DATA_HEAD,
            "tskey-abc",
            ec2::EC2_USER_DATA_MIDDLE,
            "node-1",
            ec2::EC2_USER_DATA_TAIL
        )
    );
}

#[test]
fn ec2_instance_types() {
    assert_eq!(ec2::ec2_instance_type(&None), "t2.micro");
    assert_eq!(ec2::ec2_instance_type(&Some(strings(&["1:NVIDIA_A10G"]))), "g5.xlarge");
    assert_eq!(ec2::ec2_instance_type(&Some(strings(&["2:NVIDIA_TESLA_T4"]))), "g4dn.xlarge");
    assert_eq!(ec2::ec2_instance_type(&Some(strings(&["1:H100"]))), "t2.micro");
    assert_eq!(ec2::ec2_instance_type(&Some(strings(&["NVIDIA_A10G"]))), "t2.micro");
    assert_eq!(ec2::ec2_accelerator_map().len(), 2);
}

#[test]
fn ec2_profile_token() {
    assert_eq!(ec2::require_profile_token(&Some("t".to_string())), Ok(()));
    assert_eq!(
        ec2::require_profile_token(&None),
        Err("Cannot create container: user profile is missing authentication token".to_string())
    );
}

#[test]
fn ec2_launch_plan() {
    let plan = ec2::plan_instance_launch("host", "key", "me", &Some("g5.xlarge".to_string()));
    assert_eq!(plan.image_id, "ami-0c55b159cbfafe1f0");
    assert_eq!(plan.instance_type, "g5.xlarge");
    assert_eq!(plan.security_group_id, "sg-0123456789abcdef0");
    let script = ec2::build_node_user_data("key", "host");
    let expected = base64::engine::general_purpose::STANDARD.encode(script.as_bytes());
    assert_eq!(plan.user_data_base64, expected);
    assert_ne!(plan.user_data_base64, script);
    assert_eq!(plan.tags, env(&[("Name", "host"), ("nebulous-node", "true"), ("owner", "me")]));
    assert_eq!((plan.min_count, plan.max_count), (1, 1));
    let plan = ec2::plan_instance_launch("h", "k", "o", &None);
    assert_eq!(plan.instance_type, "t2.micro");
}

#[test]
fn ec2_env_flags() {
    assert_eq!(ec2::env_flags(&vec![]), "");
    assert_eq!(ec2::env_flags(&env(&[("A", "1")])), "-e A='1'");
    assert_eq!(ec2::env_flags(&env(&[("A", "1"), ("B", "x y")])), "-e A='1' -e B='x y'");
}

#[test]
fn ec2_docker_run() {
    let c = ec2::docker_run_command(
        "c1",
        &env(&[("A", "1")]),
        "nginx",
        &Some("serve --port 80".to_string()),
    );
    assert_eq!(
        c,
        "docker run -d --name c1 -e A='1'  --restart unless-stopped nginx serve --port 80"
    );
    let c = ec2::docker_run_command("c2", &vec![], "img", &None);
    assert_eq!(c, "docker run -d --name c2   --restart unless-stopped img ");
}

#[test]
fn ec2_done_file() {
    assert!(ec2::done_file_present("1\n"));
    assert!(ec2::done_file_present("  1 "));
    assert!(!ec2::done_file_present("0\n"));
    assert!(!ec2::done_file_present(""));
    assert!(!ec2::done_file_present("11"));
}

#[test]
fn ec2_health_url() {
    assert_eq!(ec2::health_check_url("h", None, &None), "http://h:80/");
    assert_eq!(
        ec2::health_check_url("10.0.0.2", Some(8080), &Some("/health".to_string())),
        "http://10.0.0.2:8080/health"
    );
    assert_eq!(ec2::health_check_url("h", Some(65535), &None), "http://h:65535/");
}

#[test]
fn ec2_instance_states() {
    assert_eq!(ec2::instance_watch_status(None), W::Completed);
    assert_eq!(ec2::instance_watch_status(Some(None)), W::Invalid);
    assert_eq!(ec2::instance_watch_status(Some(Some(S::Running))), W::Running);
    assert_eq!(ec2::instance_watch_status(Some(Some(S::Pending))), W::Creating);
    assert_eq!(ec2::instance_watch_status(Some(Some(S::Stopping))), W::Stopped);
    assert_eq!(ec2::instance_watch_status(Some(Some(S::ShuttingDown))), W::Stopped);
    assert_eq!(ec2::instance_watch_status(Some(Some(S::Stopped))), W::Stopped);
    assert_eq!(ec2::instance_watch_status(Some(Some(S::Terminated))), W::Completed);
    assert_eq!(ec2::instance_watch_status(Some(Some(S::Other))), W::Invalid);
}

// ---------------------------------------------------------------- nebius

#[test]
fn nebius_user_data_embeds_key_and_host() {
    let s = nebius::build_node_user_data("k1", "h1");
    assert_eq!(
        s,
        format!(
            "{}k1{}h1{}",
            nebius::NEBIUS_USER_DATA_HEAD,
            nebius::NEBIUS_USER_DATA_MIDDLE,
            nebius::NEBIUS_USER_DATA_TAIL
        )
    );
    assert!(s.contains("--auth-key=k1 --hostname=h1 --ssh"));
}

#[test]
fn nebius_docker_run() {
    let c = nebius::docker_run_command("c", &env(&[("K", "V")]), "img", &Some("run".to_string()));
    assert_eq!(c, "docker run -d --name c -e K='V' --restart unless-stopped img run");
}

#[test]
fn nebius_operation() {
    assert_eq!(nebius::operation_id(&Some("op-1".to_string())), Ok("op-1".to_string()));
    assert_eq!(
        nebius::operation_id(&None),
        Err("Container is missing operation ID to watch".to_string())
    );
    assert_eq!(
        nebius::operation_url("op-1"),
        "https://operation.api.nebius.com/v1/operations/op-1"
    );
}

#[test]
fn nebius_watch_steps() {
    assert!(matches!(nebius_watch_step(NebiusPoll::RequestFailed), NebiusWatchAction::Continue));
    assert!(matches!(
        nebius_watch_step(NebiusPoll::Operation { done: false, error: Some("x".to_string()) }),
        NebiusWatchAction::Continue
    ));
    assert!(matches!(
        nebius_watch_step(NebiusPoll::Operation { done: true, error: None }),
        NebiusWatchAction::Deploy
    ));
    match nebius_watch_step(NebiusPoll::Operation { done: true, error: Some("quota".to_string()) })
    {
        NebiusWatchAction::Fail { status_message, error } => {
            assert_eq!(status_message, "quota");
            assert_eq!(error, "Nebius VM creation failed: quota");
        }
        _ => panic!("expected a failure"),
    }
}

#[test]
fn nebius_delete_lookup() {
    assert_eq!(nebius::container_to_delete(Some(7), "a"), Ok(7));
    assert_eq!(
        nebius::container_to_delete::<i32>(None, "a"),
        Err("Container a not found".to_string())
    );
}

// ---------------------------------------------------------------- factory and identity

#[test]
fn platform_names() {
    assert_eq!(platform_factory("runpod"), Some(PlatformType::Runpod));
    assert_eq!(platform_factory("kube"), Some(PlatformType::Kube));
    assert_eq!(platform_factory("ec2"), Some(PlatformType::Ec2));
    assert_eq!(platform_factory("nebius"), Some(PlatformType::Nebius));
    assert_eq!(platform_factory("gce"), None);
    assert_eq!(platform_factory("Kube"), None);
    assert_eq!(requested_platform(&None), "runpod");
    assert_eq!(requested_platform(&Some("ec2".to_string())), "ec2");
}

#[test]
fn container_identity() {
    let a = new_container_identity("ns", "web");
    let b = new_container_identity("ns", "web");
    assert_eq!(a.namespace, "ns");
    assert_eq!(a.name, "web");
    assert_eq!(a.full_name, "ns/web");
    assert_eq!(a.id.len(), 22);
    assert_eq!(b.id.chars().count(), 22);
    assert_ne!(a.id, b.id);
}

// ---------------------------------------------------------------- declarations

fn request(name: Option<&str>, ns: Option<&str>, accelerators: Option<Vec<String>>) -> V1ContainerRequest {
    V1ContainerRequest {
        metadata: Some(V1ResourceMetaRequest {
            name: name.map(String::from),
            namespace: ns.map(String::from),
            labels: Some(env(&[("team", "ml")])),
            owner_ref: Some("ref-1".to_string()),
        }),
        image: "busybox".to_string(),
        platform: Some("kube".to_string()),
        env: Some(vec![V1EnvVar { key: "A".to_string(), value: Some("1".to_string()) }]),
        command: Some("sleep 1".to_string()),
        args: Some("--x".to_string()),
        volumes: Some("{\"paths\":[]}".to_string()),
        accelerators,
        meters: Some("[]".to_string()),
        restart: "Never".to_string(),
        queue: Some("q".to_string()),
        timeout: Some("1h".to_string()),
        resources: Some("{}".to_string()),
        health_check: Some("{\"port\":80}".to_string()),
        ssh_keys: None,
        ports: Some("[80]".to_string()),
        proxy_port: Some(8080),
        authz: None,
    }
}

fn status_parts(s: &Option<V1ContainerStatus>) -> (Option<String>, Option<String>, bool) {
    let s = s.as_ref().unwrap();
    (s.status.clone(), s.accelerator.clone(), s.message.is_none() && s.ready.is_none())
}

#[test]
fn kube_declare_records_row_and_answer() {
    let p = KubePlatform::with_namespace("jobs".to_string());
    let req = request(Some("job1"), Some("team-a"), Some(strings(&["2:T4"])));
    let (row, answer) =
        p.declare_records(&req, &"job1".to_string(), "owner@x", "decl-ns", "me@x", 1_700_000_000);
    assert_eq!(row.id, answer.id);
    assert_eq!(row.id.len(), 22);
    assert_eq!(row.namespace, "team-a");
    assert_eq!(row.full_name, "team-a/job1");
    assert_eq!(row.platform.as_deref(), Some("kubernetes"));
    assert_eq!(status_parts(&row.status), (Some("pending".to_string()), None, true));
    assert_eq!(row.desired_status.as_deref(), Some("pending"));
    assert_eq!(row.resource_name.as_deref(), Some("job1"));
    assert_eq!(row.resource_namespace.as_deref(), Some("jobs"));
    assert_eq!(row.created_by.as_deref(), Some("kubernetes"));
    assert_eq!(row.owner_ref.as_deref(), Some("ref-1"));
    assert_eq!(row.created_at, 1_700_000_000);
    assert_eq!(row.volumes, req.volumes);
    assert_eq!(answer.kind, "Container");
    assert_eq!(answer.name, "job1");
    assert_eq!(answer.namespace, "decl-ns");
    assert_eq!(answer.owner, "owner@x");
    assert_eq!(answer.created_by, "kubernetes");
    assert_eq!(answer.platform, "kube");
    assert_eq!(answer.accelerators, Some(strings(&["2:T4"])));
    assert_eq!(status_parts(&answer.status), (Some("pending".to_string()), None, true));
    assert_eq!(answer.labels, Some(env(&[("team", "ml")])));
    assert_eq!(answer.args.as_deref(), Some("--x"));
    assert_eq!(answer.volumes, req.volumes);
    assert_eq!(answer.meters, req.meters);
    assert_eq!(answer.queue, req.queue);
    assert_eq!(answer.timeout, req.timeout);
    assert_eq!(answer.resources, req.resources);
    assert_eq!(answer.health_check, req.health_check);
    assert_eq!(answer.ports, req.ports);
    assert_eq!(answer.proxy_port, Some(8080));
    assert_eq!(answer.restart, "Never");
    assert_eq!(answer.updated_at, 1_700_000_000);
    let req = request(Some("j"), None, None);
    let (row, _) = p.declare_records(&req, &"j".to_string(), "o", "n", "me@x", 0);
    assert_eq!(row.namespace, "me@x");
    assert_eq!(row.full_name, "me@x/j");
}

#[test]
fn kube_declare_scenario_job_and_answer() {
    let p = KubePlatform::with_namespace("n".to_string());
    let mut req = request(Some("job1"), None, Some(strings(&["2:T4"])));
    req.command = None;
    let name = KubePlatform::resolve_name(&req.metadata).unwrap();
    let plan = p.plan_job(&name, &req.image, &req.command, &req.accelerators, None, &None);
    assert_eq!(plan.name, "job1");
    assert_eq!(plan.image, "busybox");
    assert_eq!(plan.gpu_limit.as_deref(), Some("2"));
    assert_eq!(plan.node_selector, env(&[("role", "gpu"), ("gpu-type", "nvidia")]));
    let (_, answer) = p.declare_records(&req, &name, "o", "ns", "e", 5);
    assert_eq!(answer.name, "job1");
    assert_eq!(answer.accelerators, Some(strings(&["2:T4"])));
}

#[test]
fn kube_declare_without_a_name_generates_one() {
    let p = KubePlatform::with_namespace("n".to_string());
    let req = request(None, None, None);
    let name = KubePlatform::resolve_name(&req.metadata).unwrap();
    assert!(!name.is_empty());
    let plan = p.plan_job(&name, &req.image, &req.command, &req.accelerators, None, &None);
    assert_eq!(plan.name, name);
    assert_eq!(plan.labels, vec![("app".to_string(), name.clone())]);
    let (_, answer) = p.declare_records(&req, &name, "o", "ns", "e", 5);
    assert_eq!(answer.name, name);
}

#[test]
fn ec2_declare_names_and_secret() {
    let meta = Some(V1ResourceMetaRequest { name: Some("web".to_string()), namespace: None, labels: None, owner_ref: None });
    assert_eq!(ec2::ec2_resolve_name(&meta), "web");
    assert!(!ec2::ec2_resolve_name(&None).is_empty());
    let meta = Some(V1ResourceMetaRequest { name: None, namespace: None, labels: None, owner_ref: None });
    assert!(!ec2::ec2_resolve_name(&meta).is_empty());
    assert_eq!(ec2::agent_key_secret_outcome(Ok(())), Ok(()));
    assert_eq!(
        ec2::agent_key_secret_outcome(Err("db down".to_string())),
        Err("Failed to store agent key secret: db down".to_string())
    );
}

#[test]
fn ec2_declare_record_is_defined_with_accelerator() {
    for (acc, expected) in [
        (Some(strings(&["1:NVIDIA_A10G"])), "g5.xlarge"),
        (Some(strings(&["4:NVIDIA_TESLA_T4"])), "g4dn.xlarge"),
        (None, "t2.micro"),
        (Some(vec![]), "t2.micro"),
        (Some(strings(&["1:H100"])), "t2.micro"),
        (Some(strings(&["NVIDIA_A10G"])), "t2.micro"),
        (Some(strings(&["1:NVIDIA_A10G:x"])), "t2.micro"),
    ] {
        let req = request(Some("web"), None, acc.clone());
        let (row, answer) = ec2::plan_ec2_declare(&req, &"web".to_string(), "owner", "ns", 9);
        assert_eq!(row.id, answer.id);
        assert_eq!(status_parts(&row.status), (Some("defined".to_string()), Some(expected.to_string()), true));
        assert_eq!(status_parts(&answer.status), (Some("defined".to_string()), Some(expected.to_string()), true));
        assert_eq!(row.platform.as_deref(), Some("ec2"));
        assert_eq!(answer.platform, "ec2");
        assert_eq!(answer.kind, "Container");
        assert_eq!(row.desired_status.as_deref(), Some("running"));
        assert_eq!(row.full_name, "ns/web");
        assert_eq!(row.created_by.as_deref(), Some("owner"));
        assert_eq!(answer.created_by, "owner");
        assert!(row.resource_name.is_none());
        assert_eq!(answer.accelerators, acc);
        assert_eq!(answer.proxy_port, Some(8080));
    }
}

#[test]
fn ec2_declare_order_of_refusals() {
    let tok = Some("t".to_string());
    let token_msg = "Cannot create container: user profile is missing authentication token";
    assert!(matches!(ec2::ec2_declare_step(&None, &None, &None), St::Refuse(ref m) if m == token_msg));
    assert!(matches!(ec2::ec2_declare_step(&None, &Some(Ok(())), &Some(Ok(()))), St::Refuse(ref m) if m == token_msg));
    assert!(matches!(ec2::ec2_declare_step(&tok, &None, &None), St::StoreSecret));
    assert!(matches!(
        ec2::ec2_declare_step(&tok, &Some(Err("e1".to_string())), &None),
        St::Refuse(ref m) if m == "Failed to store agent key secret: e1"
    ));
    assert!(matches!(ec2::ec2_declare_step(&tok, &Some(Ok(())), &None), St::InsertRow));
    assert!(matches!(
        ec2::ec2_declare_step(&tok, &Some(Ok(())), &Some(Err("Conn".to_string()))),
        St::Refuse(ref m) if m == "Failed to create container in database: Conn"
    ));
    assert!(matches!(ec2::ec2_declare_step(&tok, &Some(Ok(())), &Some(Ok(()))), St::Answer));
    let req = request(Some("web"), None, Some(strings(&["1:NVIDIA_A10G"])));
    let name = "web".to_string();
    assert_eq!(
        ec2::ec2_declare_result(&req, &name, "o", "ns", 1, &None, Err("x".to_string()), Ok(())).unwrap_err(),
        token_msg
    );
    assert_eq!(
        ec2::ec2_declare_result(&req, &name, "o", "ns", 1, &tok, Err("x".to_string()), Ok(())).unwrap_err(),
        "Failed to store agent key secret: x"
    );
    assert_eq!(
        ec2::ec2_declare_result(&req, &name, "o", "ns", 1, &tok, Ok(()), Err("y".to_string())).unwrap_err(),
        "Failed to create container in database: y"
    );
    let (row, answer) = ec2::ec2_declare_result(&req, &name, "o", "ns", 1, &tok, Ok(()), Ok(())).unwrap();
    assert_eq!(row.id, answer.id);
    assert_eq!(status_parts(&answer.status).1.as_deref(), Some("g5.xlarge"));
}

#[test]
fn ec2_watch_needs_an_instance() {
    assert_eq!(ec2::instance_id_to_watch(&Some("i-1".to_string())), Ok("i-1".to_string()));
    assert_eq!(
        ec2::instance_id_to_watch(&None),
        Err("Container has no resource_name (instance_id) to watch".to_string())
    );
}

#[test]
fn stored_row_as_answered_container() {
    let p = KubePlatform::with_namespace("jobs".to_string());
    let req = request(Some("job1"), Some("team-a"), None);
    let (mut row, _) = p.declare_records(&req, &"job1".to_string(), "o", "d", "e", 42);
    let c = container_from_row(&row);
    assert_eq!(c.kind, "Container");
    assert_eq!(c.id, row.id);
    assert_eq!(c.name, "job1");
    assert_eq!(c.namespace, "team-a");
    assert_eq!(c.created_by, "kubernetes");
    assert_eq!(c.platform, "kubernetes");
    assert_eq!(c.created_at, 42);
    assert_eq!(status_parts(&c.status), (Some("pending".to_string()), None, true));
    row.created_by = None;
    row.platform = None;
    let c = container_from_row(&row);
    assert_eq!(c.created_by, "");
    assert_eq!(c.platform, "");
}

// ---------------------------------------------------------------- ec2 watch steps


fn conclude_of(a: A) -> (Option<String>, bool, bool) {
    match a {
        A::Conclude { record, ready, stop } => (record, ready, stop),
        _ => panic!("expected the end of a tick"),
    }
}

#[test]
fn ec2_watch_gives_up_after_five_failures() {
    let mut s = Ec2WatchState::new("defined".to_string(), "always".to_string(), false);
    for i in 1..=5u32 {
        let (n, a) = ec2_watch_step(s, Ev::DescribeFailed);
        assert_eq!(n.consecutive_errors, i);
        if i < 5 {
            assert!(matches!(a, A::WaitForTick));
        } else {
            assert!(matches!(a, A::GiveUp));
        }
        s = n;
    }
}

#[test]
fn ec2_watch_writes_only_changes_and_stops_on_inactive() {
    let s = Ec2WatchState::new("creating".to_string(), "always".to_string(), false);
    let (s, a) = ec2_watch_step(s, Ev::Described(Some(Some(S::Pending))));
    assert_eq!(conclude_of(a), (None, false, false));
    let (s, a) = ec2_watch_step(s, Ev::Described(Some(Some(S::Stopped))));
    assert_eq!(conclude_of(a), (Some("stopped".to_string()), false, true));
    let (_, a) = ec2_watch_step(s, Ev::Described(None));
    assert_eq!(conclude_of(a), (Some("completed".to_string()), false, true));
    let s = Ec2WatchState::new("defined".to_string(), "always".to_string(), false);
    let (_, a) = ec2_watch_step(s, Ev::Described(Some(None)));
    assert_eq!(conclude_of(a), (Some("invalid".to_string()), false, true));
}

#[test]
fn ec2_watch_running_paths() {
    // SSH down: running, not ready.
    let s = Ec2WatchState::new("defined".to_string(), "always".to_string(), false);
    let (s, a) = ec2_watch_step(s, Ev::Described(Some(Some(S::Running))));
    assert!(matches!(a, A::CheckSsh));
    assert_eq!(s.phase, Ec2WatchPhase::AwaitingSsh);
    let (s, a) = ec2_watch_step(s, Ev::SshChecked(false));
    assert_eq!(conclude_of(a), (Some("running".to_string()), false, false));
    assert_eq!(s.phase, Ec2WatchPhase::Polling);
    // SSH up, no health check, restarted: ready.
    let (s, _) = ec2_watch_step(s, Ev::Described(Some(Some(S::Running))));
    let (_, a) = ec2_watch_step(s, Ev::SshChecked(true));
    assert_eq!(conclude_of(a), (Some("running".to_string()), true, false));
    // SSH up, health check, never restarted, done file present: delete.
    let s = Ec2WatchState::new("running".to_string(), "NEVER".to_string(), true);
    let (s, _) = ec2_watch_step(s, Ev::Described(Some(Some(S::Running))));
    let (s, a) = ec2_watch_step(s, Ev::SshChecked(true));
    assert!(matches!(a, A::PerformHealthCheck));
    let (s, a) = ec2_watch_step(s, Ev::HealthCheckDone);
    assert!(matches!(a, A::CheckDoneFile));
    assert_eq!(s.phase, Ec2WatchPhase::AwaitingDoneFile { ready: false });
    let (_, a) = ec2_watch_step(s.clone(), Ev::DoneFileChecked(true));
    assert!(matches!(a, A::DeleteAndStop));
    let (_, a) = ec2_watch_step(s, Ev::DoneFileChecked(false));
    assert_eq!(conclude_of(a), (None, false, false));
}

#[test]
fn ec2_watch_ignores_unexpected_events() {
    let s = Ec2WatchState::new("x".to_string(), "always".to_string(), false);
    let (s, a) = ec2_watch_step(s, Ev::SshChecked(true));
    assert!(matches!(a, A::WaitForTick));
    assert_eq!(s.phase, Ec2WatchPhase::Polling);
}

// ---------------------------------------------------------------- nebius create

#[test]
fn nebius_create_plan() {
    let p = nebius::plan_instance_create("container-abc", "tskey", "folder-1", "subnet-9");
    assert_eq!(p.folder_id, "folder-1");
    assert_eq!(p.name, "container-abc");
    assert_eq!(p.memory, 4 * 1024 * 1024 * 1024);
    assert_eq!(p.cores, 2);
    assert_eq!(p.zone_id, "ru-central1-a");
    assert_eq!(p.platform_id, "standard-v3");
    assert!(p.boot_disk_auto_delete);
    assert_eq!(p.image_id, "fd8v95d8o2285pif4go1");
    assert_eq!(p.disk_size, 20 * 1024 * 1024 * 1024);
    assert_eq!(p.subnet_id, "subnet-9");
    assert_eq!(
        p.metadata,
        vec![("user-data".to_string(), nebius::build_node_user_data("tskey", "container-abc"))]
    );
    assert_eq!(p.status, "creating");
    assert_eq!(p.status_message, "Provisioning VM on Nebius");
    assert_eq!(nebius::authorization_value("t0k"), "Bearer t0k");
}

#[test]
fn kube_watch_series_drops_repeats_and_stops_at_terminal() {
    let running = Some(counts(false, None, Some(1), None));
    let pending = None;
    let done = Some(counts(true, Some(1), None, None));
    let polls = [pending, pending, running, running, running, done, running];
    let mut state = JobWatchState::new();
    let mut recorded = Vec::new();
    for p in polls {
        let (s, a) = watch_job_step(state, JobWatchEvent::Fetched(p));
        state = s;
        match a {
            JobWatchAction::Record(x) => recorded.push(x),
            JobWatchAction::RecordAndStop(x) => {
                recorded.push(x);
                break;
            }
            _ => {}
        }
    }
    assert_eq!(recorded, vec!["pending", "running", "completed"]);
}
