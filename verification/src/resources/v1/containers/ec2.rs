//! Containers run on EC2 instances: the setup script of a node, the launch
//! of a new instance, the `docker run` command deployed to it, and how an
//! instance's state reads as the container's status.

use super::kube::random_petname;
use super::models::{
    answer_carries, answer_from_request, new_container_identity, plain_status, row_carries,
    row_from_request, status_with, ContainerRecord, V1Container, V1ContainerRequest,
};
use crate::find::{distinct_keys, law_lookup_distinct_keys, lookup_in, lookup_pair};
use crate::models::V1ResourceMetaRequest;
use crate::text::{
    opt_str, clone_opt, concat2, concat3, i64_to_text, int_text, pairs, spec_to_lowercase, split_char,
    split_on, strs, text_eq, text_pair, to_lowercase, trim, trim_ws, lemma_split_on_two,
};
use vstd::prelude::*;
use vstd::string::*;
use vstd::utf8::encode_utf8;

verus! {

/// The character of a 6-bit value in the standard base64 alphabet:
/// `A`-`Z`, `a`-`z`, `0`-`9`, `+`, `/`.
pub open spec fn base64_char(i: int) -> char {
    if i < 26 {
        (65 + i) as char
    } else if i < 52 {
        (97 + i - 26) as char
    } else if i < 62 {
        (48 + i - 52) as char
    } else if i == 62 {
        '+'
    } else {
        '/'
    }
}

/// Standard padded base64 (RFC 4648): each group of three bytes becomes
/// four characters; a final group of one or two bytes becomes two or three
/// characters followed by `=` padding to four.
pub open spec fn spec_base64_standard(bytes: Seq<u8>) -> Seq<char>
    decreases bytes.len(),
{
    if bytes.len() == 0 {
        Seq::empty()
    } else if bytes.len() == 1 {
        let n = bytes[0] * 65536;
        seq![base64_char(n / 262144), base64_char((n / 4096) % 64), '=', '=']
    } else if bytes.len() == 2 {
        let n = bytes[0] * 65536 + bytes[1] * 256;
        seq![base64_char(n / 262144), base64_char((n / 4096) % 64), base64_char((n / 64) % 64), '=']
    } else {
        let n = bytes[0] * 65536 + bytes[1] * 256 + bytes[2];
        seq![
            base64_char(n / 262144),
            base64_char((n / 4096) % 64),
            base64_char((n / 64) % 64),
            base64_char(n % 64),
        ] + spec_base64_standard(bytes.subrange(3, bytes.len() as int))
    }
}

/// Calls `base64::engine::general_purpose::STANDARD.encode`, which writes
/// the bytes in standard padded base64 (`spec_base64_standard`).
#[verifier::external_body]
fn encode_base64(bytes: &[u8]) -> (r: String)
    ensures
        r@ == spec_base64_standard(bytes@),
{
    base64::Engine::encode(&base64::engine::general_purpose::STANDARD, bytes)
}

/// Setup script of a node, before the Tailscale auth key.
pub const EC2_USER_DATA_HEAD: &'static str = "#!/bin/bash\n    exec > >(tee -a /var/log/nebu_node_setup.log) 2>&1\n    \n    echo \"[DEBUG] Starting node setup...\"\n    yum update -y\n    yum install -y docker\n    service docker start\n    usermod -a -G docker ec2-user\n    \n    echo \"[DEBUG] Installing curl (if not present)...\"\n    if ! command -v curl &> /dev/null; then\n        yum install -y curl\n    fi\n    \n    echo \"[DEBUG] Installing tailscale (if not present)...\"\n    if ! command -v tailscale &> /dev/null; then\n        echo \"[DEBUG] Tailscale not installed. Installing...\"\n        curl -fsSL https://tailscale.com/install.sh | sh\n    else\n        echo \"[DEBUG] Tailscale already installed.\"\n    fi\n    \n    echo \"[DEBUG] Starting tailscale daemon ...\"\n    tailscaled --tun=userspace-networking --socks5-server=localhost:1055 --outbound-http-proxy-listen=localhost:1055 > /var/log/tailscaled.log 2>&1 &\n\n    sleep 5\n\n    echo \"[DEBUG] Starting tailscale up...\"\n    tailscale up --auth-key=";

/// Setup script of a node, between the auth key and the host name.
pub const EC2_USER_DATA_MIDDLE: &'static str = " --hostname=\"";

/// Setup script of a node, after the host name.
pub const EC2_USER_DATA_TAIL: &'static str = "\" --ssh --advertise-tags=tag:node\n\n    echo \"[DEBUG] Node setup complete.\"\n    ";

/// The setup script of a node joining the tailnet with this key and name.
pub open spec fn ec2_user_data(ts_auth_key: Seq<char>, hostname: Seq<char>) -> Seq<char> {
    EC2_USER_DATA_HEAD@ + ts_auth_key + EC2_USER_DATA_MIDDLE@ + hostname + EC2_USER_DATA_TAIL@
}

/// The setup script of a node: installs Docker and Tailscale, then joins the
/// tailnet with the auth key under the host name.
pub fn build_node_user_data(ts_auth_key: &str, hostname: &str) -> (r: String)
    ensures
        r@ == ec2_user_data(ts_auth_key@, hostname@),
{
    let mut r = String::from_str(EC2_USER_DATA_HEAD);
    r.append(ts_auth_key);
    r.append(EC2_USER_DATA_MIDDLE);
    r.append(hostname);
    r.append(EC2_USER_DATA_TAIL);
    r
}

/// Accelerator names and the EC2 instance types that provide them.
pub open spec fn ec2_map() -> Seq<(Seq<char>, Seq<char>)> {
    seq![("NVIDIA_TESLA_T4"@, "g4dn.xlarge"@), ("NVIDIA_A10G"@, "g5.xlarge"@)]
}

/// Accelerator names and the EC2 instance types that provide them.
pub fn ec2_accelerator_map() -> (r: Vec<(String, String)>)
    ensures
        pairs(r@) == ec2_map(),
        distinct_keys(pairs(r@)),
{
    let r = vec![text_pair("NVIDIA_TESLA_T4", "g4dn.xlarge"), text_pair("NVIDIA_A10G", "g5.xlarge")];
    proof {
        assert(pairs(r@) =~= ec2_map());
        reveal_strlit("NVIDIA_TESLA_T4");
        reveal_strlit("NVIDIA_A10G");
        assert("NVIDIA_TESLA_T4"@[7] != "NVIDIA_A10G"@[7]);
        assert(distinct_keys(ec2_map()));
    }
    r
}

/// The instance type a request asks for: the type the map gives for the
/// first accelerator (`count:name`), or `t2.micro`.
pub open spec fn spec_ec2_instance_type(accelerators: Option<Vec<String>>) -> Seq<char> {
    match accelerators {
        Some(a) => if a@.len() > 0 {
            let parts = split_on(a@[0]@, ':');
            if parts.len() == 2 {
                match lookup_in(ec2_map(), parts[1]) {
                    Some(t) => t,
                    None => "t2.micro"@,
                }
            } else {
                "t2.micro"@
            }
        } else {
            "t2.micro"@
        },
        None => "t2.micro"@,
    }
}

/// The instance type a container request asks for.
pub fn ec2_instance_type(accelerators: &Option<Vec<String>>) -> (r: String)
    ensures
        r@ == spec_ec2_instance_type(*accelerators),
{
    let mut t = String::from_str("t2.micro");
    match accelerators {
        Some(a) => {
            if a.len() > 0 {
                let parts = split_char(a[0].as_str(), ':');
                if parts.len() == 2 {
                    proof {
                        assert(strs(parts@)[1] == parts@[1]@);
                    }
                    let map = ec2_accelerator_map();
                    match lookup_pair(&map, parts[1].as_str()) {
                        Some(v) => {
                            t = v;
                        },
                        None => {},
                    }
                }
            }
        },
        None => {},
    }
    t
}

/// Refuses to declare a container for a user profile without a token.
pub fn require_profile_token(token: &Option<String>) -> (r: Result<(), String>)
    ensures
        match r {
            Ok(()) => token is Some,
            Err(e) => token is None && e@
                == "Cannot create container: user profile is missing authentication token"@,
        },
{
    match token {
        Some(_) => Ok(()),
        None => Err(
            String::from_str("Cannot create container: user profile is missing authentication token"),
        ),
    }
}

/// The name of a container declared on EC2: the name in the request's
/// metadata, or a random petname (never empty) when there is none.
pub fn ec2_resolve_name(metadata: &Option<V1ResourceMetaRequest>) -> (r: String)
    ensures
        match metadata {
            Some(m) if m.name is Some => r@ == m.name.unwrap()@,
            _ => r@.len() > 0,
        },
{
    match metadata {
        Some(m) => match &m.name {
            Some(n) => {
                return n.clone();
            },
            None => {},
        },
        None => {},
    }
    random_petname().unwrap()
}

/// The outcome of storing the container's agent key secret: a failure
/// refuses the declaration with `Failed to store agent key secret: <e>`.
pub fn agent_key_secret_outcome(stored: Result<(), String>) -> (r: Result<(), String>)
    ensures
        match stored {
            Ok(()) => r is Ok,
            Err(e) => r matches Err(m) && m@ == "Failed to store agent key secret: "@ + e@,
        },
{
    match stored {
        Ok(()) => Ok(()),
        Err(e) => Err(concat2("Failed to store agent key secret: ", e.as_str())),
    }
}

/// What declaring a container on EC2 records and answers: both `defined`,
/// naming as their accelerator the instance type the request asks for, on
/// platform `ec2`, created by the owner, in the namespace declared, carrying
/// the request's settings and sharing one id; the row wants the container
/// `running` and has no resource yet.
pub open spec fn is_ec2_declaration(
    r: (ContainerRecord, V1Container),
    config: V1ContainerRequest,
    name: Seq<char>,
    owner: Seq<char>,
    namespace: Seq<char>,
    now: i64,
) -> bool {
    let acc = Some(spec_ec2_instance_type(config.accelerators));
    &&& r.0.id == r.1.id
    &&& r.0.id@.len() == 22
    &&& r.0.namespace@ == namespace
    &&& r.0.name@ == name
    &&& r.0.full_name@ == namespace + "/"@ + name
    &&& r.0.owner@ == owner
    &&& row_carries(r.0, config)
    &&& opt_str(r.0.platform) == Some("ec2"@)
    &&& plain_status(r.0.status, "defined"@, acc)
    &&& opt_str(r.0.desired_status) == Some("running"@)
    &&& r.0.resource_name is None
    &&& r.0.resource_namespace is None
    &&& opt_str(r.0.created_by) == Some(owner)
    &&& r.0.created_at == now && r.0.updated_at == now
    &&& r.1.kind@ == "Container"@
    &&& r.1.name@ == name
    &&& r.1.namespace@ == namespace
    &&& r.1.owner@ == owner
    &&& r.1.created_by@ == owner
    &&& r.1.platform@ == "ec2"@
    &&& plain_status(r.1.status, "defined"@, acc)
    &&& r.1.created_at == now && r.1.updated_at == now
    &&& answer_carries(r.1, config)
}

/// The row stored and the container answered when a container is declared
/// on EC2 (see `is_ec2_declaration`).
pub fn plan_ec2_declare(
    config: &V1ContainerRequest,
    name: &String,
    owner_id: &str,
    namespace: &str,
    now: i64,
) -> (r: (ContainerRecord, V1Container))
    ensures
        is_ec2_declaration(r, *config, name@, owner_id@, namespace@, now),
{
    let instance_type = ec2_instance_type(&config.accelerators);
    let identity = new_container_identity(namespace, name.as_str());
    let id = identity.id.clone();
    let record = row_from_request(
        config,
        identity,
        owner_id,
        Some(String::from_str("ec2")),
        status_with("defined", Some(instance_type.clone())),
        Some(String::from_str("running")),
        None,
        None,
        Some(String::from_str(owner_id)),
        now,
    );
    let answered = answer_from_request(
        config,
        name.as_str(),
        namespace,
        id,
        owner_id,
        owner_id,
        String::from_str("ec2"),
        status_with("defined", Some(instance_type)),
        now,
    );
    (record, answered)
}

/// The next thing an EC2 declaration does, given what has happened so far:
/// without a token it is refused before anything is stored; the agent key
/// secret is stored first, and a failure refuses it before any row is
/// inserted; the row is inserted next, and a failure refuses it; once both
/// succeeded the declared container is answered.
#[derive(Debug, Clone)]
pub enum Ec2DeclareStep {
    Refuse(String),
    StoreSecret,
    InsertRow,
    Answer,
}

/// The refusal for a missing token.
pub open spec fn missing_token_message() -> Seq<char> {
    "Cannot create container: user profile is missing authentication token"@
}

/// The step after these outcomes: `None` for a call not made yet.
pub fn ec2_declare_step(
    token: &Option<String>,
    secret_stored: &Option<Result<(), String>>,
    inserted: &Option<Result<(), String>>,
) -> (r: Ec2DeclareStep)
    ensures
        match (token, secret_stored, inserted) {
            (None, _, _) => r matches Ec2DeclareStep::Refuse(m) && m@ == missing_token_message(),
            (Some(_), None, _) => r is StoreSecret,
            (Some(_), Some(Err(e)), _) => r matches Ec2DeclareStep::Refuse(m) && m@
                == "Failed to store agent key secret: "@ + e@,
            (Some(_), Some(Ok(())), None) => r is InsertRow,
            (Some(_), Some(Ok(())), Some(Err(e))) => r matches Ec2DeclareStep::Refuse(m) && m@
                == "Failed to create container in database: "@ + e@,
            (Some(_), Some(Ok(())), Some(Ok(()))) => r is Answer,
        },
{
    match require_profile_token(token) {
        Err(m) => Ec2DeclareStep::Refuse(m),
        Ok(()) => match secret_stored {
            None => Ec2DeclareStep::StoreSecret,
            Some(Err(e)) => Ec2DeclareStep::Refuse(concat2("Failed to store agent key secret: ", e.as_str())),
            Some(Ok(())) => match inserted {
                None => Ec2DeclareStep::InsertRow,
                Some(Err(e)) => Ec2DeclareStep::Refuse(
                    concat2("Failed to create container in database: ", e.as_str()),
                ),
                Some(Ok(())) => Ec2DeclareStep::Answer,
            },
        },
    }
}

/// The outcome of an EC2 declaration, given the token, the outcome of
/// storing the agent key secret and the outcome of inserting the row: the
/// first refusal in that order, or the declared row and container.
pub fn ec2_declare_result(
    config: &V1ContainerRequest,
    name: &String,
    owner_id: &str,
    namespace: &str,
    now: i64,
    token: &Option<String>,
    secret_stored: Result<(), String>,
    inserted: Result<(), String>,
) -> (r: Result<(ContainerRecord, V1Container), String>)
    ensures
        match (token, secret_stored, inserted) {
            (None, _, _) => r matches Err(m) && m@ == missing_token_message(),
            (Some(_), Err(e), _) => r matches Err(m) && m@ == "Failed to store agent key secret: "@
                + e@,
            (Some(_), Ok(()), Err(e)) => r matches Err(m) && m@
                == "Failed to create container in database: "@ + e@,
            (Some(_), Ok(()), Ok(())) => r matches Ok(p) && is_ec2_declaration(
                p,
                *config,
                name@,
                owner_id@,
                namespace@,
                now,
            ),
        },
{
    match require_profile_token(token) {
        Err(m) => {
            return Err(m);
        },
        Ok(()) => {},
    }
    match agent_key_secret_outcome(secret_stored) {
        Err(m) => {
            return Err(m);
        },
        Ok(()) => {},
    }
    match inserted {
        Err(e) => Err(concat2("Failed to create container in database: ", e.as_str())),
        Ok(()) => Ok(plan_ec2_declare(config, name, owner_id, namespace, now)),
    }
}

/// The instance a container's watch follows: its resource name; a container
/// without one cannot be watched.
pub fn instance_id_to_watch(resource_name: &Option<String>) -> (r: Result<String, String>)
    ensures
        match resource_name {
            Some(i) => r matches Ok(x) && x@ == i@,
            None => r matches Err(e) && e@ == "Container has no resource_name (instance_id) to watch"@,
        },
{
    match resource_name {
        Some(i) => Ok(i.clone()),
        None => Err(String::from_str("Container has no resource_name (instance_id) to watch")),
    }
}

/// How a new instance is launched.
#[derive(Debug, Clone)]
pub struct Ec2LaunchPlan {
    pub image_id: String,
    pub instance_type: String,
    pub security_group_id: String,
    pub user_data_base64: String,
    pub tags: Vec<(String, String)>,
    pub min_count: i32,
    pub max_count: i32,
}

/// The launch of a node for a container: the instance type recorded as the
/// container's accelerator (`t2.micro` when none), Amazon Linux 2, the node
/// setup script in base64, and the tags `Name`, `nebulous-node`, `owner`.
pub fn plan_instance_launch(
    hostname: &str,
    ts_auth_key: &str,
    owner: &str,
    accelerator: &Option<String>,
) -> (r: Ec2LaunchPlan)
    ensures
        r.image_id@ == "ami-0c55b159cbfafe1f0"@,
        r.instance_type@ == (match accelerator {
            Some(a) => a@,
            None => "t2.micro"@,
        }),
        r.security_group_id@ == "sg-0123456789abcdef0"@,
        r.user_data_base64@ == spec_base64_standard(
            encode_utf8(ec2_user_data(ts_auth_key@, hostname@)),
        ),
        pairs(r.tags@) == seq![("Name"@, hostname@), ("nebulous-node"@, "true"@), ("owner"@, owner@)],
        r.min_count == 1,
        r.max_count == 1,
{
    let instance_type = match accelerator {
        Some(a) => a.clone(),
        None => String::from_str("t2.micro"),
    };
    let script = build_node_user_data(ts_auth_key, hostname);
    let user_data_base64 = encode_base64(script.as_str().as_bytes());
    let tags = vec![
        text_pair("Name", hostname),
        text_pair("nebulous-node", "true"),
        text_pair("owner", owner),
    ];
    proof {
        assert(pairs(tags@) =~= seq![("Name"@, hostname@), ("nebulous-node"@, "true"@), ("owner"@, owner@)]);
    }
    Ec2LaunchPlan {
        image_id: String::from_str("ami-0c55b159cbfafe1f0"),
        instance_type,
        security_group_id: String::from_str("sg-0123456789abcdef0"),
        user_data_base64,
        tags,
        min_count: 1,
        max_count: 1,
    }
}

// ---------------------------------------------------------------------------
// Deploying a container
// ---------------------------------------------------------------------------

/// One `-e` flag of `docker run`: `-e KEY='VALUE'`.
pub open spec fn env_flag(k: Seq<char>, v: Seq<char>) -> Seq<char> {
    "-e "@ + k + "='"@ + v + "'"@
}

/// Texts joined with single spaces.
pub open spec fn join_spaces(items: Seq<Seq<char>>) -> Seq<char>
    decreases items.len(),
{
    if items.len() == 0 {
        Seq::empty()
    } else if items.len() == 1 {
        items[0]
    } else {
        join_spaces(items.drop_last()) + " "@ + items.last()
    }
}

/// The `-e` flags for these variables, joined with spaces.
pub open spec fn env_flags_text(env: Seq<(Seq<char>, Seq<char>)>) -> Seq<char> {
    join_spaces(env.map_values(|p: (Seq<char>, Seq<char>)| env_flag(p.0, p.1)))
}

/// The `-e` flags that pass these variables to `docker run`.
pub fn env_flags(env: &Vec<(String, String)>) -> (r: String)
    ensures
        r@ == env_flags_text(pairs(env@)),
{
    let ghost f = |p: (Seq<char>, Seq<char>)| env_flag(p.0, p.1);
    let mut r = String::new();
    let mut i: usize = 0;
    proof {
        assert(pairs(env@).take(0).map_values(f) =~= Seq::<Seq<char>>::empty());
    }
    while i < env.len()
        invariant
            i <= env.len(),
            f == (|p: (Seq<char>, Seq<char>)| env_flag(p.0, p.1)),
            r@ == join_spaces(pairs(env@).take(i as int).map_values(f)),
        decreases env.len() - i,
    {
        let ghost items = pairs(env@).take(i + 1).map_values(f);
        proof {
            assert(pairs(env@)[i as int] == (env@[i as int].0@, env@[i as int].1@));
            assert(items.drop_last() =~= pairs(env@).take(i as int).map_values(f));
            assert(items.last() == env_flag(env@[i as int].0@, env@[i as int].1@));
        }
        if i > 0 {
            r.append(" ");
        }
        r.append("-e ");
        r.append(env[i].0.as_str());
        r.append("='");
        r.append(env[i].1.as_str());
        r.append("'");
        proof {
            if i == 0 {
                assert(r@ =~= items[0]);
            } else {
                assert(r@ =~= join_spaces(items.drop_last()) + " "@ + items.last());
            }
        }
        i = i + 1;
    }
    proof {
        assert(pairs(env@).take(env@.len() as int) =~= pairs(env@));
    }
    r
}

/// The command run on the node: `docker run -d --name <id> <env flags>
/// <no volume flags> --restart unless-stopped <image> <command>`.
pub open spec fn ec2_docker_run(
    id: Seq<char>,
    env: Seq<(Seq<char>, Seq<char>)>,
    image: Seq<char>,
    command: Seq<char>,
) -> Seq<char> {
    "docker run -d --name "@ + id + " "@ + env_flags_text(env) + " "@ + " "@
        + "--restart unless-stopped"@ + " "@ + image + " "@ + command
}

/// The `docker run` command deploying a container to its node.
pub fn docker_run_command(
    id: &str,
    env: &Vec<(String, String)>,
    image: &str,
    command: &Option<String>,
) -> (r: String)
    ensures
        r@ == ec2_docker_run(
            id@,
            pairs(env@),
            image@,
            match command {
                Some(c) => c@,
                None => Seq::<char>::empty(),
            },
        ),
{
    let flags = env_flags(env);
    let mut r = concat2("docker run -d --name ", id);
    r.append(" ");
    r.append(flags.as_str());
    r.append(" ");
    r.append(" ");
    r.append("--restart unless-stopped");
    r.append(" ");
    r.append(image);
    r.append(" ");
    match command {
        Some(c) => r.append(c.as_str()),
        None => {},
    }
    proof {
        assert(r@ =~= ec2_docker_run(
            id@,
            pairs(env@),
            image@,
            match command {
                Some(c) => c@,
                None => Seq::<char>::empty(),
            },
        ));
    }
    r
}

/// The container has finished when the check for `/done.txt` printed `1`
/// (ignoring surrounding whitespace).
pub fn done_file_present(output: &str) -> (b: bool)
    ensures
        b == (trim_ws(output@) == "1"@),
{
    let t = trim(output);
    text_eq(t.as_str(), "1")
}

/// The URL of a container's health check: `http://<host>:<port><path>`,
/// port 80 and path `/` unless given.
pub fn health_check_url(hostname: &str, port: Option<u16>, path: &Option<String>) -> (r: String)
    ensures
        r@ == "http://"@ + hostname@ + ":"@ + int_text(
            match port {
                Some(p) => p as int,
                None => 80,
            },
        ) + (match path {
            Some(p) => p@,
            None => "/"@,
        }),
{
    let p: u16 = match port {
        Some(p) => p,
        None => 80,
    };
    let mut r = concat3("http://", hostname, ":");
    let port_text = i64_to_text(p as i64);
    r.append(port_text.as_str());
    match path {
        Some(x) => r.append(x.as_str()),
        None => r.append("/"),
    }
    r
}

// ---------------------------------------------------------------------------
// Watching an instance
// ---------------------------------------------------------------------------

/// State of an EC2 instance.
#[derive(Debug, Clone, Copy, PartialEq, Eq, Structural)]
pub enum Ec2InstanceState {
    Pending,
    Running,
    ShuttingDown,
    Terminated,
    Stopping,
    Stopped,
    Other,
}

/// Container status a watched instance stands for.
#[derive(Debug, Clone, Copy, PartialEq, Eq, Structural)]
pub enum InstanceWatchStatus {
    Running,
    Creating,
    Stopped,
    Completed,
    Invalid,
}

/// The status of a container from its instance: outer `None` when the
/// instance was not found (it is gone: completed), inner `None` when the
/// instance reports no state.
pub fn instance_watch_status(instance: Option<Option<Ec2InstanceState>>) -> (r: InstanceWatchStatus)
    ensures
        r == (match instance {
            None => InstanceWatchStatus::Completed,
            Some(Some(Ec2InstanceState::Running)) => InstanceWatchStatus::Running,
            Some(Some(Ec2InstanceState::Pending)) => InstanceWatchStatus::Creating,
            Some(Some(Ec2InstanceState::Stopping)) => InstanceWatchStatus::Stopped,
            Some(Some(Ec2InstanceState::ShuttingDown)) => InstanceWatchStatus::Stopped,
            Some(Some(Ec2InstanceState::Stopped)) => InstanceWatchStatus::Stopped,
            Some(Some(Ec2InstanceState::Terminated)) => InstanceWatchStatus::Completed,
            _ => InstanceWatchStatus::Invalid,
        }),
{
    match instance {
        None => InstanceWatchStatus::Completed,
        Some(Some(Ec2InstanceState::Running)) => InstanceWatchStatus::Running,
        Some(Some(Ec2InstanceState::Pending)) => InstanceWatchStatus::Creating,
        Some(Some(Ec2InstanceState::Stopping)) => InstanceWatchStatus::Stopped,
        Some(Some(Ec2InstanceState::ShuttingDown)) => InstanceWatchStatus::Stopped,
        Some(Some(Ec2InstanceState::Stopped)) => InstanceWatchStatus::Stopped,
        Some(Some(Ec2InstanceState::Terminated)) => InstanceWatchStatus::Completed,
        _ => InstanceWatchStatus::Invalid,
    }
}

// ---------------------------------------------------------------------------
// The watch loop, one step at a time
// ---------------------------------------------------------------------------

/// Consecutive failed instance lookups after which the watch stops.
pub const MAX_EC2_WATCH_ERRORS: u32 = 5;

/// The status text written for a container (the lowercase status name).
pub open spec fn watch_status_text(s: InstanceWatchStatus) -> Seq<char> {
    match s {
        InstanceWatchStatus::Running => "running"@,
        InstanceWatchStatus::Creating => "creating"@,
        InstanceWatchStatus::Stopped => "stopped"@,
        InstanceWatchStatus::Completed => "completed"@,
        InstanceWatchStatus::Invalid => "invalid"@,
    }
}

/// Statuses after which the instance is no longer watched.
pub open spec fn watch_status_inactive(s: InstanceWatchStatus) -> bool {
    s == InstanceWatchStatus::Stopped || s == InstanceWatchStatus::Completed || s
        == InstanceWatchStatus::Invalid
}

/// The status of a container from its instance (see `instance_watch_status`).
pub open spec fn spec_instance_watch_status(instance: Option<Option<Ec2InstanceState>>) -> InstanceWatchStatus {
    match instance {
        None => InstanceWatchStatus::Completed,
        Some(Some(Ec2InstanceState::Running)) => InstanceWatchStatus::Running,
        Some(Some(Ec2InstanceState::Pending)) => InstanceWatchStatus::Creating,
        Some(Some(Ec2InstanceState::Stopping)) => InstanceWatchStatus::Stopped,
        Some(Some(Ec2InstanceState::ShuttingDown)) => InstanceWatchStatus::Stopped,
        Some(Some(Ec2InstanceState::Stopped)) => InstanceWatchStatus::Stopped,
        Some(Some(Ec2InstanceState::Terminated)) => InstanceWatchStatus::Completed,
        _ => InstanceWatchStatus::Invalid,
    }
}

/// Where the watcher is within one tick.
#[derive(Debug, Clone, Copy, PartialEq, Eq, Structural)]
pub enum Ec2WatchPhase {
    /// Waiting for the instance lookup of the next tick.
    Polling,
    /// The instance runs; waiting to learn whether it answers over SSH.
    AwaitingSsh,
    /// SSH is up; waiting for the health check to finish.
    AwaitingHealthCheck,
    /// Waiting to learn whether the container left `/done.txt`; `ready` is
    /// the readiness found so far.
    AwaitingDoneFile { ready: bool },
}

/// What the watcher remembers.
#[derive(Debug, Clone)]
pub struct Ec2WatchState {
    /// The container's status when the watch began; every tick compares its
    /// status with this one.
    pub stored_status: String,
    /// The container's restart policy.
    pub restart: String,
    /// The container has a health check.
    pub has_health_check: bool,
    pub consecutive_errors: u32,
    pub phase: Ec2WatchPhase,
}

/// What the watcher learns.
#[derive(Debug, Clone, Copy)]
pub enum Ec2WatchEvent {
    /// The instance lookup answered: no instance, or the instance and its
    /// state when it reports one.
    Described(Option<Option<Ec2InstanceState>>),
    /// The instance lookup failed.
    DescribeFailed,
    /// Whether the instance answers over SSH.
    SshChecked(bool),
    /// The health check was performed (it records readiness itself).
    HealthCheckDone,
    /// Whether `/done.txt` is present in the container.
    DoneFileChecked(bool),
}

/// What the watcher does next.
#[derive(Debug, Clone)]
pub enum Ec2WatchAction {
    /// Wait for the next tick.
    WaitForTick,
    /// Stop watching after too many failed lookups.
    GiveUp,
    /// Check whether the instance answers over SSH.
    CheckSsh,
    /// Perform the container's health check.
    PerformHealthCheck,
    /// Check for `/done.txt`.
    CheckDoneFile,
    /// Delete the container and stop watching.
    DeleteAndStop,
    /// End of the tick: write `record` as the status (with `ready`) when it
    /// is present, then stop when `stop` is set, else wait for the next tick.
    Conclude { record: Option<String>, ready: bool, stop: bool },
}

/// Model of an [`Ec2WatchAction`].
pub enum Ec2WatchActionModel {
    WaitForTick,
    GiveUp,
    CheckSsh,
    PerformHealthCheck,
    CheckDoneFile,
    DeleteAndStop,
    Conclude { record: Option<Seq<char>>, ready: bool, stop: bool },
}

/// View of an [`Ec2WatchAction`].
pub open spec fn ec2_action_model(a: Ec2WatchAction) -> Ec2WatchActionModel {
    match a {
        Ec2WatchAction::WaitForTick => Ec2WatchActionModel::WaitForTick,
        Ec2WatchAction::GiveUp => Ec2WatchActionModel::GiveUp,
        Ec2WatchAction::CheckSsh => Ec2WatchActionModel::CheckSsh,
        Ec2WatchAction::PerformHealthCheck => Ec2WatchActionModel::PerformHealthCheck,
        Ec2WatchAction::CheckDoneFile => Ec2WatchActionModel::CheckDoneFile,
        Ec2WatchAction::DeleteAndStop => Ec2WatchActionModel::DeleteAndStop,
        Ec2WatchAction::Conclude { record, ready, stop } => Ec2WatchActionModel::Conclude {
            record: opt_str(record),
            ready,
            stop,
        },
    }
}

/// Model of the watcher's state: stored status, restart policy, health
/// check, error count and phase.
pub struct Ec2WatchModel {
    pub stored: Seq<char>,
    pub restart: Seq<char>,
    pub has_health_check: bool,
    pub errors: nat,
    pub phase: Ec2WatchPhase,
}

/// View of an [`Ec2WatchState`].
pub open spec fn ec2_state_model(s: Ec2WatchState) -> Ec2WatchModel {
    Ec2WatchModel {
        stored: s.stored_status@,
        restart: s.restart@,
        has_health_check: s.has_health_check,
        errors: s.consecutive_errors as nat,
        phase: s.phase,
    }
}

/// End of a tick with this status: the status is written only when it
/// differs from the stored one, and the watch stops on an inactive status.
pub open spec fn conclude(m: Ec2WatchModel, status: InstanceWatchStatus, ready: bool) -> (
    Ec2WatchModel,
    Ec2WatchActionModel,
) {
    (
        Ec2WatchModel { phase: Ec2WatchPhase::Polling, ..m },
        Ec2WatchActionModel::Conclude {
            record: if watch_status_text(status) != m.stored {
                Some(watch_status_text(status))
            } else {
                None
            },
            ready,
            stop: watch_status_inactive(status),
        },
    )
}

/// A running container with SSH up: containers that are never restarted
/// are checked for `/done.txt`; the others end the tick as running.
pub open spec fn after_ready(m: Ec2WatchModel, ready: bool) -> (Ec2WatchModel, Ec2WatchActionModel) {
    if spec_to_lowercase(m.restart) == "never"@ {
        (
            Ec2WatchModel { phase: Ec2WatchPhase::AwaitingDoneFile { ready }, ..m },
            Ec2WatchActionModel::CheckDoneFile,
        )
    } else {
        conclude(m, InstanceWatchStatus::Running, ready)
    }
}

/// One step of the EC2 watcher.  A failed lookup counts an error and gives
/// up at the fifth in a row; a lookup clears the count and maps the instance
/// to a status.  A running instance is checked over SSH; with SSH up, the
/// health check runs when there is one (readiness is then left to it),
/// otherwise the container is ready; a container never restarted is deleted
/// once `/done.txt` is present.  The tick ends by writing the status when it
/// differs from the stored one and stopping on an inactive status.  An event
/// the current phase does not wait for is ignored: the watcher waits for the
/// next tick.
pub open spec fn spec_ec2_watch_step(m: Ec2WatchModel, event: Ec2WatchEvent) -> (
    Ec2WatchModel,
    Ec2WatchActionModel,
) {
    match (m.phase, event) {
        (Ec2WatchPhase::Polling, Ec2WatchEvent::DescribeFailed) => {
            let e = m.errors + 1;
            (
                Ec2WatchModel { errors: e, ..m },
                if e >= MAX_EC2_WATCH_ERRORS {
                    Ec2WatchActionModel::GiveUp
                } else {
                    Ec2WatchActionModel::WaitForTick
                },
            )
        },
        (Ec2WatchPhase::Polling, Ec2WatchEvent::Described(instance)) => {
            let status = spec_instance_watch_status(instance);
            let cleared = Ec2WatchModel { errors: 0, ..m };
            if status == InstanceWatchStatus::Running {
                (
                    Ec2WatchModel { phase: Ec2WatchPhase::AwaitingSsh, ..cleared },
                    Ec2WatchActionModel::CheckSsh,
                )
            } else {
                conclude(cleared, status, false)
            }
        },
        (Ec2WatchPhase::AwaitingSsh, Ec2WatchEvent::SshChecked(up)) => if !up {
            conclude(m, InstanceWatchStatus::Running, false)
        } else if m.has_health_check {
            (
                Ec2WatchModel { phase: Ec2WatchPhase::AwaitingHealthCheck, ..m },
                Ec2WatchActionModel::PerformHealthCheck,
            )
        } else {
            after_ready(m, true)
        },
        (Ec2WatchPhase::AwaitingHealthCheck, Ec2WatchEvent::HealthCheckDone) => after_ready(
            m,
            false,
        ),
        (Ec2WatchPhase::AwaitingDoneFile { ready }, Ec2WatchEvent::DoneFileChecked(done)) => if done {
            (Ec2WatchModel { phase: Ec2WatchPhase::Polling, ..m }, Ec2WatchActionModel::DeleteAndStop)
        } else {
            conclude(m, InstanceWatchStatus::Running, ready)
        },
        _ => (Ec2WatchModel { phase: Ec2WatchPhase::Polling, ..m }, Ec2WatchActionModel::WaitForTick),
    }
}

fn status_text_of(s: InstanceWatchStatus) -> (r: String)
    ensures
        r@ == watch_status_text(s),
{
    match s {
        InstanceWatchStatus::Running => String::from_str("running"),
        InstanceWatchStatus::Creating => String::from_str("creating"),
        InstanceWatchStatus::Stopped => String::from_str("stopped"),
        InstanceWatchStatus::Completed => String::from_str("completed"),
        InstanceWatchStatus::Invalid => String::from_str("invalid"),
    }
}

fn conclude_exec(state: Ec2WatchState, status: InstanceWatchStatus, ready: bool) -> (r: (
    Ec2WatchState,
    Ec2WatchAction,
))
    ensures
        ({
            let m = conclude(ec2_state_model(state), status, ready);
            ec2_state_model(r.0) == m.0 && ec2_action_model(r.1) == m.1
        }),
{
    let text = status_text_of(status);
    let record = if text != state.stored_status {
        Some(text)
    } else {
        None
    };
    let stop = match status {
        InstanceWatchStatus::Stopped | InstanceWatchStatus::Completed | InstanceWatchStatus::Invalid => true,
        _ => false,
    };
    (
        Ec2WatchState { phase: Ec2WatchPhase::Polling, ..state },
        Ec2WatchAction::Conclude { record, ready, stop },
    )
}

fn after_ready_exec(state: Ec2WatchState, ready: bool) -> (r: (Ec2WatchState, Ec2WatchAction))
    ensures
        ({
            let m = after_ready(ec2_state_model(state), ready);
            ec2_state_model(r.0) == m.0 && ec2_action_model(r.1) == m.1
        }),
{
    let policy = to_lowercase(state.restart.as_str());
    if text_eq(policy.as_str(), "never") {
        (
            Ec2WatchState { phase: Ec2WatchPhase::AwaitingDoneFile { ready }, ..state },
            Ec2WatchAction::CheckDoneFile,
        )
    } else {
        conclude_exec(state, InstanceWatchStatus::Running, ready)
    }
}

impl Ec2WatchState {
    /// The watcher's state when it starts on a container with this stored
    /// status, restart policy and health check.
    pub fn new(stored_status: String, restart: String, has_health_check: bool) -> (r: Self)
        ensures
            r.stored_status == stored_status,
            r.restart == restart,
            r.has_health_check == has_health_check,
            r.consecutive_errors == 0,
            r.phase == Ec2WatchPhase::Polling,
    {
        Ec2WatchState {
            stored_status,
            restart,
            has_health_check,
            consecutive_errors: 0,
            phase: Ec2WatchPhase::Polling,
        }
    }
}

/// One step of the EC2 watcher (see `spec_ec2_watch_step`).
pub fn ec2_watch_step(state: Ec2WatchState, event: Ec2WatchEvent) -> (r: (
    Ec2WatchState,
    Ec2WatchAction,
))
    requires
        state.consecutive_errors < u32::MAX,
    ensures
        ({
            let m = spec_ec2_watch_step(ec2_state_model(state), event);
            ec2_state_model(r.0) == m.0 && ec2_action_model(r.1) == m.1
        }),
{
    match (state.phase, event) {
        (Ec2WatchPhase::Polling, Ec2WatchEvent::DescribeFailed) => {
            let e = state.consecutive_errors + 1;
            let action = if e >= MAX_EC2_WATCH_ERRORS {
                Ec2WatchAction::GiveUp
            } else {
                Ec2WatchAction::WaitForTick
            };
            (Ec2WatchState { consecutive_errors: e, ..state }, action)
        },
        (Ec2WatchPhase::Polling, Ec2WatchEvent::Described(instance)) => {
            let status = instance_watch_status(instance);
            let cleared = Ec2WatchState { consecutive_errors: 0, ..state };
            match status {
                InstanceWatchStatus::Running => (
                    Ec2WatchState { phase: Ec2WatchPhase::AwaitingSsh, ..cleared },
                    Ec2WatchAction::CheckSsh,
                ),
                _ => conclude_exec(cleared, status, false),
            }
        },
        (Ec2WatchPhase::AwaitingSsh, Ec2WatchEvent::SshChecked(up)) => if !up {
            conclude_exec(state, InstanceWatchStatus::Running, false)
        } else if state.has_health_check {
            (
                Ec2WatchState { phase: Ec2WatchPhase::AwaitingHealthCheck, ..state },
                Ec2WatchAction::PerformHealthCheck,
            )
        } else {
            after_ready_exec(state, true)
        },
        (Ec2WatchPhase::AwaitingHealthCheck, Ec2WatchEvent::HealthCheckDone) => after_ready_exec(
            state,
            false,
        ),
        (Ec2WatchPhase::AwaitingDoneFile { ready }, Ec2WatchEvent::DoneFileChecked(done)) => if done {
            (Ec2WatchState { phase: Ec2WatchPhase::Polling, ..state }, Ec2WatchAction::DeleteAndStop)
        } else {
            conclude_exec(state, InstanceWatchStatus::Running, ready)
        },
        _ => (Ec2WatchState { phase: Ec2WatchPhase::Polling, ..state }, Ec2WatchAction::WaitForTick),
    }
}

/// Law: a tick that ends writes the status exactly when it differs from the
/// stored one, and stops the watch exactly on an inactive status.
pub proof fn law_ec2_watch_writes_changes_and_stops_on_inactive(
    m: Ec2WatchModel,
    status: InstanceWatchStatus,
    ready: bool,
)
    ensures
        ({
            let a = conclude(m, status, ready).1;
            &&& a matches Ec2WatchActionModel::Conclude { record, stop, .. }
            &&& (record is Some <==> watch_status_text(status) != m.stored)
            &&& (record matches Some(t) ==> t == watch_status_text(status))
            &&& (stop <==> watch_status_inactive(status))
        }),
{
}

/// Law: a lookup that finds a non-running instance ends the tick at once
/// with the instance's status, and an unknown or vanished instance stops the
/// watch; a failed lookup gives up exactly at the fifth in a row.
pub proof fn law_ec2_watch_polls(m: Ec2WatchModel, instance: Option<Option<Ec2InstanceState>>)
    requires
        m.phase == Ec2WatchPhase::Polling,
        m.errors < MAX_EC2_WATCH_ERRORS,
    ensures
        spec_instance_watch_status(instance) != InstanceWatchStatus::Running ==> spec_ec2_watch_step(
            m,
            Ec2WatchEvent::Described(instance),
        ) == conclude(Ec2WatchModel { errors: 0, ..m }, spec_instance_watch_status(instance), false),
        instance is None ==> (spec_ec2_watch_step(m, Ec2WatchEvent::Described(instance)).1 matches Ec2WatchActionModel::Conclude { stop, .. } && stop),
        (spec_ec2_watch_step(m, Ec2WatchEvent::DescribeFailed).1 is GiveUp) <==> m.errors + 1 == MAX_EC2_WATCH_ERRORS,
{
}

/// Law: the instance type is decided by the first accelerator alone: two
/// requests whose first accelerators are the same text ask for the same
/// instance type, whatever follows.
pub proof fn law_ec2_instance_type_first_decides(a: Vec<String>, b: Vec<String>)
    requires
        a@.len() > 0,
        b@.len() > 0,
        a@[0]@ == b@[0]@,
    ensures
        spec_ec2_instance_type(Some(a)) == spec_ec2_instance_type(Some(b)),
{
}

/// Law: a request whose first accelerator is `<n>:NVIDIA_TESLA_T4` runs on a
/// `g4dn.xlarge` and one whose first is `<n>:NVIDIA_A10G` on a `g5.xlarge`,
/// whatever the count and whatever accelerators follow.
pub proof fn law_ec2_known_accelerators(n: Seq<char>, a: Vec<String>)
    requires
        !n.contains(':'),
        a@.len() > 0,
    ensures
        a@[0]@ == n + ":NVIDIA_TESLA_T4"@ ==> spec_ec2_instance_type(Some(a)) == "g4dn.xlarge"@,
        a@[0]@ == n + ":NVIDIA_A10G"@ ==> spec_ec2_instance_type(Some(a)) == "g5.xlarge"@,
{
    reveal_strlit(":NVIDIA_TESLA_T4");
    reveal_strlit(":NVIDIA_A10G");
    reveal_strlit("NVIDIA_TESLA_T4");
    reveal_strlit("NVIDIA_A10G");
    assert("NVIDIA_TESLA_T4"@[7] != "NVIDIA_A10G"@[7]);
    assert(distinct_keys(ec2_map()));
    law_lookup_distinct_keys(ec2_map(), 0);
    law_lookup_distinct_keys(ec2_map(), 1);
    let t4 = "NVIDIA_TESLA_T4"@;
    let a10 = "NVIDIA_A10G"@;
    assert(!t4.contains(':')) by {
        if t4.contains(':') {
            let i = choose|i: int| 0 <= i < t4.len() && t4[i] == ':';
            assert(t4[i] != ':');
        }
    }
    assert(!a10.contains(':')) by {
        if a10.contains(':') {
            let i = choose|i: int| 0 <= i < a10.len() && a10[i] == ':';
            assert(a10[i] != ':');
        }
    }
    assert(n + ":NVIDIA_TESLA_T4"@ =~= n + seq![':'] + t4);
    assert(n + ":NVIDIA_A10G"@ =~= n + seq![':'] + a10);
    lemma_split_on_two(n, t4, ':');
    lemma_split_on_two(n, a10, ':');
}

/// How a tick ends that writes the status `t` (when it differs from the
/// stored one) with this readiness, and stops or not.
pub open spec fn tick_end(stored: Seq<char>, t: Seq<char>, ready: bool, stop: bool) -> Ec2WatchActionModel {
    Ec2WatchActionModel::Conclude {
        record: if t != stored {
            Some(t)
        } else {
            None
        },
        ready,
        stop,
    }
}

/// Law: a lookup reads the instance's state into the container's status.
/// The instance runs exactly when the watcher goes on to check SSH; the
/// tick ends writing `completed` and stopping exactly when the instance is
/// gone or terminated, `stopped` and stopping exactly when it is stopping,
/// shutting down or stopped, `creating` and going on exactly when it is
/// pending, and `invalid` and stopping exactly when it reports no state or
/// another one; readiness is never claimed without SSH.
pub proof fn law_ec2_watch_reads_instance_state(m: Ec2WatchModel, i: Option<Option<Ec2InstanceState>>)
    requires
        m.phase == Ec2WatchPhase::Polling,
    ensures
        ({
            let a = spec_ec2_watch_step(m, Ec2WatchEvent::Described(i)).1;
            &&& (a is CheckSsh <==> i == Some(Some(Ec2InstanceState::Running)))
            &&& (a == tick_end(m.stored, "completed"@, false, true) <==> (i is None || i == Some(
                Some(Ec2InstanceState::Terminated),
            )))
            &&& (a == tick_end(m.stored, "stopped"@, false, true) <==> (i == Some(
                Some(Ec2InstanceState::Stopping),
            ) || i == Some(Some(Ec2InstanceState::ShuttingDown)) || i == Some(
                Some(Ec2InstanceState::Stopped),
            )))
            &&& (a == tick_end(m.stored, "creating"@, false, false) <==> i == Some(
                Some(Ec2InstanceState::Pending),
            ))
            &&& (a == tick_end(m.stored, "invalid"@, false, true) <==> (i == Some(None::<Ec2InstanceState>) || i
                == Some(Some(Ec2InstanceState::Other))))
        }),
{
    reveal_strlit("completed");
    reveal_strlit("stopped");
    reveal_strlit("creating");
    reveal_strlit("invalid");
    reveal_strlit("running");
    assert("completed"@[0] == 'c' && "creating"@[0] == 'c' && "stopped"@[0] == 's'
        && "invalid"@[0] == 'i' && "running"@[0] == 'r');
    assert("completed"@[1] == 'o' && "creating"@[1] == 'r');
}

/// Law: what a running instance's checks lead to.  Without SSH the tick
/// ends writing `running`, not ready.  With SSH and a health check, the
/// check is run and readiness is left to it; with SSH and no health check
/// the container is ready.  A container whose restart policy reads `never`
/// (in any letter case) is then checked for `/done.txt` and deleted when it
/// is there; any other ends the tick writing `running`.  None of these
/// stops the watch except the deletion.
pub proof fn law_ec2_watch_running_paths(m: Ec2WatchModel, ready: bool)
    ensures
        m.phase == Ec2WatchPhase::AwaitingSsh ==> spec_ec2_watch_step(
            m,
            Ec2WatchEvent::SshChecked(false),
        ).1 == tick_end(m.stored, "running"@, false, false),
        m.phase == Ec2WatchPhase::AwaitingSsh && m.has_health_check ==> spec_ec2_watch_step(
            m,
            Ec2WatchEvent::SshChecked(true),
        ).1 is PerformHealthCheck,
        m.phase == Ec2WatchPhase::AwaitingSsh && !m.has_health_check && spec_to_lowercase(m.restart)
            != "never"@ ==> spec_ec2_watch_step(m, Ec2WatchEvent::SshChecked(true)).1 == tick_end(
            m.stored,
            "running"@,
            true,
            false,
        ),
        m.phase == Ec2WatchPhase::AwaitingHealthCheck && spec_to_lowercase(m.restart) != "never"@
            ==> spec_ec2_watch_step(m, Ec2WatchEvent::HealthCheckDone).1 == tick_end(
            m.stored,
            "running"@,
            false,
            false,
        ),
        (m.phase == Ec2WatchPhase::AwaitingSsh && !m.has_health_check) || m.phase
            == Ec2WatchPhase::AwaitingHealthCheck ==> (spec_to_lowercase(m.restart) == "never"@ ==> (
        spec_ec2_watch_step(
            m,
            if m.phase == Ec2WatchPhase::AwaitingSsh {
                Ec2WatchEvent::SshChecked(true)
            } else {
                Ec2WatchEvent::HealthCheckDone
            },
        ).1 is CheckDoneFile)),
        m.phase == (Ec2WatchPhase::AwaitingDoneFile { ready }) ==> spec_ec2_watch_step(
            m,
            Ec2WatchEvent::DoneFileChecked(true),
        ).1 is DeleteAndStop,
        m.phase == (Ec2WatchPhase::AwaitingDoneFile { ready }) ==> spec_ec2_watch_step(
            m,
            Ec2WatchEvent::DoneFileChecked(false),
        ).1 == tick_end(m.stored, "running"@, ready, false),
{
}

} // verus!
