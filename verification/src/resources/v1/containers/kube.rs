//! Containers run as Kubernetes jobs: how a job is described from a
//! container request, and how the watcher of a job reacts to each poll.

use super::models::{
    answer_carries, answer_from_request, meta_namespace, namespace_of, new_container_identity,
    plain_status, row_carries, row_from_request, status_with, ContainerRecord, V1Container,
    V1ContainerRequest, V1EnvVar,
};
use crate::find::{lookup_in, lookup_pair};
use crate::models::V1ResourceMetaRequest;
use crate::text::{
    clone_opt, i64_to_text, int_text, is_digit, law_parse_i64_of_text, lemma_int_text_chars,
    lemma_split_on_two, opt_str, pairs, parse_i32, spec_parse_i32, split_char, split_on, strs,
    text_eq, text_pair,
};
use vstd::prelude::*;
use vstd::string::*;

verus! {

/// Calls `petname::petname(3, "-")`, which draws a random name of three
/// words joined by `-`.  With the crate's default word lists (all
/// non-empty) three words are always drawn, so the name is present and not
/// empty; which name it is, is chance.
#[verifier::external_body]
pub(crate) fn random_petname() -> (r: Option<String>)
    ensures
        r is Some,
        r.unwrap()@.len() > 0,
{
    petname::petname(3, "-")
}

/// What declaring a container as the job `name` records and answers: the
/// row lives in the request's namespace (the user's e-mail when the request
/// names none), is `pending` on platform `kubernetes` with the job (in the
/// platform's namespace) as its resource, and is created by `kubernetes`;
/// the answer is in the namespace the caller declared it under, `pending`,
/// on the platform the request names (empty when none), created by
/// `kubernetes`; both carry the request's settings and share one id.
pub open spec fn is_kube_declaration(
    r: (ContainerRecord, V1Container),
    config: V1ContainerRequest,
    name: Seq<char>,
    owner: Seq<char>,
    namespace: Seq<char>,
    user_email: Seq<char>,
    platform_namespace: Seq<char>,
    now: i64,
) -> bool {
    let row_ns = match meta_namespace(config.metadata) {
        Some(n) => n@,
        None => user_email,
    };
    &&& r.0.id == r.1.id
    &&& r.0.id@.len() == 22
    &&& r.0.namespace@ == row_ns
    &&& r.0.name@ == name
    &&& r.0.full_name@ == row_ns + "/"@ + name
    &&& r.0.owner@ == owner
    &&& row_carries(r.0, config)
    &&& opt_str(r.0.platform) == Some("kubernetes"@)
    &&& plain_status(r.0.status, "pending"@, None)
    &&& opt_str(r.0.desired_status) == Some("pending"@)
    &&& opt_str(r.0.resource_name) == Some(name)
    &&& opt_str(r.0.resource_namespace) == Some(platform_namespace)
    &&& opt_str(r.0.created_by) == Some("kubernetes"@)
    &&& r.0.created_at == now && r.0.updated_at == now
    &&& r.1.kind@ == "Container"@
    &&& r.1.name@ == name
    &&& r.1.namespace@ == namespace
    &&& r.1.owner@ == owner
    &&& r.1.created_by@ == "kubernetes"@
    &&& r.1.platform@ == (match config.platform {
        Some(p) => p@,
        None => Seq::<char>::empty(),
    })
    &&& plain_status(r.1.status, "pending"@, None)
    &&& r.1.created_at == now && r.1.updated_at == now
    &&& answer_carries(r.1, config)
}

/// Schedules containers as Kubernetes jobs in one namespace.
#[derive(Debug, Clone)]
pub struct KubePlatform {
    namespace: String,
    kubeconfig_path: Option<String>,
    context: Option<String>,
}

/// An environment variable of the job's container.
#[derive(Debug, Clone)]
pub struct KubeEnvVar {
    pub name: String,
    pub value: Option<String>,
}

/// Everything the job submitted for a container consists of.
#[derive(Debug, Clone)]
pub struct KubeJobPlan {
    /// Name of the job, of its single container, and its `app` label.
    pub name: String,
    pub image: String,
    /// The command, split at every space.
    pub command: Option<Vec<String>>,
    pub container_port: i32,
    pub env: Vec<KubeEnvVar>,
    pub gpu_count: i32,
    pub gpu_type: String,
    /// Quantity of the `nvidia.com/gpu` limit, when GPUs are requested.
    pub gpu_limit: Option<String>,
    /// Volume name and mount path.
    pub volume_mounts: Vec<(String, String)>,
    /// Volume name and the persistent volume claim behind it.
    pub volume_claims: Vec<(String, String)>,
    pub node_selector: Vec<(String, String)>,
    pub restart_policy: String,
    pub labels: Vec<(String, String)>,
    pub backoff_limit: i32,
}

/// GPU type used when none is recognised.
pub open spec fn default_gpu_type() -> Seq<char> {
    "nvidia-tesla-t4"@
}

/// GPU count and type requested by the first accelerator (`count:type`):
/// the count when it parses as an `i32`, the type when the accelerator map
/// knows it; otherwise no GPUs of the default type.
pub open spec fn spec_gpu_request(
    map: Seq<(Seq<char>, Seq<char>)>,
    accelerators: Option<Vec<String>>,
) -> (int, Seq<char>) {
    match accelerators {
        Some(a) => if a@.len() > 0 {
            let parts = split_on(a@[0]@, ':');
            if parts.len() == 2 {
                let count = match spec_parse_i32(parts[0]) {
                    Some(c) => c as int,
                    None => 0,
                };
                let t = match lookup_in(map, parts[1]) {
                    Some(v) => v,
                    None => default_gpu_type(),
                };
                (count, t)
            } else {
                (0, default_gpu_type())
            }
        } else {
            (0, default_gpu_type())
        },
        None => (0, default_gpu_type()),
    }
}

/// View of one environment variable of the job.
pub open spec fn env_entry(name: Seq<char>, value: Option<Seq<char>>) -> (
    Seq<char>,
    Option<Seq<char>>,
) {
    (name, value)
}

/// Views of the job's environment variables.
pub open spec fn env_view(v: Seq<KubeEnvVar>) -> Seq<(Seq<char>, Option<Seq<char>>)> {
    v.map_values(|e: KubeEnvVar| (e.name@, opt_str(e.value)))
}

/// The `ORIGN_SYNC_CONFIG` variable, present when the volume configuration
/// could be serialised.
pub open spec fn volumes_entry(serialized_volumes: Option<String>) -> Seq<
    (Seq<char>, Option<Seq<char>>),
> {
    match serialized_volumes {
        Some(v) => seq![env_entry("ORIGN_SYNC_CONFIG"@, Some(v@))],
        None => Seq::empty(),
    }
}

/// The job's environment: `PLATFORM=kubernetes`, then `ORIGN_SYNC_CONFIG`
/// holding the serialised volume configuration when it could be serialised,
/// then the variables of the request, in order.
pub open spec fn spec_job_env(
    serialized_volumes: Option<String>,
    user_env: Option<Vec<V1EnvVar>>,
) -> Seq<(Seq<char>, Option<Seq<char>>)> {
    seq![env_entry("PLATFORM"@, Some("kubernetes"@))] + volumes_entry(serialized_volumes) + (match user_env {
        Some(u) => u@.map_values(|e: V1EnvVar| env_entry(e.key@, opt_str(e.value))),
        None => Seq::empty(),
    })
}

/// Node selector of the job: GPU nodes, and NVIDIA ones when GPUs are
/// requested.
pub open spec fn spec_node_selector(gpu_count: int) -> Seq<(Seq<char>, Seq<char>)> {
    if gpu_count > 0 {
        seq![("role"@, "gpu"@), ("gpu-type"@, "nvidia"@)]
    } else {
        seq![("role"@, "gpu"@)]
    }
}

proof fn lemma_map_push<A, B>(s: Seq<A>, x: A, f: spec_fn(A) -> B)
    ensures
        s.push(x).map_values(f) == s.map_values(f).push(f(x)),
{
    assert(s.push(x).map_values(f) =~= s.map_values(f).push(f(x)));
}

impl KubePlatform {
    /// Namespace the jobs are created in.
    pub closed spec fn spec_namespace(&self) -> Seq<char> {
        self.namespace@
    }

    /// Path of the kubeconfig file, when one is configured.
    pub closed spec fn spec_kubeconfig_path(&self) -> Option<Seq<char>> {
        opt_str(self.kubeconfig_path)
    }

    /// Kubeconfig context, when one is configured.
    pub closed spec fn spec_context(&self) -> Option<Seq<char>> {
        opt_str(self.context)
    }

    /// The platform described by `KUBE_NAMESPACE` (default `default`),
    /// `KUBECONFIG` and `KUBE_CONTEXT`.
    pub fn from_env_values(
        namespace: Option<String>,
        kubeconfig_path: Option<String>,
        context: Option<String>,
    ) -> (r: Self)
        ensures
            r.spec_namespace() == (match namespace {
                Some(n) => n@,
                None => "default"@,
            }),
            r.spec_kubeconfig_path() == opt_str(kubeconfig_path),
            r.spec_context() == opt_str(context),
    {
        let namespace = match namespace {
            Some(n) => n,
            None => String::from_str("default"),
        };
        KubePlatform { namespace, kubeconfig_path, context }
    }

    /// A platform for this namespace with the default client configuration.
    pub fn with_namespace(namespace: String) -> (r: Self)
        ensures
            r.spec_namespace() == namespace@,
            r.spec_kubeconfig_path() is None,
            r.spec_context() is None,
    {
        KubePlatform { namespace, kubeconfig_path: None, context: None }
    }

    /// A platform with a custom client configuration.
    pub fn with_config(
        namespace: String,
        kubeconfig_path: Option<String>,
        context: Option<String>,
    ) -> (r: Self)
        ensures
            r.spec_namespace() == namespace@,
            r.spec_kubeconfig_path() == opt_str(kubeconfig_path),
            r.spec_context() == opt_str(context),
    {
        KubePlatform { namespace, kubeconfig_path, context }
    }

    /// Namespace the jobs are created in.
    pub fn namespace(&self) -> (r: &String)
        ensures
            r@ == self.spec_namespace(),
    {
        &self.namespace
    }

    /// Path of the kubeconfig file, when one is configured.
    pub fn kubeconfig_path(&self) -> (r: &Option<String>)
        ensures
            opt_str(*r) == self.spec_kubeconfig_path(),
    {
        &self.kubeconfig_path
    }

    /// Kubeconfig context, when one is configured.
    pub fn context(&self) -> (r: &Option<String>)
        ensures
            opt_str(*r) == self.spec_context(),
    {
        &self.context
    }

    /// Environment variables every job gets: `PLATFORM=kubernetes`.
    pub fn get_common_env(&self) -> (r: Vec<(String, String)>)
        ensures
            pairs(r@) == seq![("PLATFORM"@, "kubernetes"@)],
    {
        let r = vec![text_pair("PLATFORM", "kubernetes")];
        proof {
            assert(pairs(r@) =~= seq![("PLATFORM"@, "kubernetes"@)]);
        }
        r
    }

    /// Accelerator names this platform translates to GPU types: none.
    pub fn accelerator_map(&self) -> (r: Vec<(String, String)>)
        ensures
            r@.len() == 0,
    {
        Vec::new()
    }

    /// The name of a new job: the name given in the request's metadata, or
    /// a random petname (three words joined by `-`, never empty) when the
    /// request gives none.
    pub fn resolve_name(metadata: &Option<V1ResourceMetaRequest>) -> (r: Option<String>)
        ensures
            match metadata {
                Some(m) if m.name is Some => r == m.name,
                _ => r matches Some(n) && n@.len() > 0,
            },
    {
        match metadata {
            Some(m) => match &m.name {
                Some(n) => {
                    return Some(n.clone());
                },
                None => {},
            },
            None => {},
        }
        random_petname()
    }

    /// GPU count and type requested by the accelerators of a request.
    pub fn gpu_request(&self, accelerators: &Option<Vec<String>>) -> (r: (i32, String))
        ensures
            r.0 as int == spec_gpu_request(Seq::<(Seq<char>, Seq<char>)>::empty(), *accelerators).0,
            r.1@ == spec_gpu_request(Seq::<(Seq<char>, Seq<char>)>::empty(), *accelerators).1,
    {
        let mut count: i32 = 0;
        let mut gpu_type = String::from_str("nvidia-tesla-t4");
        let map = self.accelerator_map();
        proof {
            assert(pairs(map@) =~= Seq::<(Seq<char>, Seq<char>)>::empty());
        }
        match accelerators {
            Some(a) => {
                if a.len() > 0 {
                    let parts = split_char(a[0].as_str(), ':');
                    if parts.len() == 2 {
                        proof {
                            assert(strs(parts@)[0] == parts@[0]@);
                            assert(strs(parts@)[1] == parts@[1]@);
                        }
                        match parse_i32(parts[0].as_str()) {
                            Some(c) => {
                                count = c;
                            },
                            None => {},
                        }
                        match lookup_pair(&map, parts[1].as_str()) {
                            Some(t) => {
                                gpu_type = t;
                            },
                            None => {},
                        }
                    }
                }
            },
            None => {},
        }
        (count, gpu_type)
    }

    /// Environment variables of the job (see `spec_job_env`).
    pub fn job_env(&self, serialized_volumes: Option<String>, user_env: &Option<Vec<V1EnvVar>>) -> (r:
        Vec<KubeEnvVar>)
        ensures
            env_view(r@) == spec_job_env(serialized_volumes, *user_env),
    {
        let mut env: Vec<KubeEnvVar> = Vec::new();
        let common = self.get_common_env();
        let mut i: usize = 0;
        while i < common.len()
            invariant
                i <= common.len(),
                pairs(common@) == seq![("PLATFORM"@, "kubernetes"@)],
                env_view(env@) == pairs(common@).take(i as int).map_values(
                    |p: (Seq<char>, Seq<char>)| env_entry(p.0, Some(p.1)),
                ),
            decreases common.len() - i,
        {
            let ghost before = env@;
            env.push(KubeEnvVar { name: common[i].0.clone(), value: Some(common[i].1.clone()) });
            proof {
                let f = |p: (Seq<char>, Seq<char>)| env_entry(p.0, Some(p.1));
                assert(pairs(common@)[i as int] == (common@[i as int].0@, common@[i as int].1@));
                assert(env_view(env@) =~= env_view(before).push(
                    env_entry(common@[i as int].0@, Some(common@[i as int].1@)),
                ));
                assert(pairs(common@).take(i + 1) =~= pairs(common@).take(i as int).push(
                    pairs(common@)[i as int],
                ));
                lemma_map_push(pairs(common@).take(i as int), pairs(common@)[i as int], f);
            }
            i = i + 1;
        }
        let ghost base = env_view(env@);
        proof {
            assert(base =~= seq![env_entry("PLATFORM"@, Some("kubernetes"@))]);
        }
        let ghost with_volumes = base + volumes_entry(serialized_volumes);
        match serialized_volumes {
            Some(v) => {
                env.push(KubeEnvVar { name: String::from_str("ORIGN_SYNC_CONFIG"), value: Some(v) });
            },
            None => {},
        }
        proof {
            assert(env_view(env@) =~= with_volumes);
        }
        match user_env {
            Some(u) => {
                let mut k: usize = 0;
                let ghost start = env@.len();
                while k < u.len()
                    invariant
                        k <= u.len(),
                        start == with_volumes.len(),
                        env_view(env@) == with_volumes + u@.take(k as int).map_values(
                            |e: V1EnvVar| env_entry(e.key@, opt_str(e.value)),
                        ),
                    decreases u.len() - k,
                {
                    let ghost before = env@;
                    env.push(KubeEnvVar { name: u[k].key.clone(), value: clone_opt(&u[k].value) });
                    proof {
                        let f = |e: V1EnvVar| env_entry(e.key@, opt_str(e.value));
                        assert(env_view(env@) =~= env_view(before).push(
                            env_entry(u@[k as int].key@, opt_str(u@[k as int].value)),
                        ));
                        assert(u@.take(k + 1) =~= u@.take(k as int).push(u@[k as int]));
                        lemma_map_push(u@.take(k as int), u@[k as int], f);
                        assert(u@.take(k + 1).map_values(
                            |e: V1EnvVar| env_entry(e.key@, opt_str(e.value)),
                        ) =~= u@.take(k as int).map_values(
                            |e: V1EnvVar| env_entry(e.key@, opt_str(e.value)),
                        ).push(env_entry(u@[k as int].key@, opt_str(u@[k as int].value))));
                        assert(env_view(env@) =~= with_volumes + u@.take(k + 1).map_values(
                            |e: V1EnvVar| env_entry(e.key@, opt_str(e.value)),
                        ));
                    }
                    k = k + 1;
                }
                proof {
                    assert(u@.take(u@.len() as int) =~= u@);
                }
            },
            None => {
                proof {
                    assert(env_view(env@) =~= with_volumes + Seq::<
                        (Seq<char>, Option<Seq<char>>),
                    >::empty());
                }
            },
        }
        env
    }

    /// Once the job named `name` was created: the row stored for the
    /// container and the container answered (see `is_kube_declaration`).
    pub fn declare_records(
        &self,
        config: &V1ContainerRequest,
        name: &String,
        owner_id: &str,
        namespace: &str,
        user_email: &str,
        now: i64,
    ) -> (r: (ContainerRecord, V1Container))
        ensures
            is_kube_declaration(r, *config, name@, owner_id@, namespace@, user_email@, self.spec_namespace(), now),
    {
        let row_namespace = match namespace_of(&config.metadata) {
            Some(n) => n,
            None => String::from_str(user_email),
        };
        let identity = new_container_identity(row_namespace.as_str(), name.as_str());
        let id = identity.id.clone();
        let record = row_from_request(
            config,
            identity,
            owner_id,
            Some(String::from_str("kubernetes")),
            status_with("pending", None),
            Some(String::from_str("pending")),
            Some(name.clone()),
            Some(self.namespace.clone()),
            Some(String::from_str("kubernetes")),
            now,
        );
        let platform = match &config.platform {
            Some(p) => p.clone(),
            None => String::new(),
        };
        let answered = answer_from_request(
            config,
            name.as_str(),
            namespace,
            id,
            owner_id,
            "kubernetes",
            platform,
            status_with("pending", None),
            now,
        );
        (record, answered)
    }

    /// The job for a container named `name` (see the field documentation
    /// of [`KubeJobPlan`]).
    pub fn plan_job(
        &self,
        name: &String,
        image: &String,
        command: &Option<String>,
        accelerators: &Option<Vec<String>>,
        serialized_volumes: Option<String>,
        user_env: &Option<Vec<V1EnvVar>>,
    ) -> (r: KubeJobPlan)
        ensures
            r.name@ == name@,
            r.image@ == image@,
            match command {
                Some(c) => r.command matches Some(parts) && strs(parts@) == split_on(c@, ' '),
                None => r.command is None,
            },
            r.container_port == 8000,
            env_view(r.env@) == spec_job_env(serialized_volumes, *user_env),
            r.gpu_count as int == spec_gpu_request(Seq::<(Seq<char>, Seq<char>)>::empty(), *accelerators).0,
            r.gpu_type@ == spec_gpu_request(Seq::<(Seq<char>, Seq<char>)>::empty(), *accelerators).1,
            match r.gpu_limit {
                Some(q) => r.gpu_count > 0 && q@ == int_text(r.gpu_count as int),
                None => r.gpu_count <= 0,
            },
            pairs(r.volume_mounts@) == seq![
                ("huggingface-cache"@, "/huggingface"@),
                ("nebu-pvc"@, "/nebu"@),
            ],
            pairs(r.volume_claims@) == seq![
                ("huggingface-cache"@, "huggingface-cache-pvc"@),
                ("nebu-pvc"@, "nebu-pvc"@),
            ],
            pairs(r.node_selector@) == spec_node_selector(r.gpu_count as int),
            r.restart_policy@ == "Never"@,
            pairs(r.labels@) == seq![("app"@, name@)],
            r.backoff_limit == 0,
    {
        let (gpu_count, gpu_type) = self.gpu_request(accelerators);
        let env = self.job_env(serialized_volumes, user_env);
        let cmd = match command {
            Some(c) => Some(split_char(c.as_str(), ' ')),
            None => None,
        };
        let volume_mounts = vec![
            text_pair("huggingface-cache", "/huggingface"),
            text_pair("nebu-pvc", "/nebu"),
        ];
        let volume_claims = vec![
            text_pair("huggingface-cache", "huggingface-cache-pvc"),
            text_pair("nebu-pvc", "nebu-pvc"),
        ];
        let mut node_selector = vec![text_pair("role", "gpu")];
        if gpu_count > 0 {
            node_selector.push(text_pair("gpu-type", "nvidia"));
        }
        let gpu_limit = if gpu_count > 0 {
            Some(i64_to_text(gpu_count as i64))
        } else {
            None
        };
        let labels = vec![(String::from_str("app"), name.clone())];
        proof {
            assert(pairs(volume_mounts@) =~= seq![
                ("huggingface-cache"@, "/huggingface"@),
                ("nebu-pvc"@, "/nebu"@),
            ]);
            assert(pairs(volume_claims@) =~= seq![
                ("huggingface-cache"@, "huggingface-cache-pvc"@),
                ("nebu-pvc"@, "nebu-pvc"@),
            ]);
            assert(pairs(node_selector@) =~= spec_node_selector(gpu_count as int));
            assert(pairs(labels@) =~= seq![("app"@, name@)]);
        }
        KubeJobPlan {
            name: name.clone(),
            image: image.clone(),
            command: cmd,
            container_port: 8000,
            env,
            gpu_count,
            gpu_type,
            gpu_limit,
            volume_mounts,
            volume_claims,
            node_selector,
            restart_policy: String::from_str("Never"),
            labels,
            backoff_limit: 0,
        }
    }
}

/// Law: an accelerator request `<n>:<type>` asks for exactly `n` GPUs,
/// of the default type since this platform's accelerator map is empty.
pub proof fn law_gpu_count_read_from_request(n: i32, gpu: Seq<char>, accelerators: Vec<String>)
    requires
        !gpu.contains(':'),
        accelerators@.len() >= 1,
        accelerators@[0]@ == int_text(n as int) + ":"@ + gpu,
    ensures
        spec_gpu_request(Seq::<(Seq<char>, Seq<char>)>::empty(), Some(accelerators)).0 == n,
        spec_gpu_request(Seq::<(Seq<char>, Seq<char>)>::empty(), Some(accelerators)).1
            == default_gpu_type(),
{
    reveal_strlit(":");
    assert(!is_digit(':'));
    lemma_int_text_chars(n as int, ':');
    assert(":"@ =~= seq![':']);
    lemma_split_on_two(int_text(n as int), gpu, ':');
    law_parse_i64_of_text(n as i64);
    assert(spec_parse_i32(int_text(n as int)) == Some(n));
}

// ---------------------------------------------------------------------------
// Watching a job
// ---------------------------------------------------------------------------

/// Consecutive failed polls after which a job is given up as failed.
pub const MAX_JOB_WATCH_ERRORS: usize = 5;

/// The parts of a job's status the watcher reads.
#[derive(Debug, Clone, Copy)]
pub struct JobStatusCounts {
    /// The job has a completion time.
    pub completed: bool,
    pub succeeded: Option<i32>,
    pub active: Option<i32>,
    pub failed: Option<i32>,
}

/// What the watcher remembers between polls.
#[derive(Debug, Clone)]
pub struct JobWatchState {
    /// Last status recorded (empty before the first one).
    pub last_status: String,
    pub consecutive_errors: usize,
}

/// Outcome of one poll of the job.
#[derive(Debug, Clone, Copy)]
pub enum JobWatchEvent {
    /// The job was fetched; its status, when it has one.
    Fetched(Option<JobStatusCounts>),
    /// Fetching the job failed.
    FetchFailed,
}

/// What the watcher does after a poll.
#[derive(Debug, Clone)]
pub enum JobWatchAction {
    /// Wait for the next poll.
    Wait,
    /// Record this status for the container, then wait for the next poll.
    Record(String),
    /// Record this terminal status for the container and stop watching.
    RecordAndStop(String),
    /// Record the container with this status, message and readiness (as
    /// failed, after too many errors) and stop.
    MarkFailedAndStop { status: String, message: String, ready: bool },
}

/// Model of a job's status as the watcher names it.
pub open spec fn spec_job_status(s: Option<JobStatusCounts>) -> Seq<char> {
    match s {
        Some(c) => if c.completed {
            if (match c.succeeded {
                Some(n) => n as int,
                None => 0,
            }) > 0 {
                "completed"@
            } else {
                "failed"@
            }
        } else if (match c.active {
            Some(n) => n as int,
            None => 0,
        }) > 0 {
            "running"@
        } else if (match c.failed {
            Some(n) => n as int,
            None => 0,
        }) > 0 {
            "failed"@
        } else {
            "pending"@
        },
        None => "pending"@,
    }
}

/// A status after which the job no longer changes.
pub open spec fn is_terminal_job_status(s: Seq<char>) -> bool {
    s == "completed"@ || s == "failed"@
}

/// Model of the watcher's reaction to a poll: the new last status, the new
/// error count, and the action (`None` for waiting, `Some((status, stop))`
/// for recording a status, and stopping when `stop`), or giving up.
pub open spec fn spec_watch_step(
    last: Seq<char>,
    errors: nat,
    event: JobWatchEvent,
) -> (Seq<char>, nat, JobWatchActionModel) {
    match event {
        JobWatchEvent::FetchFailed => {
            let e = errors + 1;
            (
                last,
                e,
                if e >= MAX_JOB_WATCH_ERRORS {
                    JobWatchActionModel::GiveUp {
                        status: "failed"@,
                        message: "Too many consecutive errors"@,
                        ready: false,
                    }
                } else {
                    JobWatchActionModel::Wait
                },
            )
        },
        JobWatchEvent::Fetched(s) => {
            let cur = spec_job_status(s);
            if cur != last {
                (cur, 0, JobWatchActionModel::Record(cur, is_terminal_job_status(cur)))
            } else {
                (last, 0, JobWatchActionModel::Wait)
            }
        },
    }
}

/// Model of a [`JobWatchAction`].
pub enum JobWatchActionModel {
    Wait,
    Record(Seq<char>, bool),
    GiveUp { status: Seq<char>, message: Seq<char>, ready: bool },
}

/// View of a [`JobWatchAction`].
pub open spec fn action_model(a: JobWatchAction) -> JobWatchActionModel {
    match a {
        JobWatchAction::Wait => JobWatchActionModel::Wait,
        JobWatchAction::Record(s) => JobWatchActionModel::Record(s@, false),
        JobWatchAction::RecordAndStop(s) => JobWatchActionModel::Record(s@, true),
        JobWatchAction::MarkFailedAndStop { status, message, ready } => JobWatchActionModel::GiveUp {
            status: status@,
            message: message@,
            ready,
        },
    }
}

fn count_of(n: Option<i32>) -> (r: i32)
    ensures
        r as int == (match n {
            Some(v) => v as int,
            None => 0,
        }),
{
    match n {
        Some(v) => v,
        None => 0,
    }
}

/// The status a job is recorded with: `completed` or `failed` once it has a
/// completion time (by whether some pod succeeded), else `running` while
/// pods are active, `failed` when some failed, and `pending` otherwise.
pub fn job_status_text(status: &Option<JobStatusCounts>) -> (r: String)
    ensures
        r@ == spec_job_status(*status),
{
    match status {
        Some(c) => if c.completed {
            if count_of(c.succeeded) > 0 {
                String::from_str("completed")
            } else {
                String::from_str("failed")
            }
        } else if count_of(c.active) > 0 {
            String::from_str("running")
        } else if count_of(c.failed) > 0 {
            String::from_str("failed")
        } else {
            String::from_str("pending")
        },
        None => String::from_str("pending"),
    }
}

impl JobWatchState {
    /// The state before the first poll.
    pub fn new() -> (r: Self)
        ensures
            r.last_status@ == Seq::<char>::empty(),
            r.consecutive_errors == 0,
    {
        JobWatchState { last_status: String::new(), consecutive_errors: 0 }
    }
}

/// One poll of the job watcher: a successful fetch clears the error count and
/// records the job's status when it changed (stopping on `completed` or
/// `failed`); a failed fetch counts an error and gives the job up as failed
/// at the fifth consecutive one.
pub fn watch_job_step(state: JobWatchState, event: JobWatchEvent) -> (r: (
    JobWatchState,
    JobWatchAction,
))
    requires
        state.consecutive_errors < usize::MAX,
    ensures
        ({
            let m = spec_watch_step(state.last_status@, state.consecutive_errors as nat, event);
            r.0.last_status@ == m.0 && r.0.consecutive_errors as nat == m.1 && action_model(r.1)
                == m.2
        }),
{
    match event {
        JobWatchEvent::FetchFailed => {
            let errors = state.consecutive_errors + 1;
            let action = if errors >= MAX_JOB_WATCH_ERRORS {
                JobWatchAction::MarkFailedAndStop {
                    status: String::from_str("failed"),
                    message: String::from_str("Too many consecutive errors"),
                    ready: false,
                }
            } else {
                JobWatchAction::Wait
            };
            (JobWatchState { last_status: state.last_status, consecutive_errors: errors }, action)
        },
        JobWatchEvent::Fetched(s) => {
            let cur = job_status_text(&s);
            if cur != state.last_status {
                let terminal = text_eq(cur.as_str(), "completed") || text_eq(cur.as_str(), "failed");
                let action = if terminal {
                    JobWatchAction::RecordAndStop(cur.clone())
                } else {
                    JobWatchAction::Record(cur.clone())
                };
                (JobWatchState { last_status: cur, consecutive_errors: 0 }, action)
            } else {
                (JobWatchState { last_status: state.last_status, consecutive_errors: 0 }, JobWatchAction::Wait)
            }
        },
    }
}

/// The action stops the watch.
pub open spec fn stops(a: JobWatchActionModel) -> bool {
    match a {
        JobWatchActionModel::Wait => false,
        JobWatchActionModel::Record(_, stop) => stop,
        JobWatchActionModel::GiveUp { .. } => true,
    }
}

/// Law: a failed poll gives the job up exactly at the fifth consecutive
/// failure, recording it as `failed` with the message `Too many consecutive
/// errors` and not ready; a successful poll clears the count and never gives
/// up.
pub proof fn law_watch_gives_up_after_five_failures(last: Seq<char>, errors: nat, s: Option<
    JobStatusCounts,
>)
    requires
        errors < MAX_JOB_WATCH_ERRORS,
    ensures
        spec_watch_step(last, errors, JobWatchEvent::FetchFailed).1 == errors + 1,
        (spec_watch_step(last, errors, JobWatchEvent::FetchFailed).2
            is GiveUp) <==> errors + 1 == MAX_JOB_WATCH_ERRORS,
        errors + 1 == MAX_JOB_WATCH_ERRORS ==> spec_watch_step(
            last,
            errors,
            JobWatchEvent::FetchFailed,
        ).2 == (JobWatchActionModel::GiveUp {
            status: "failed"@,
            message: "Too many consecutive errors"@,
            ready: false,
        }),
        spec_watch_step(last, errors, JobWatchEvent::Fetched(s)).1 == 0,
        !(spec_watch_step(last, errors, JobWatchEvent::Fetched(s)).2 is GiveUp),
{
}

/// Law: a status is recorded exactly when it differs from the last one
/// recorded, and the watch stops on a fetched job only when the recorded
/// status is terminal.
pub proof fn law_watch_records_changes(last: Seq<char>, errors: nat, s: Option<JobStatusCounts>)
    ensures
        ({
            let m = spec_watch_step(last, errors, JobWatchEvent::Fetched(s));
            &&& (m.2 is Record) <==> spec_job_status(s) != last
            &&& stops(m.2) ==> is_terminal_job_status(spec_job_status(s))
            &&& m.0 == spec_job_status(s)
        }),
{
}

/// Law: a watch that started from no errors and has not given up has
/// counted fewer than five errors (the count never skips past the limit).
pub proof fn law_watch_error_count_bounded(last: Seq<char>, errors: nat, event: JobWatchEvent)
    requires
        errors < MAX_JOB_WATCH_ERRORS,
    ensures
        !(spec_watch_step(last, errors, event).2 is GiveUp) ==> spec_watch_step(
            last,
            errors,
            event,
        ).1 < MAX_JOB_WATCH_ERRORS,
{
}

/// Statuses with consecutive repeats removed, the first compared with
/// `prev`.
pub open spec fn without_repeats(prev: Seq<char>, s: Seq<Seq<char>>) -> Seq<Seq<char>>
    decreases s.len(),
{
    if s.len() == 0 {
        Seq::empty()
    } else if s[0] != prev {
        seq![s[0]] + without_repeats(s[0], s.drop_first())
    } else {
        without_repeats(prev, s.drop_first())
    }
}

/// Statuses up to and including the first terminal one.
pub open spec fn until_terminal(s: Seq<Seq<char>>) -> Seq<Seq<char>>
    decreases s.len(),
{
    if s.len() == 0 {
        Seq::empty()
    } else if is_terminal_job_status(s[0]) {
        seq![s[0]]
    } else {
        seq![s[0]] + until_terminal(s.drop_first())
    }
}

/// The statuses the watcher records, in order, when it fetches these jobs
/// one poll after another, starting from `last` and `errors`, until it stops.
pub open spec fn recorded_by_watch(
    last: Seq<char>,
    errors: nat,
    polls: Seq<Option<JobStatusCounts>>,
) -> Seq<Seq<char>>
    decreases polls.len(),
{
    if polls.len() == 0 {
        Seq::empty()
    } else {
        let m = spec_watch_step(last, errors, JobWatchEvent::Fetched(polls[0]));
        match m.2 {
            JobWatchActionModel::Record(st, stop) => if stop {
                seq![st]
            } else {
                seq![st] + recorded_by_watch(m.0, m.1, polls.drop_first())
            },
            _ => recorded_by_watch(m.0, m.1, polls.drop_first()),
        }
    }
}

/// The status of each fetched job.
pub open spec fn poll_statuses(polls: Seq<Option<JobStatusCounts>>) -> Seq<Seq<char>> {
    polls.map_values(|p: Option<JobStatusCounts>| spec_job_status(p))
}

/// Law: over any series of successful polls, the statuses recorded are the
/// jobs' statuses with consecutive repeats removed, up to and including the
/// first `completed` or `failed`, after which the watch stops.
pub proof fn law_watch_records_series(last: Seq<char>, errors: nat, polls: Seq<Option<JobStatusCounts>>)
    ensures
        recorded_by_watch(last, errors, polls) == until_terminal(
            without_repeats(last, poll_statuses(polls)),
        ),
    decreases polls.len(),
{
    if polls.len() > 0 {
        let st = poll_statuses(polls);
        let rest = polls.drop_first();
        assert(st.drop_first() =~= poll_statuses(rest));
        assert(st[0] == spec_job_status(polls[0]));
        let cur = spec_job_status(polls[0]);
        law_watch_records_series(cur, 0, rest);
        law_watch_records_series(last, 0, rest);
        if cur != last {
            let x = without_repeats(cur, poll_statuses(rest));
            let w = seq![cur] + x;
            assert(w[0] == cur);
            assert(w.drop_first() =~= x);
        }
    }
}

/// Law: the watcher's first poll always records a status (no job status is
/// empty), and every status recorded is that of a fetched job.
pub proof fn law_watch_first_poll_recorded(polls: Seq<Option<JobStatusCounts>>)
    requires
        polls.len() > 0,
    ensures
        recorded_by_watch(Seq::empty(), 0, polls).len() > 0,
        recorded_by_watch(Seq::empty(), 0, polls)[0] == spec_job_status(polls[0]),
{
    let cur = spec_job_status(polls[0]);
    assert(cur.len() > 0) by {
        reveal_strlit("completed");
        reveal_strlit("failed");
        reveal_strlit("running");
        reveal_strlit("pending");
    }
    assert(cur != Seq::<char>::empty());
}

/// A pod count of a job's status; an absent count is no pods.
pub open spec fn pods(n: Option<i32>) -> int {
    match n {
        Some(v) => v as int,
        None => 0,
    }
}

/// Law: a job's status is named from its pod counts.  A job with a
/// completion time is `completed` when some pod succeeded and `failed`
/// otherwise; a job without one is `running` while pods are active, `failed`
/// when none is active and some failed (Kubernetes sets no completion time
/// on a failed job), and `pending` when none is active and none failed; a
/// job without status is `pending`.  The watch stops exactly on the
/// `completed` and `failed` jobs.
pub proof fn law_job_status_from_counts(c: JobStatusCounts)
    ensures
        (spec_job_status(Some(c)) == "completed"@) <==> (c.completed && pods(c.succeeded) > 0),
        (spec_job_status(Some(c)) == "failed"@) <==> ((c.completed && pods(c.succeeded) <= 0) || (
        !c.completed && pods(c.active) <= 0 && pods(c.failed) > 0)),
        (spec_job_status(Some(c)) == "running"@) <==> (!c.completed && pods(c.active) > 0),
        (spec_job_status(Some(c)) == "pending"@) <==> (!c.completed && pods(c.active) <= 0 && pods(
            c.failed,
        ) <= 0),
        spec_job_status(None) == "pending"@,
        is_terminal_job_status(spec_job_status(Some(c))) <==> (c.completed || (pods(c.active) <= 0
            && pods(c.failed) > 0)),
{
    reveal_strlit("completed");
    reveal_strlit("failed");
    reveal_strlit("running");
    reveal_strlit("pending");
    assert("completed"@[0] == 'c' && "failed"@[0] == 'f' && "running"@[0] == 'r' && "pending"@[0]
        == 'p');
}

/// Law: a poll that finds a job with no active pod and a failed one records
/// it as `failed` and stops the watch, unless `failed` was already recorded.
pub proof fn law_failed_pod_stops_watch(last: Seq<char>, errors: nat, c: JobStatusCounts)
    requires
        !c.completed,
        pods(c.active) <= 0,
        pods(c.failed) > 0,
        last != "failed"@,
    ensures
        spec_watch_step(last, errors, JobWatchEvent::Fetched(Some(c))).2 == JobWatchActionModel::Record(
            "failed"@,
            true,
        ),
{
    law_job_status_from_counts(c);
}

} // verus!
