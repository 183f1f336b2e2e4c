//! Parts of the container model the platforms read.

use crate::models::V1ResourceMetaRequest;
use crate::text::{clone_opt, concat3, opt_str};
use vstd::prelude::*;
use vstd::string::*;

verus! {

/// An environment variable requested for a container.
#[derive(Debug, Clone)]
pub struct V1EnvVar {
    pub key: String,
    pub value: Option<String>,
}

/// Calls `short_uuid::ShortUuid::generate` and renders it with `to_string`:
/// a random UUID written in the 58-letter flickrBase58 alphabet, padded to
/// 22 characters (a 128-bit value needs at most 22 base-58 digits).  Which
/// identifier it is, is chance.
#[verifier::external_body]
fn generate_short_id() -> (r: String)
    ensures
        r@.len() == 22,
{
    short_uuid::ShortUuid::generate().to_string()
}

/// How a newly declared container is identified.
#[derive(Debug, Clone)]
pub struct ContainerIdentity {
    /// A fresh random identifier of 22 characters.
    pub id: String,
    pub namespace: String,
    pub name: String,
    /// `<namespace>/<name>`, unique among stored containers.
    pub full_name: String,
}

/// The identity of a container declared under this namespace and name.
pub fn new_container_identity(namespace: &str, name: &str) -> (r: ContainerIdentity)
    ensures
        r.id@.len() == 22,
        r.namespace@ == namespace@,
        r.name@ == name@,
        r.full_name@ == namespace@ + "/"@ + name@,
{
    ContainerIdentity {
        id: generate_short_id(),
        namespace: String::from_str(namespace),
        name: String::from_str(name),
        full_name: concat3(namespace, "/", name),
    }
}

/// A container request.  Its structured settings (volumes, meters, SSH
/// keys, resources, health check, ports, authorisation) are carried through
/// unread, as their serialised text.
#[derive(Debug, Clone)]
pub struct V1ContainerRequest {
    pub metadata: Option<V1ResourceMetaRequest>,
    pub image: String,
    pub platform: Option<String>,
    pub env: Option<Vec<V1EnvVar>>,
    pub command: Option<String>,
    pub args: Option<String>,
    pub volumes: Option<String>,
    pub accelerators: Option<Vec<String>>,
    pub meters: Option<String>,
    pub restart: String,
    pub queue: Option<String>,
    pub timeout: Option<String>,
    pub resources: Option<String>,
    pub health_check: Option<String>,
    pub ssh_keys: Option<String>,
    pub ports: Option<String>,
    pub proxy_port: Option<i16>,
    pub authz: Option<String>,
}

/// The status of a container: its name, a message, the accelerator it runs
/// on, its VPN address and whether it is ready.
#[derive(Debug, Clone)]
pub struct V1ContainerStatus {
    pub status: Option<String>,
    pub message: Option<String>,
    pub accelerator: Option<String>,
    pub tailnet_url: Option<String>,
    pub ready: Option<bool>,
}

/// The row stored for a container.
#[derive(Debug, Clone)]
pub struct ContainerRecord {
    pub id: String,
    pub namespace: String,
    pub name: String,
    /// `<namespace>/<name>`.
    pub full_name: String,
    pub owner: String,
    pub owner_ref: Option<String>,
    pub image: String,
    pub env: Option<Vec<V1EnvVar>>,
    pub command: Option<String>,
    pub args: Option<String>,
    pub volumes: Option<String>,
    pub accelerators: Option<Vec<String>>,
    pub meters: Option<String>,
    pub restart: String,
    pub queue: Option<String>,
    pub timeout: Option<String>,
    pub resources: Option<String>,
    pub health_check: Option<String>,
    pub ssh_keys: Option<String>,
    pub ports: Option<String>,
    pub proxy_port: Option<i16>,
    pub authz: Option<String>,
    pub labels: Option<Vec<(String, String)>>,
    pub platform: Option<String>,
    pub status: Option<V1ContainerStatus>,
    pub desired_status: Option<String>,
    pub resource_name: Option<String>,
    pub resource_namespace: Option<String>,
    pub created_by: Option<String>,
    /// Seconds since the Unix epoch.
    pub created_at: i64,
    pub updated_at: i64,
}

/// A container as the API answers it (kind `Container`).
#[derive(Debug, Clone)]
pub struct V1Container {
    pub kind: String,
    pub name: String,
    pub namespace: String,
    pub id: String,
    pub owner: String,
    pub owner_ref: Option<String>,
    pub created_at: i64,
    pub updated_at: i64,
    pub created_by: String,
    pub labels: Option<Vec<(String, String)>>,
    pub image: String,
    pub platform: String,
    pub env: Option<Vec<V1EnvVar>>,
    pub command: Option<String>,
    pub args: Option<String>,
    pub volumes: Option<String>,
    pub accelerators: Option<Vec<String>>,
    pub meters: Option<String>,
    pub status: Option<V1ContainerStatus>,
    pub restart: String,
    pub queue: Option<String>,
    pub timeout: Option<String>,
    pub resources: Option<String>,
    pub health_check: Option<String>,
    pub ssh_keys: Option<String>,
    pub ports: Option<String>,
    pub proxy_port: Option<i16>,
    pub authz: Option<String>,
}

/// The answered container carries the request's settings unchanged.
pub open spec fn answer_carries(c: V1Container, r: V1ContainerRequest) -> bool {
    &&& c.image@ == r.image@
    &&& same_opt_vec(c.env, r.env)
    &&& c.command == r.command
    &&& c.args == r.args
    &&& c.volumes == r.volumes
    &&& same_opt_vec(c.accelerators, r.accelerators)
    &&& c.meters == r.meters
    &&& c.restart@ == r.restart@
    &&& c.queue == r.queue
    &&& c.timeout == r.timeout
    &&& c.resources == r.resources
    &&& c.health_check == r.health_check
    &&& c.ssh_keys == r.ssh_keys
    &&& c.ports == r.ports
    &&& c.proxy_port == r.proxy_port
    &&& c.authz == r.authz
    &&& c.owner_ref == meta_owner_ref(r.metadata)
    &&& same_opt_vec(c.labels, meta_labels(r.metadata))
}

/// The stored row carries the request's settings unchanged.
pub open spec fn row_carries(c: ContainerRecord, r: V1ContainerRequest) -> bool {
    &&& c.image@ == r.image@
    &&& same_opt_vec(c.env, r.env)
    &&& c.command == r.command
    &&& c.args == r.args
    &&& c.volumes == r.volumes
    &&& same_opt_vec(c.accelerators, r.accelerators)
    &&& c.meters == r.meters
    &&& c.restart@ == r.restart@
    &&& c.queue == r.queue
    &&& c.timeout == r.timeout
    &&& c.resources == r.resources
    &&& c.health_check == r.health_check
    &&& c.ssh_keys == r.ssh_keys
    &&& c.ports == r.ports
    &&& c.proxy_port == r.proxy_port
    &&& c.authz == r.authz
    &&& c.owner_ref == meta_owner_ref(r.metadata)
    &&& same_opt_vec(c.labels, meta_labels(r.metadata))
}

/// A status holding only a status name and, possibly, an accelerator.
pub open spec fn plain_status(s: Option<V1ContainerStatus>, name: Seq<char>, accelerator: Option<Seq<char>>) -> bool {
    &&& s matches Some(x)
    &&& x.status matches Some(n) && n@ == name
    &&& x.message is None
    &&& opt_str(x.accelerator) == accelerator
    &&& x.tailnet_url is None
    &&& x.ready is None
}

pub(crate) fn status_with(name: &str, accelerator: Option<String>) -> (r: Option<V1ContainerStatus>)
    ensures
        plain_status(r, name@, opt_str(accelerator)),
{
    Some(
        V1ContainerStatus {
            status: Some(String::from_str(name)),
            message: None,
            accelerator,
            tailnet_url: None,
            ready: None,
        },
    )
}

/// The row of a new container with these identity fields, platform fields
/// and status, carrying the request's settings.
pub(crate) fn row_from_request(
    config: &V1ContainerRequest,
    identity: ContainerIdentity,
    owner_id: &str,
    platform: Option<String>,
    status: Option<V1ContainerStatus>,
    desired_status: Option<String>,
    resource_name: Option<String>,
    resource_namespace: Option<String>,
    created_by: Option<String>,
    now: i64,
) -> (r: ContainerRecord)
    ensures
        r.id == identity.id,
        r.namespace == identity.namespace,
        r.name == identity.name,
        r.full_name == identity.full_name,
        r.owner@ == owner_id@,
        row_carries(r, *config),
        r.platform == platform,
        r.status == status,
        r.desired_status == desired_status,
        r.resource_name == resource_name,
        r.resource_namespace == resource_namespace,
        r.created_by == created_by,
        r.created_at == now,
        r.updated_at == now,
{
    ContainerRecord {
        id: identity.id,
        namespace: identity.namespace,
        name: identity.name,
        full_name: identity.full_name,
        owner: String::from_str(owner_id),
        owner_ref: owner_ref_of(&config.metadata),
        image: config.image.clone(),
        env: clone_opt_env(&config.env),
        command: clone_opt(&config.command),
        args: clone_opt(&config.args),
        volumes: clone_opt(&config.volumes),
        accelerators: clone_opt_strings(&config.accelerators),
        meters: clone_opt(&config.meters),
        restart: config.restart.clone(),
        queue: clone_opt(&config.queue),
        timeout: clone_opt(&config.timeout),
        resources: clone_opt(&config.resources),
        health_check: clone_opt(&config.health_check),
        ssh_keys: clone_opt(&config.ssh_keys),
        ports: clone_opt(&config.ports),
        proxy_port: config.proxy_port,
        authz: clone_opt(&config.authz),
        labels: labels_of(&config.metadata),
        platform,
        status,
        desired_status,
        resource_name,
        resource_namespace,
        created_by,
        created_at: now,
        updated_at: now,
    }
}

/// The answer for a new container with these identity fields, carrying the
/// request's settings.
pub(crate) fn answer_from_request(
    config: &V1ContainerRequest,
    name: &str,
    namespace: &str,
    id: String,
    owner_id: &str,
    created_by: &str,
    platform: String,
    status: Option<V1ContainerStatus>,
    now: i64,
) -> (r: V1Container)
    ensures
        r.kind@ == "Container"@,
        r.name@ == name@,
        r.namespace@ == namespace@,
        r.id == id,
        r.owner@ == owner_id@,
        r.created_by@ == created_by@,
        r.platform == platform,
        r.status == status,
        r.created_at == now,
        r.updated_at == now,
        answer_carries(r, *config),
{
    V1Container {
        kind: String::from_str("Container"),
        name: String::from_str(name),
        namespace: String::from_str(namespace),
        id,
        owner: String::from_str(owner_id),
        owner_ref: owner_ref_of(&config.metadata),
        created_at: now,
        updated_at: now,
        created_by: String::from_str(created_by),
        labels: labels_of(&config.metadata),
        image: config.image.clone(),
        platform,
        env: clone_opt_env(&config.env),
        command: clone_opt(&config.command),
        args: clone_opt(&config.args),
        volumes: clone_opt(&config.volumes),
        accelerators: clone_opt_strings(&config.accelerators),
        meters: clone_opt(&config.meters),
        status,
        restart: config.restart.clone(),
        queue: clone_opt(&config.queue),
        timeout: clone_opt(&config.timeout),
        resources: clone_opt(&config.resources),
        health_check: clone_opt(&config.health_check),
        ssh_keys: clone_opt(&config.ssh_keys),
        ports: clone_opt(&config.ports),
        proxy_port: config.proxy_port,
        authz: clone_opt(&config.authz),
    }
}

fn clone_status(s: &Option<V1ContainerStatus>) -> (r: Option<V1ContainerStatus>)
    ensures
        r == *s,
{
    match s {
        Some(x) => Some(
            V1ContainerStatus {
                status: clone_opt(&x.status),
                message: clone_opt(&x.message),
                accelerator: clone_opt(&x.accelerator),
                tailnet_url: clone_opt(&x.tailnet_url),
                ready: x.ready,
            },
        ),
        None => None,
    }
}

/// A stored container as the API answers it: kind `Container`, its fields
/// as stored, with an empty creator or platform when the row has none.
pub fn container_from_row(row: &ContainerRecord) -> (r: V1Container)
    ensures
        r.kind@ == "Container"@,
        r.name@ == row.name@,
        r.namespace@ == row.namespace@,
        r.id@ == row.id@,
        r.owner@ == row.owner@,
        r.owner_ref == row.owner_ref,
        r.created_at == row.created_at,
        r.updated_at == row.updated_at,
        r.created_by@ == (match row.created_by {
            Some(c) => c@,
            None => Seq::<char>::empty(),
        }),
        same_opt_vec(r.labels, row.labels),
        r.image@ == row.image@,
        r.platform@ == (match row.platform {
            Some(p) => p@,
            None => Seq::<char>::empty(),
        }),
        same_opt_vec(r.env, row.env),
        r.command == row.command,
        r.args == row.args,
        r.volumes == row.volumes,
        same_opt_vec(r.accelerators, row.accelerators),
        r.meters == row.meters,
        r.status == row.status,
        r.restart@ == row.restart@,
        r.queue == row.queue,
        r.timeout == row.timeout,
        r.resources == row.resources,
        r.health_check == row.health_check,
        r.ssh_keys == row.ssh_keys,
        r.ports == row.ports,
        r.proxy_port == row.proxy_port,
        r.authz == row.authz,
{
    V1Container {
        kind: String::from_str("Container"),
        name: row.name.clone(),
        namespace: row.namespace.clone(),
        id: row.id.clone(),
        owner: row.owner.clone(),
        owner_ref: clone_opt(&row.owner_ref),
        created_at: row.created_at,
        updated_at: row.updated_at,
        created_by: match &row.created_by {
            Some(c) => c.clone(),
            None => String::new(),
        },
        labels: match &row.labels {
            Some(l) => Some(clone_pairs(l)),
            None => None,
        },
        image: row.image.clone(),
        platform: match &row.platform {
            Some(p) => p.clone(),
            None => String::new(),
        },
        env: clone_opt_env(&row.env),
        command: clone_opt(&row.command),
        args: clone_opt(&row.args),
        volumes: clone_opt(&row.volumes),
        accelerators: clone_opt_strings(&row.accelerators),
        meters: clone_opt(&row.meters),
        status: clone_status(&row.status),
        restart: row.restart.clone(),
        queue: clone_opt(&row.queue),
        timeout: clone_opt(&row.timeout),
        resources: clone_opt(&row.resources),
        health_check: clone_opt(&row.health_check),
        ssh_keys: clone_opt(&row.ssh_keys),
        ports: clone_opt(&row.ports),
        proxy_port: row.proxy_port,
        authz: clone_opt(&row.authz),
    }
}

/// A field of the request's metadata, when there is metadata.
pub open spec fn meta_owner_ref(m: Option<V1ResourceMetaRequest>) -> Option<String> {
    match m {
        Some(x) => x.owner_ref,
        None => None,
    }
}

/// The labels of the request's metadata, when there is metadata.
pub open spec fn meta_labels(m: Option<V1ResourceMetaRequest>) -> Option<Vec<(String, String)>> {
    match m {
        Some(x) => x.labels,
        None => None,
    }
}

/// The namespace of the request's metadata, when there is metadata.
pub open spec fn meta_namespace(m: Option<V1ResourceMetaRequest>) -> Option<String> {
    match m {
        Some(x) => x.namespace,
        None => None,
    }
}

pub(crate) fn owner_ref_of(m: &Option<V1ResourceMetaRequest>) -> (r: Option<String>)
    ensures
        r == meta_owner_ref(*m),
{
    match m {
        Some(x) => clone_opt(&x.owner_ref),
        None => None,
    }
}

/// Two optional vectors hold the same elements (or are both absent).
pub open spec fn same_opt_vec<T>(a: Option<Vec<T>>, b: Option<Vec<T>>) -> bool {
    match (a, b) {
        (Some(x), Some(y)) => x@ == y@,
        (None, None) => true,
        _ => false,
    }
}

pub(crate) fn labels_of(m: &Option<V1ResourceMetaRequest>) -> (r: Option<Vec<(String, String)>>)
    ensures
        same_opt_vec(r, meta_labels(*m)),
{
    match m {
        Some(x) => match &x.labels {
            Some(l) => Some(clone_pairs(l)),
            None => None,
        },
        None => None,
    }
}

pub(crate) fn namespace_of(m: &Option<V1ResourceMetaRequest>) -> (r: Option<String>)
    ensures
        r == meta_namespace(*m),
{
    match m {
        Some(x) => clone_opt(&x.namespace),
        None => None,
    }
}

pub(crate) fn clone_pairs(v: &Vec<(String, String)>) -> (r: Vec<(String, String)>)
    ensures
        r@ == v@,
{
    let mut r: Vec<(String, String)> = Vec::new();
    let mut i: usize = 0;
    while i < v.len()
        invariant
            i <= v.len(),
            r@ == v@.take(i as int),
        decreases v.len() - i,
    {
        r.push((v[i].0.clone(), v[i].1.clone()));
        proof {
            assert(r@ =~= v@.take(i + 1));
        }
        i = i + 1;
    }
    proof {
        assert(v@.take(v.len() as int) =~= v@);
    }
    r
}

pub(crate) fn clone_strings(v: &Vec<String>) -> (r: Vec<String>)
    ensures
        r@ == v@,
{
    let mut r: Vec<String> = Vec::new();
    let mut i: usize = 0;
    while i < v.len()
        invariant
            i <= v.len(),
            r@ == v@.take(i as int),
        decreases v.len() - i,
    {
        r.push(v[i].clone());
        proof {
            assert(r@ =~= v@.take(i + 1));
        }
        i = i + 1;
    }
    proof {
        assert(v@.take(v.len() as int) =~= v@);
    }
    r
}

pub(crate) fn clone_env(v: &Vec<V1EnvVar>) -> (r: Vec<V1EnvVar>)
    ensures
        r@ == v@,
{
    let mut r: Vec<V1EnvVar> = Vec::new();
    let mut i: usize = 0;
    while i < v.len()
        invariant
            i <= v.len(),
            r@ == v@.take(i as int),
        decreases v.len() - i,
    {
        r.push(V1EnvVar { key: v[i].key.clone(), value: clone_opt(&v[i].value) });
        proof {
            assert(r@ =~= v@.take(i + 1));
        }
        i = i + 1;
    }
    proof {
        assert(v@.take(v.len() as int) =~= v@);
    }
    r
}

pub(crate) fn clone_opt_strings(o: &Option<Vec<String>>) -> (r: Option<Vec<String>>)
    ensures
        same_opt_vec(r, *o),
{
    match o {
        Some(v) => Some(clone_strings(v)),
        None => None,
    }
}

pub(crate) fn clone_opt_env(o: &Option<Vec<V1EnvVar>>) -> (r: Option<Vec<V1EnvVar>>)
    ensures
        same_opt_vec(r, *o),
{
    match o {
        Some(v) => Some(clone_env(v)),
        None => None,
    }
}

} // verus!
