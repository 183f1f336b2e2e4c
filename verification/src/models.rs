//! Metadata shared by the resource models.

use vstd::prelude::*;

verus! {

/// Metadata of a stored resource.
#[derive(Debug, Clone)]
pub struct V1ResourceMeta {
    pub name: String,
    pub namespace: String,
    pub id: String,
    pub owner: String,
    pub owner_ref: Option<String>,
    pub created_at: i64,
    pub updated_at: i64,
    pub created_by: String,
    pub labels: Option<Vec<(String, String)>>,
}

/// Metadata a client may give when requesting a resource.
#[derive(Debug, Clone)]
pub struct V1ResourceMetaRequest {
    pub name: Option<String>,
    pub namespace: Option<String>,
    pub labels: Option<Vec<(String, String)>>,
    pub owner_ref: Option<String>,
}

} // verus!
