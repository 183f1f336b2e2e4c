//! Decisions shared by the API handlers.

use crate::text::{concat2, strs};
use vstd::prelude::*;
use vstd::string::*;

verus! {

/// Who a user may act for: the user's organisations, then the user
/// (identified by e-mail).
pub fn owner_ids(organizations: Vec<String>, email: &String) -> (r: Vec<String>)
    ensures
        strs(r@) == strs(organizations@).push(email@),
{
    let ghost orgs = organizations@;
    let mut r = organizations;
    r.push(email.clone());
    proof {
        assert(strs(r@) =~= strs(orgs).push(email@));
    }
    r
}

/// Calls `uuid::Uuid::new_v4` and renders it with `to_string`, which writes
/// the hyphenated form: 36 characters.  The value itself is random.
#[verifier::external_body]
fn random_uuid_text() -> (r: String)
    ensures
        r@.len() == 36,
{
    uuid::Uuid::new_v4().to_string()
}

/// The identifier of a secret built on this unique text: `secret-<text>`.
pub fn secret_id_from(unique: &str) -> (r: String)
    ensures
        r@ == "secret-"@ + unique@,
{
    concat2("secret-", unique)
}

/// A fresh identifier for a new secret: `secret-` and a random UUID.
pub fn new_secret_id() -> (r: String)
    ensures
        r@.len() == 43,
        r@.subrange(0, 7) == "secret-"@,
{
    let u = random_uuid_text();
    let r = secret_id_from(u.as_str());
    proof {
        reveal_strlit("secret-");
        assert(r@.subrange(0, 7) =~= "secret-"@);
    }
    r
}

/// Deleting a secret removed it exactly when a row was affected; otherwise
/// the secret is reported missing.
pub fn secret_deletion_outcome(rows_affected: u64) -> (r: Result<(), String>)
    ensures
        match r {
            Ok(()) => rows_affected > 0,
            Err(e) => rows_affected == 0 && e@ == "Secret not found or already deleted"@,
        },
{
    if rows_affected == 0 {
        Err(String::from_str("Secret not found or already deleted"))
    } else {
        Ok(())
    }
}

} // verus!
