//! Managing Headscale API keys through the `headscale` command.

use crate::find::{
    first_index_where, is_first_match, lemma_first_index_where_map, lemma_first_match_unique,
    lemma_no_match,
};
use crate::text::{concat3, opt_str, parse_i64, spec_parse_i64, text_eq};
use vstd::prelude::*;
use vstd::string::*;

verus! {

/// The `headscale` command creating an API key that expires after
/// `expiration`.
pub fn create_api_key_command(expiration: &str) -> (r: Vec<String>)
    ensures
        crate::text::strs(r@) == seq!["headscale"@, "apikeys"@, "create"@, "--expiration"@, expiration@],
{
    let r = vec![
        String::from_str("headscale"),
        String::from_str("apikeys"),
        String::from_str("create"),
        String::from_str("--expiration"),
        String::from_str(expiration),
    ];
    proof {
        assert(crate::text::strs(r@) =~= seq![
            "headscale"@,
            "apikeys"@,
            "create"@,
            "--expiration"@,
            expiration@,
        ]);
    }
    r
}

/// The `headscale` command listing API keys as JSON.
pub fn list_api_keys_command() -> (r: Vec<String>)
    ensures
        crate::text::strs(r@) == seq!["headscale"@, "apikeys"@, "list"@, "-o"@, "json"@],
{
    let r = vec![
        String::from_str("headscale"),
        String::from_str("apikeys"),
        String::from_str("list"),
        String::from_str("-o"),
        String::from_str("json"),
    ];
    proof {
        assert(crate::text::strs(r@) =~= seq!["headscale"@, "apikeys"@, "list"@, "-o"@, "json"@]);
    }
    r
}

/// The command printing the current time in nanoseconds.
pub fn timestamp_command() -> (r: Vec<String>)
    ensures
        crate::text::strs(r@) == seq!["date"@, "+%s%N"@],
{
    let r = vec![String::from_str("date"), String::from_str("+%s%N")];
    proof {
        assert(crate::text::strs(r@) =~= seq!["date"@, "+%s%N"@]);
    }
    r
}

/// The `headscale` command expiring the API key with this prefix.
pub fn revoke_api_key_command(prefix: &str) -> (r: Vec<String>)
    ensures
        crate::text::strs(r@) == seq!["headscale"@, "apikeys"@, "expire"@, "--prefix"@, prefix@],
{
    let r = vec![
        String::from_str("headscale"),
        String::from_str("apikeys"),
        String::from_str("expire"),
        String::from_str("--prefix"),
        String::from_str(prefix),
    ];
    proof {
        assert(crate::text::strs(r@) =~= seq![
            "headscale"@,
            "apikeys"@,
            "expire"@,
            "--prefix"@,
            prefix@,
        ]);
    }
    r
}

/// Expiration of a listed key: its seconds and nanoseconds, each when it is
/// present as an integer.
#[derive(Debug, Clone, Copy)]
pub struct ApiKeyExpiration {
    pub seconds: Option<i64>,
    pub nanos: Option<i64>,
}

/// A listed API key: its prefix (when a string) and its expiration.
#[derive(Debug, Clone)]
pub struct ApiKeyEntry {
    pub prefix: Option<String>,
    pub expiration: Option<ApiKeyExpiration>,
}

/// The predicate "the key has this prefix".
pub open spec fn prefix_is(p: Seq<char>) -> spec_fn(ApiKeyEntry) -> bool {
    |e: ApiKeyEntry| opt_str(e.prefix) == Some(p)
}

/// Expiration time in nanoseconds.
pub open spec fn expiration_nanos(e: ApiKeyExpiration) -> int {
    e.seconds->0 * 1_000_000_000 + e.nanos->0
}

/// The expiration of the key the check looks at can be read: both parts
/// present, the time fits an `i64`, and the current time parses.
pub open spec fn key_check_readable(keys: Seq<ApiKeyEntry>, prefix: Seq<char>, timestamp: Seq<char>) -> bool {
    let i = first_index_where(keys, prefix_is(prefix));
    i >= 0 && keys[i].expiration is Some ==> {
        let e = keys[i].expiration->0;
        &&& e.seconds is Some
        &&& e.nanos is Some
        &&& i64::MIN <= e.seconds->0 * 1_000_000_000 <= i64::MAX
        &&& i64::MIN <= expiration_nanos(e) <= i64::MAX
        &&& spec_parse_i64(timestamp) is Some
    }
}

/// Whether the first key with the prefix is still valid at the time
/// `timestamp` (nanoseconds): `false` when no key has the prefix, an error
/// when that key has no expiration, and otherwise whether it has not yet
/// expired.
pub fn api_key_status(keys: &Vec<ApiKeyEntry>, prefix: &str, timestamp: &str) -> (r: Result<
    bool,
    String,
>)
    requires
        key_check_readable(keys@, prefix@, timestamp@),
    ensures
        ({
            let i = first_index_where(keys@, prefix_is(prefix@));
            if i < 0 {
                r == Ok::<bool, String>(false)
            } else {
                match keys@[i].expiration {
                    None => r matches Err(e) && e@ == "API key with prefix "@ + prefix@
                        + " has no expiration time"@,
                    Some(x) => r == Ok::<bool, String>(
                        !(expiration_nanos(x) < spec_parse_i64(timestamp@)->0),
                    ),
                }
            }
        }),
{
    let ghost p = prefix_is(prefix@);
    let mut i: usize = 0;
    while i < keys.len()
        invariant
            i <= keys.len(),
            p == prefix_is(prefix@),
            key_check_readable(keys@, prefix@, timestamp@),
            forall|j: int| 0 <= j < i ==> !p(#[trigger] keys@[j]),
        decreases keys.len() - i,
    {
        let matches = match &keys[i].prefix {
            Some(x) => text_eq(x.as_str(), prefix),
            None => false,
        };
        if matches {
            proof {
                assert(is_first_match(keys@, p, i as int));
                lemma_first_match_unique(keys@, p, i as int);
            }
            return match keys[i].expiration {
                Some(x) => {
                    let seconds = match x.seconds {
                        Some(s) => s,
                        None => 0,
                    };
                    let nanos = match x.nanos {
                        Some(n) => n,
                        None => 0,
                    };
                    let expiration_time = seconds * 1_000_000_000 + nanos;
                    let now = match parse_i64(timestamp) {
                        Some(t) => t,
                        None => 0,
                    };
                    if expiration_time < now {
                        Ok(false)
                    } else {
                        Ok(true)
                    }
                },
                None => Err(concat3("API key with prefix ", prefix, " has no expiration time")),
            };
        }
        i = i + 1;
    }
    proof {
        lemma_no_match(keys@, p);
    }
    Ok(false)
}

/// What `api_key_status` answers: `false` when no key has the prefix, the
/// refusal when the first such key has no expiration, and otherwise whether
/// it has not expired at `timestamp`.
pub open spec fn api_key_status_model(keys: Seq<ApiKeyEntry>, prefix: Seq<char>, timestamp: Seq<char>) -> Result<
    bool,
    Seq<char>,
> {
    let i = first_index_where(keys, prefix_is(prefix));
    if i < 0 {
        Ok(false)
    } else {
        match keys[i].expiration {
            None => Err("API key with prefix "@ + prefix + " has no expiration time"@),
            Some(x) => Ok(!(expiration_nanos(x) < spec_parse_i64(timestamp)->0)),
        }
    }
}

fn first_with_prefix(keys: &Vec<ApiKeyEntry>, prefix: &str) -> (r: Option<usize>)
    ensures
        match r {
            Some(i) => i < keys.len() && i as int == first_index_where(keys@, prefix_is(prefix@)),
            None => first_index_where(keys@, prefix_is(prefix@)) == -1,
        },
{
    let ghost p = prefix_is(prefix@);
    let mut i: usize = 0;
    while i < keys.len()
        invariant
            i <= keys.len(),
            p == prefix_is(prefix@),
            forall|j: int| 0 <= j < i ==> !p(#[trigger] keys@[j]),
        decreases keys.len() - i,
    {
        let matches = match &keys[i].prefix {
            Some(x) => text_eq(x.as_str(), prefix),
            None => false,
        };
        if matches {
            proof {
                lemma_first_match_unique(keys@, p, i as int);
            }
            return Some(i);
        }
        i = i + 1;
    }
    proof {
        lemma_no_match(keys@, p);
    }
    None
}

/// Checks the key as `api_key_status` does, after testing that the
/// expiration of the key it looks at can be read; `None` when it cannot
/// (a missing part, a time beyond `i64`, or a timestamp that is no integer),
/// where the command has always stopped.
pub fn checked_api_key_status(keys: &Vec<ApiKeyEntry>, prefix: &str, timestamp: &str) -> (r: Option<
    Result<bool, String>,
>)
    ensures
        r is Some <==> key_check_readable(keys@, prefix@, timestamp@),
        match r {
            Some(Ok(b)) => api_key_status_model(keys@, prefix@, timestamp@) == Ok::<bool, Seq<char>>(b),
            Some(Err(e)) => api_key_status_model(keys@, prefix@, timestamp@) == Err::<bool, Seq<char>>(e@),
            None => true,
        },
{
    let readable = match first_with_prefix(keys, prefix) {
        None => true,
        Some(i) => match keys[i].expiration {
            None => true,
            Some(x) => match (x.seconds, x.nanos) {
                (Some(sec), Some(n)) => match sec.checked_mul(1_000_000_000) {
                    Some(t) => match t.checked_add(n) {
                        Some(_) => parse_i64(timestamp).is_some(),
                        None => false,
                    },
                    None => false,
                },
                _ => false,
            },
        },
    };
    if readable {
        let r = api_key_status(keys, prefix, timestamp);
        match r {
            Ok(b) => Some(Ok(b)),
            Err(e) => Some(Err(e)),
        }
    } else {
        None
    }
}

// ---------------------------------------------------------------------------
// Reading the key list printed by `headscale apikeys list -o json`
// ---------------------------------------------------------------------------

/// View of a listed key: its prefix, and its expiration's seconds and
/// nanoseconds when it has an expiration.
pub open spec fn entry_view(e: ApiKeyEntry) -> (Option<Seq<char>>, Option<(Option<i64>, Option<i64>)>) {
    (
        opt_str(e.prefix),
        match e.expiration {
            Some(x) => Some((x.seconds, x.nanos)),
            None => None,
        },
    )
}

/// View of the result of reading a key list.
pub open spec fn key_list_view(r: Result<Vec<ApiKeyEntry>, String>) -> Result<
    Seq<(Option<Seq<char>>, Option<(Option<i64>, Option<i64>)>)>,
    Seq<char>,
> {
    match r {
        Ok(v) => Ok(v@.map_values(|e: ApiKeyEntry| entry_view(e))),
        Err(e) => Err(e@),
    }
}

/// What `serde_json` reads from the printed key list: for each value of the
/// top-level JSON array, its `prefix` when that is a string, and its
/// `expiration` when present, with `seconds` and `nanos` when they are
/// integers that fit an `i64`; or the text of the parse error when the
/// output is no JSON array.
pub uninterp spec fn spec_api_key_list(output: Seq<char>) -> Result<
    Seq<(Option<Seq<char>>, Option<(Option<i64>, Option<i64>)>)>,
    Seq<char>,
>;

/// Calls `serde_json::from_str::<Vec<serde_json::Value>>` on the printed key
/// list and reads each value's `prefix` (`as_str`) and `expiration` with its
/// `seconds` and `nanos` (`as_i64`); a parse error is rendered with
/// `to_string`.  The result is named `spec_api_key_list` of the text.
#[verifier::external_body]
fn parse_api_key_list(output: &str) -> (r: Result<Vec<ApiKeyEntry>, String>)
    ensures
        key_list_view(r) == spec_api_key_list(output@),
{
    let values = serde_json::from_str::<Vec<serde_json::Value>>(output).map_err(|e| e.to_string())?;
    Ok(values.iter().map(|v| ApiKeyEntry {
        prefix: v.get("prefix").and_then(|p| p.as_str()).map(String::from),
        expiration: v.get("expiration").map(|x| ApiKeyExpiration {
            seconds: x.get("seconds").and_then(|n| n.as_i64()),
            nanos: x.get("nanos").and_then(|n| n.as_i64()),
        }),
    }).collect())
}

/// The predicate "the listed key has this prefix", on views.
pub open spec fn view_prefix_is(p: Seq<char>) -> spec_fn(
    (Option<Seq<char>>, Option<(Option<i64>, Option<i64>)>),
) -> bool {
    |v: (Option<Seq<char>>, Option<(Option<i64>, Option<i64>)>)| v.0 == Some(p)
}

/// `key_check_readable`, on the views of the listed keys.
pub open spec fn list_readable(
    l: Seq<(Option<Seq<char>>, Option<(Option<i64>, Option<i64>)>)>,
    prefix: Seq<char>,
    timestamp: Seq<char>,
) -> bool {
    let i = first_index_where(l, view_prefix_is(prefix));
    i >= 0 && l[i].1 is Some ==> {
        let (sec, nanos) = l[i].1->0;
        &&& sec is Some
        &&& nanos is Some
        &&& i64::MIN <= sec->0 * 1_000_000_000 <= i64::MAX
        &&& i64::MIN <= sec->0 * 1_000_000_000 + nanos->0 <= i64::MAX
        &&& spec_parse_i64(timestamp) is Some
    }
}

/// `api_key_status_model`, on the views of the listed keys.
pub open spec fn list_status_model(
    l: Seq<(Option<Seq<char>>, Option<(Option<i64>, Option<i64>)>)>,
    prefix: Seq<char>,
    timestamp: Seq<char>,
) -> Result<bool, Seq<char>> {
    let i = first_index_where(l, view_prefix_is(prefix));
    if i < 0 {
        Ok(false)
    } else {
        match l[i].1 {
            None => Err("API key with prefix "@ + prefix + " has no expiration time"@),
            Some((sec, nanos)) => Ok(
                !(sec->0 * 1_000_000_000 + nanos->0 < spec_parse_i64(timestamp)->0),
            ),
        }
    }
}

proof fn lemma_list_models(keys: Seq<ApiKeyEntry>, prefix: Seq<char>, timestamp: Seq<char>)
    ensures
        key_check_readable(keys, prefix, timestamp) == list_readable(
            keys.map_values(|e: ApiKeyEntry| entry_view(e)),
            prefix,
            timestamp,
        ),
        api_key_status_model(keys, prefix, timestamp) == list_status_model(
            keys.map_values(|e: ApiKeyEntry| entry_view(e)),
            prefix,
            timestamp,
        ),
{
    let f = |e: ApiKeyEntry| entry_view(e);
    let l = keys.map_values(f);
    assert forall|a: ApiKeyEntry| #[trigger] prefix_is(prefix)(a) == view_prefix_is(prefix)(f(a)) by {}
    lemma_first_index_where_map(keys, f, prefix_is(prefix), view_prefix_is(prefix));
    let i = first_index_where(keys, prefix_is(prefix));
    crate::find::lemma_first_index_where(keys, prefix_is(prefix));
    if i >= 0 {
        assert(l[i] == entry_view(keys[i]));
    }
}

/// Whether the API key with this prefix is still valid, from the printed key
/// list and the printed current time: the parse error when the list is no
/// JSON array; otherwise `None` when the key's expiration cannot be read
/// (where the command has always stopped), else what `api_key_status`
/// answers for the listed keys.
pub fn validate_api_key_output(list_output: &str, prefix: &str, timestamp: &str) -> (r: Option<
    Result<bool, String>,
>)
    ensures
        match spec_api_key_list(list_output@) {
            Err(e) => r matches Some(Err(m)) && m@ == e,
            Ok(l) => {
                &&& (r is Some <==> list_readable(l, prefix@, timestamp@))
                &&& match r {
                    Some(Ok(b)) => list_status_model(l, prefix@, timestamp@) == Ok::<bool, Seq<char>>(b),
                    Some(Err(m)) => list_status_model(l, prefix@, timestamp@) == Err::<bool, Seq<char>>(m@),
                    None => true,
                }
            },
        },
{
    match parse_api_key_list(list_output) {
        Err(e) => Some(Err(e)),
        Ok(keys) => {
            proof {
                lemma_list_models(keys@, prefix@, timestamp@);
            }
            checked_api_key_status(&keys, prefix, timestamp)
        },
    }
}

/// Law: a key found with an expiration is valid exactly until its
/// expiration time, that instant included; so a key valid at some time was
/// valid at every earlier time.
pub proof fn law_key_valid_until_expiration(keys: Seq<ApiKeyEntry>, prefix: Seq<char>, t1: Seq<char>, t2: Seq<char>)
    requires
        first_index_where(keys, prefix_is(prefix)) >= 0,
        keys[first_index_where(keys, prefix_is(prefix))].expiration is Some,
    ensures
        ({
            let x = keys[first_index_where(keys, prefix_is(prefix))].expiration->0;
            api_key_status_model(keys, prefix, t1) == Ok::<bool, Seq<char>>(
                spec_parse_i64(t1)->0 <= expiration_nanos(x),
            )
        }),
        spec_parse_i64(t1)->0 <= spec_parse_i64(t2)->0 && api_key_status_model(keys, prefix, t2)
            == Ok::<bool, Seq<char>>(true) ==> api_key_status_model(keys, prefix, t1) == Ok::<
            bool,
            Seq<char>,
        >(true),
{
}

} // verus!
