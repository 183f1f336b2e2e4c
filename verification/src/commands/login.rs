//! Logging the command-line client in to a server.

use crate::config::{spec_contains_server, GlobalConfig, ServerConfig};
use crate::text::{concat2, trim, trim_end_char, trim_end_char_spec, trim_ws};
use vstd::prelude::*;
use vstd::string::*;

verus! {

/// A URL as given, without surrounding whitespace or trailing slashes.
pub open spec fn normalized_url(url: Seq<char>) -> Seq<char> {
    trim_end_char_spec(trim_ws(url), '/')
}

/// Removing every trailing `c` leaves a text that does not end with `c`
/// and is a prefix of the original.
pub proof fn lemma_trim_end_char(s: Seq<char>, c: char)
    ensures
        trim_end_char_spec(s, c).len() == 0 || trim_end_char_spec(s, c).last() != c,
        trim_end_char_spec(s, c).len() <= s.len(),
        trim_end_char_spec(s, c) == s.subrange(0, trim_end_char_spec(s, c).len() as int),
    decreases s.len(),
{
    if s.len() > 0 && s.last() == c {
        lemma_trim_end_char(s.drop_last(), c);
        let t = trim_end_char_spec(s.drop_last(), c);
        assert(s.drop_last().subrange(0, t.len() as int) =~= s.subrange(0, t.len() as int));
    } else {
        assert(s.subrange(0, s.len() as int) =~= s);
    }
}

/// Law: a normalised server URL does not end with a slash (it is what the
/// login stores, so `<url>/v1/...` paths join cleanly).
pub proof fn law_normalized_url_has_no_trailing_slash(url: Seq<char>)
    ensures
        normalized_url(url).len() == 0 || normalized_url(url).last() != '/',
{
    lemma_trim_end_char(trim_ws(url), '/');
}

/// A URL without surrounding whitespace or trailing slashes.
pub fn normalize_server_url(url: &str) -> (r: String)
    ensures
        r@ == normalized_url(url@),
{
    let t = trim(url);
    trim_end_char(t.as_str(), '/')
}

/// The auth server and the hub are given together or not at all.
pub fn check_auth_and_hub(auth: &Option<String>, hub: &Option<String>) -> (r: Result<(), String>)
    ensures
        match r {
            Ok(()) => auth is None == hub is None,
            Err(e) => auth is None != hub is None && e@
                == "Either auth or hub URL provided. Please provide both or neither."@,
        },
{
    if auth.is_none() != hub.is_none() {
        Err(String::from_str("Either auth or hub URL provided. Please provide both or neither."))
    } else {
        Ok(())
    }
}

/// A server name already in the configuration is only reused when updating.
pub fn check_login_name(config: &GlobalConfig, name: &str, update: bool) -> (r: Result<(), String>)
    ensures
        match r {
            Ok(()) => !spec_contains_server(config@, name@) || update,
            Err(e) => spec_contains_server(config@, name@) && !update && e@ == "Server with name '"@
                + name@ + "' already exists. Please choose a different name or set --update flag."@,
        },
{
    if config.contains_server(name) && !update {
        let mut e = concat2("Server with name '", name);
        e.append("' already exists. Please choose a different name or set --update flag.");
        Err(e)
    } else {
        Ok(())
    }
}

/// Where the hub hands out API keys: `<hub>/settings/api`.
pub fn hub_api_url(hub: &str) -> (r: String)
    ensures
        r@ == normalized_url(hub@) + "/settings/api"@,
{
    let h = normalize_server_url(hub);
    concat2(h.as_str(), "/settings/api")
}

/// The server entry a login records.
pub fn login_server_config(
    name: String,
    nebu_url: String,
    api_key: String,
    auth_url: Option<String>,
) -> (r: ServerConfig)
    ensures
        r.name == name,
        r.server == Some(nebu_url),
        r.api_key == Some(api_key),
        r.auth_server == auth_url,
{
    ServerConfig { name, server: Some(nebu_url), api_key: Some(api_key), auth_server: auth_url }
}

} // verus!
