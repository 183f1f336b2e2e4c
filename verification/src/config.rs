//! Client configuration (the list of known servers and the current one) and
//! the server's environment-derived settings.

use crate::find::{
    first_index_where, is_first_match, lemma_first_index_where, lemma_first_match_unique,
    lemma_no_match, no_match,
};
use crate::text::{clone_opt, opt_str, text_eq};
use vstd::prelude::*;
use vstd::string::*;

verus! {

/// One server the command-line client knows.
#[derive(Clone, Debug)]
pub struct ServerConfig {
    pub name: String,
    pub api_key: Option<String>,
    pub server: Option<String>,
    pub auth_server: Option<String>,
}

/// Model of a [`ServerConfig`].
pub struct ServerConfigView {
    pub name: Seq<char>,
    pub api_key: Option<Seq<char>>,
    pub server: Option<Seq<char>>,
    pub auth_server: Option<Seq<char>>,
}

impl View for ServerConfig {
    type V = ServerConfigView;

    open spec fn view(&self) -> ServerConfigView {
        ServerConfigView {
            name: self.name@,
            api_key: opt_str(self.api_key),
            server: opt_str(self.server),
            auth_server: opt_str(self.auth_server),
        }
    }
}

/// The client's configuration: known servers and the name of the current one.
#[derive(Debug)]
pub struct GlobalConfig {
    pub servers: Vec<ServerConfig>,
    pub current_server: Option<String>,
}

/// Model of a [`GlobalConfig`].
pub struct GlobalConfigView {
    pub servers: Seq<ServerConfigView>,
    pub current_server: Option<Seq<char>>,
}

impl View for GlobalConfig {
    type V = GlobalConfigView;

    open spec fn view(&self) -> GlobalConfigView {
        GlobalConfigView {
            servers: self.servers@.map_values(|c: ServerConfig| c@),
            current_server: opt_str(self.current_server),
        }
    }
}

/// The predicate "has this name".
pub open spec fn name_is(n: Seq<char>) -> spec_fn(ServerConfigView) -> bool {
    |c: ServerConfigView| c.name == n
}

/// Position of the first server named `n`, or `-1`.
pub open spec fn server_index(servers: Seq<ServerConfigView>, n: Seq<char>) -> int {
    first_index_where(servers, name_is(n))
}

/// The server a lookup by name finds: the first one with that name.
pub open spec fn spec_get_server(c: GlobalConfigView, n: Seq<char>) -> Option<ServerConfigView> {
    let i = server_index(c.servers, n);
    if i >= 0 {
        Some(c.servers[i])
    } else {
        None
    }
}

/// Some server has name `n`.
pub open spec fn spec_contains_server(c: GlobalConfigView, n: Seq<char>) -> bool {
    server_index(c.servers, n) >= 0
}

/// The configuration of the current server, if it is set and known.
pub open spec fn spec_current_server(c: GlobalConfigView) -> Option<ServerConfigView> {
    match c.current_server {
        Some(n) => spec_get_server(c, n),
        None => None,
    }
}

/// Replace the first server with the same name, or append the new one (and
/// then make it current when asked).
pub open spec fn spec_update_server(
    c: GlobalConfigView,
    s: ServerConfigView,
    make_current: bool,
) -> GlobalConfigView {
    let i = server_index(c.servers, s.name);
    if i >= 0 {
        GlobalConfigView { servers: c.servers.update(i, s), current_server: c.current_server }
    } else {
        GlobalConfigView {
            servers: c.servers.push(s),
            current_server: if make_current {
                Some(s.name)
            } else {
                c.current_server
            },
        }
    }
}

/// Remove the first server named `n`; clear the current server when it was
/// that name.  Nothing changes when no server has that name.
pub open spec fn spec_drop_server(c: GlobalConfigView, n: Seq<char>) -> GlobalConfigView {
    let i = server_index(c.servers, n);
    if i >= 0 {
        GlobalConfigView {
            servers: c.servers.remove(i),
            current_server: if c.current_server == Some(n) {
                None
            } else {
                c.current_server
            },
        }
    } else {
        c
    }
}

/// No two servers share a name.
pub open spec fn unique_names(s: Seq<ServerConfigView>) -> bool {
    forall|i: int, j: int| 0 <= i < j < s.len() ==> #[trigger] s[i].name != #[trigger] s[j].name
}

/// The predicate "has exactly these credentials".
pub open spec fn credentials_are(
    key: Seq<char>,
    server: Seq<char>,
    auth: Seq<char>,
) -> spec_fn(ServerConfigView) -> bool {
    |c: ServerConfigView|
        c.api_key == Some(key) && c.server == Some(server) && c.auth_server == Some(auth)
}

/// Name given to the server entry made from environment credentials.
pub open spec fn env_server_name() -> Seq<char> {
    "env-based-server"@
}

/// The server entry made from environment credentials.
pub open spec fn env_server(key: Seq<char>, server: Seq<char>, auth: Seq<char>) -> ServerConfigView {
    ServerConfigView {
        name: env_server_name(),
        api_key: Some(key),
        server: Some(server),
        auth_server: Some(auth),
    }
}

/// Effect of credentials found in the environment: when all three are set,
/// the first server holding exactly them becomes current; without such a
/// server, an entry named `env-based-server` is added or replaced.
pub open spec fn spec_apply_env_credentials(
    c: GlobalConfigView,
    key: Option<Seq<char>>,
    server: Option<Seq<char>>,
    auth: Option<Seq<char>>,
) -> GlobalConfigView {
    match (key, server, auth) {
        (Some(k), Some(s), Some(a)) => {
            let i = first_index_where(c.servers, credentials_are(k, s, a));
            if i >= 0 {
                GlobalConfigView { servers: c.servers, current_server: Some(c.servers[i].name) }
            } else {
                spec_update_server(c, env_server(k, s, a), true)
            }
        },
        _ => c,
    }
}

/// Make the server named `n` current (its name as stored, which is `n`).
pub open spec fn spec_select_current(c: GlobalConfigView, n: Seq<char>) -> GlobalConfigView {
    GlobalConfigView { servers: c.servers, current_server: Some(n) }
}

/// Message refusing to add a server whose name is taken.
pub open spec fn duplicate_server_message(n: Seq<char>) -> Seq<char> {
    "Server with name '"@ + n + "' already exists. Please choose a different name."@
}

/// View of an optional reference to a server entry.
pub open spec fn opt_server(o: Option<&ServerConfig>) -> Option<ServerConfigView> {
    match o {
        Some(c) => Some(c@),
        None => None,
    }
}

fn opt_text_is(o: &Option<String>, t: &String) -> (b: bool)
    ensures
        b == (opt_str(*o) == Some(t@)),
{
    match o {
        Some(s) => *s == *t,
        None => false,
    }
}

impl Default for GlobalConfig {
    fn default() -> (r: Self)
        ensures
            r@.servers == Seq::<ServerConfigView>::empty(),
            r@.current_server == None::<Seq<char>>,
    {
        let r = GlobalConfig { servers: Vec::new(), current_server: None };
        proof {
            assert(r@.servers =~= Seq::<ServerConfigView>::empty());
        }
        r
    }
}

impl GlobalConfig {
    /// Position of the first server named `name`.
    fn find_server(&self, name: &str) -> (r: Option<usize>)
        ensures
            match r {
                Some(i) => i as int == server_index(self@.servers, name@) && i
                    < self.servers.len(),
                None => server_index(self@.servers, name@) == -1,
            },
    {
        let ghost p = name_is(name@);
        let mut i: usize = 0;
        while i < self.servers.len()
            invariant
                i <= self.servers.len(),
                p == name_is(name@),
                forall|j: int| 0 <= j < i ==> !p(#[trigger] self@.servers[j]),
            decreases self.servers.len() - i,
        {
            if text_eq(self.servers[i].name.as_str(), name) {
                proof {
                    assert(p(self@.servers[i as int]));
                    lemma_first_match_unique(self@.servers, p, i as int);
                }
                return Some(i);
            }
            i = i + 1;
        }
        proof {
            lemma_no_match(self@.servers, p);
        }
        None
    }

    /// Position of the first server holding exactly these credentials.
    fn find_credentials(&self, key: &String, srv: &String, auth: &String) -> (r: Option<usize>)
        ensures
            match r {
                Some(k) => k < self.servers.len() && is_first_match(
                    self@.servers,
                    credentials_are(key@, srv@, auth@),
                    k as int,
                ),
                None => no_match(self@.servers, credentials_are(key@, srv@, auth@)),
            },
    {
        let ghost p = credentials_are(key@, srv@, auth@);
        let mut i: usize = 0;
        while i < self.servers.len()
            invariant
                i <= self.servers.len(),
                p == credentials_are(key@, srv@, auth@),
                forall|j: int| 0 <= j < i ==> !p(#[trigger] self@.servers[j]),
            decreases self.servers.len() - i,
        {
            let c = &self.servers[i];
            if opt_text_is(&c.api_key, key) && opt_text_is(&c.server, srv) && opt_text_is(
                &c.auth_server,
                auth,
            ) {
                proof {
                    assert(p(self@.servers[i as int]));
                }
                return Some(i);
            }
            i = i + 1;
        }
        None
    }

    /// The configuration of the current server.
    pub fn get_current_server_config(&self) -> (r: Option<&ServerConfig>)
        ensures
            opt_server(r) == spec_current_server(self@),
    {
        match &self.current_server {
            Some(name) => self.get_server(name.as_str()),
            None => None,
        }
    }

    /// The first server named `name`.
    pub fn get_server(&self, name: &str) -> (r: Option<&ServerConfig>)
        ensures
            opt_server(r) == spec_get_server(self@, name@),
    {
        match self.find_server(name) {
            Some(i) => Some(&self.servers[i]),
            None => None,
        }
    }

    /// Removes the first server named `name`; when `name` was the current
    /// server, there is no current server any more.
    pub fn drop_server(&mut self, name: &str)
        ensures
            final(self)@ == spec_drop_server(old(self)@, name@),
    {
        match self.find_server(name) {
            Some(pos) => {
                let ghost before = self@;
                let ghost old_servers = self.servers@;
                self.servers.remove(pos);
                proof {
                    assert(self.servers@.map_values(|c: ServerConfig| c@) =~= before.servers.remove(
                        pos as int,
                    ));
                }
                let is_current = match &self.current_server {
                    Some(c) => text_eq(c.as_str(), name),
                    None => false,
                };
                if is_current {
                    self.current_server = None;
                }
            },
            None => {},
        }
    }

    /// Replaces the first server with the same name, or appends the new one;
    /// an appended server becomes current when `make_current` is set.
    pub fn update_server(&mut self, new_config: ServerConfig, make_current: bool)
        ensures
            final(self)@ == spec_update_server(old(self)@, new_config@, make_current),
    {
        let ghost before = self@;
        let ghost nc = new_config@;
        match self.find_server(new_config.name.as_str()) {
            Some(pos) => {
                self.servers.set(pos, new_config);
                proof {
                    assert(self@.servers =~= before.servers.update(pos as int, nc));
                }
            },
            None => {
                if make_current {
                    self.current_server = Some(new_config.name.clone());
                }
                self.servers.push(new_config);
                proof {
                    assert(self@.servers =~= before.servers.push(nc));
                }
            },
        }
    }

    /// Adds a server unless one with the same name exists; in that case the
    /// configuration is unchanged and the refusal message is returned.
    pub fn add_server(&mut self, config: ServerConfig, make_current: bool) -> (r: Result<
        (),
        String,
    >)
        ensures
            match r {
                Ok(()) => !spec_contains_server(old(self)@, config.name@) && final(self)@
                    == spec_update_server(old(self)@, config@, make_current),
                Err(e) => spec_contains_server(old(self)@, config.name@) && final(self)@ == old(
                    self,
                )@ && e@ == duplicate_server_message(config.name@),
            },
    {
        if self.contains_server(config.name.as_str()) {
            let mut msg = String::from_str("Server with name '");
            msg.append(config.name.as_str());
            msg.append("' already exists. Please choose a different name.");
            return Err(msg);
        }
        self.update_server(config, make_current);
        Ok(())
    }

    /// Makes the server named `name` the current one; an unknown name leaves
    /// the configuration unchanged and is refused.
    pub fn select_current_server(&mut self, name: &str) -> (r: Result<(), String>)
        ensures
            match r {
                Ok(()) => spec_contains_server(old(self)@, name@) && final(self)@
                    == spec_select_current(old(self)@, name@),
                Err(e) => !spec_contains_server(old(self)@, name@) && final(self)@ == old(self)@
                    && e@ == "Server '"@ + name@ + "' not found in configuration."@,
            },
    {
        match self.find_server(name) {
            Some(_) => {
                self.current_server = Some(String::from_str(name));
                Ok(())
            },
            None => {
                let mut msg = String::from_str("Server '");
                msg.append(name);
                msg.append("' not found in configuration.");
                Err(msg)
            },
        }
    }

    /// The current server as shown to the user: its API key, when it has
    /// one or not, is replaced by `<redacted>`.
    pub fn redacted_current_server(&self) -> (r: Option<ServerConfig>)
        ensures
            match spec_current_server(self@) {
                Some(s) => r matches Some(x) && x@ == (ServerConfigView {
                    api_key: Some("<redacted>"@),
                    ..s
                }),
                None => r is None,
            },
    {
        match self.get_current_server_config() {
            Some(s) => Some(
                ServerConfig {
                    name: s.name.clone(),
                    api_key: Some(String::from_str("<redacted>")),
                    server: clone_opt(&s.server),
                    auth_server: clone_opt(&s.auth_server),
                },
            ),
            None => None,
        }
    }

    /// Whether a server named `name` exists.
    pub fn contains_server(&self, name: &str) -> (b: bool)
        ensures
            b == spec_contains_server(self@, name@),
    {
        self.find_server(name).is_some()
    }

    /// Applies credentials read from the environment (`NEBU_API_KEY`,
    /// `NEBU_SERVER`, `NEBU_AUTH_SERVER` or their older names): when all
    /// three are present, the server holding exactly them becomes current, or
    /// an `env-based-server` entry holding them is added or replaced.
    pub fn create_config_from_environment(
        &mut self,
        env_api_key: Option<String>,
        env_server: Option<String>,
        env_auth_server: Option<String>,
    )
        ensures
            final(self)@ == spec_apply_env_credentials(
                old(self)@,
                opt_str(env_api_key),
                opt_str(env_server),
                opt_str(env_auth_server),
            ),
    {
        match (env_api_key, env_server, env_auth_server) {
            (Some(key), Some(srv), Some(auth)) => {
                let ghost p = credentials_are(key@, srv@, auth@);
                let found = self.find_credentials(&key, &srv, &auth);
                match found {
                    Some(k) => {
                        proof {
                            lemma_first_match_unique(self@.servers, p, k as int);
                        }
                        let ghost before = self@;
                        self.current_server = Some(self.servers[k].name.clone());
                        proof {
                            assert(self@.servers =~= before.servers);
                        }
                    },
                    None => {
                        proof {
                            lemma_no_match(self@.servers, p);
                        }
                        let new_server = ServerConfig {
                            name: String::from_str("env-based-server"),
                            api_key: Some(key),
                            server: Some(srv),
                            auth_server: Some(auth),
                        };
                        self.update_server(new_server, true);
                    },
                }
            },
            _ => {},
        }
    }
}

// ---------------------------------------------------------------------------
// Laws of the server list
// ---------------------------------------------------------------------------

proof fn lemma_name_index(s: Seq<ServerConfigView>, n: Seq<char>)
    ensures
        -1 <= server_index(s, n) < s.len(),
        server_index(s, n) == -1 <==> no_match(s, name_is(n)),
        server_index(s, n) >= 0 ==> is_first_match(s, name_is(n), server_index(s, n)),
{
    lemma_first_index_where(s, name_is(n));
}

/// Law: after a server is updated or added, looking up its name finds
/// exactly the new entry.
pub proof fn law_update_then_get(c: GlobalConfigView, s: ServerConfigView, make_current: bool)
    ensures
        spec_get_server(spec_update_server(c, s, make_current), s.name) == Some(s),
{
    let p = name_is(s.name);
    lemma_name_index(c.servers, s.name);
    let i = server_index(c.servers, s.name);
    let t = spec_update_server(c, s, make_current).servers;
    if i >= 0 {
        assert(is_first_match(t, p, i));
        lemma_first_match_unique(t, p, i);
    } else {
        assert(is_first_match(t, p, c.servers.len() as int)) by {
            assert forall|j: int| 0 <= j < c.servers.len() implies !p(#[trigger] t[j]) by {
                assert(t[j] == c.servers[j]);
            }
        }
        lemma_first_match_unique(t, p, c.servers.len() as int);
    }
}

/// Law: updating or adding a server leaves the lookup of every other name
/// unchanged.
pub proof fn law_update_keeps_other_lookups(
    c: GlobalConfigView,
    s: ServerConfigView,
    make_current: bool,
    n: Seq<char>,
)
    requires
        n != s.name,
    ensures
        spec_get_server(spec_update_server(c, s, make_current), n) == spec_get_server(c, n),
{
    let q = name_is(n);
    lemma_name_index(c.servers, s.name);
    lemma_name_index(c.servers, n);
    let i = server_index(c.servers, s.name);
    let r = server_index(c.servers, n);
    let t = spec_update_server(c, s, make_current).servers;
    assert forall|j: int| 0 <= j < t.len() && q(#[trigger] t[j]) implies j < c.servers.len()
        && t[j] == c.servers[j] by {
        if i >= 0 {
            if j == i {
                assert(t[j] == s);
            }
        } else {
            if j == c.servers.len() {
                assert(t[j] == s);
            }
        }
    }
    if r >= 0 {
        assert(is_first_match(t, q, r)) by {
            if i >= 0 {
                assert(r != i) by {
                    assert(c.servers[i].name == s.name);
                }
            }
            assert(t[r] == c.servers[r]);
            assert forall|j: int| 0 <= j < r implies !q(#[trigger] t[j]) by {
                if q(t[j]) {
                    assert(t[j] == c.servers[j]);
                }
            }
        }
        lemma_first_match_unique(t, q, r);
    } else {
        assert(no_match(t, q)) by {
            assert forall|j: int| 0 <= j < t.len() implies !q(#[trigger] t[j]) by {
                if q(t[j]) {
                    assert(t[j] == c.servers[j]);
                    assert(!q(c.servers[j]));
                }
            }
        }
        lemma_no_match(t, q);
    }
}

/// Law: updating or adding a server keeps server names unique.
pub proof fn law_update_keeps_names_unique(
    c: GlobalConfigView,
    s: ServerConfigView,
    make_current: bool,
)
    requires
        unique_names(c.servers),
    ensures
        unique_names(spec_update_server(c, s, make_current).servers),
{
    lemma_name_index(c.servers, s.name);
    let i = server_index(c.servers, s.name);
    let t = spec_update_server(c, s, make_current).servers;
    if i >= 0 {
        assert forall|a: int, b: int| 0 <= a < b < t.len() implies #[trigger] t[a].name
            != #[trigger] t[b].name by {
            assert(t[a].name == c.servers[a].name);
            assert(t[b].name == c.servers[b].name);
        }
    } else {
        assert forall|a: int, b: int| 0 <= a < b < t.len() implies #[trigger] t[a].name
            != #[trigger] t[b].name by {
            if b == c.servers.len() {
                assert(!name_is(s.name)(c.servers[a]));
            } else {
                assert(t[a] == c.servers[a]);
                assert(t[b] == c.servers[b]);
            }
        }
    }
}

/// Law: updating the same server twice is the same as updating it once.
pub proof fn law_update_idempotent(c: GlobalConfigView, s: ServerConfigView, make_current: bool)
    ensures
        spec_update_server(spec_update_server(c, s, make_current), s, make_current)
            == spec_update_server(c, s, make_current),
{
    let once = spec_update_server(c, s, make_current);
    law_update_then_get(c, s, make_current);
    lemma_name_index(once.servers, s.name);
    let k = server_index(once.servers, s.name);
    assert(once.servers[k] == s);
    assert(once.servers.update(k, s) =~= once.servers);
}

/// Law: when names are unique, a dropped server can no longer be found.
pub proof fn law_drop_then_absent(c: GlobalConfigView, n: Seq<char>)
    requires
        unique_names(c.servers),
    ensures
        spec_get_server(spec_drop_server(c, n), n) == None::<ServerConfigView>,
        !spec_contains_server(spec_drop_server(c, n), n),
{
    let q = name_is(n);
    lemma_name_index(c.servers, n);
    let i = server_index(c.servers, n);
    let t = spec_drop_server(c, n).servers;
    if i >= 0 {
        assert(no_match(t, q)) by {
            assert forall|j: int| 0 <= j < t.len() implies !q(#[trigger] t[j]) by {
                if j < i {
                    assert(t[j] == c.servers[j]);
                } else {
                    assert(t[j] == c.servers[j + 1]);
                    assert(c.servers[i].name != c.servers[j + 1].name);
                }
            }
        }
    }
    lemma_name_index(t, n);
}

/// Law: dropping a server leaves the lookup of every other name unchanged.
pub proof fn law_drop_keeps_other_lookups(c: GlobalConfigView, n: Seq<char>, m: Seq<char>)
    requires
        m != n,
    ensures
        spec_get_server(spec_drop_server(c, n), m) == spec_get_server(c, m),
{
    let q = name_is(m);
    lemma_name_index(c.servers, n);
    lemma_name_index(c.servers, m);
    let i = server_index(c.servers, n);
    let r = server_index(c.servers, m);
    let t = spec_drop_server(c, n).servers;
    if i >= 0 {
        assert(t.len() == c.servers.len() - 1);
        if r >= 0 {
            assert(r != i) by {
                assert(c.servers[i].name == n);
            }
            if r < i {
                assert(is_first_match(t, q, r)) by {
                    assert(t[r] == c.servers[r]);
                    assert forall|j: int| 0 <= j < r implies !q(#[trigger] t[j]) by {
                        assert(t[j] == c.servers[j]);
                    }
                }
                lemma_first_match_unique(t, q, r);
                assert(t[r] == c.servers[r]);
            } else {
                assert(is_first_match(t, q, r - 1)) by {
                    assert(t[r - 1] == c.servers[r]);
                    assert forall|j: int| 0 <= j < r - 1 implies !q(#[trigger] t[j]) by {
                        if j < i {
                            assert(t[j] == c.servers[j]);
                        } else {
                            assert(t[j] == c.servers[j + 1]);
                        }
                    }
                }
                lemma_first_match_unique(t, q, r - 1);
                assert(t[r - 1] == c.servers[r]);
            }
        } else {
            assert(no_match(t, q)) by {
                assert forall|j: int| 0 <= j < t.len() implies !q(#[trigger] t[j]) by {
                    if j < i {
                        assert(t[j] == c.servers[j]);
                    } else {
                        assert(t[j] == c.servers[j + 1]);
                    }
                }
            }
            lemma_no_match(t, q);
        }
    }
}

/// Law: a name is contained exactly when looking it up finds a server.
pub proof fn law_contains_iff_found(c: GlobalConfigView, n: Seq<char>)
    ensures
        spec_contains_server(c, n) <==> spec_get_server(c, n) is Some,
{
}

/// Law: selecting a known server makes it the current server, and leaves
/// the servers as they were.
pub proof fn law_select_then_current(c: GlobalConfigView, n: Seq<char>)
    requires
        spec_contains_server(c, n),
    ensures
        spec_current_server(spec_select_current(c, n)) == spec_get_server(c, n),
        spec_current_server(spec_select_current(c, n)) is Some,
        spec_select_current(c, n).servers == c.servers,
{
}

/// Law: with unique names, once credentials from the environment have been
/// applied, the current server holds exactly those credentials, unless no
/// server held them and an entry named `env-based-server` already existed
/// (that entry is then replaced without becoming current).
pub proof fn law_env_credentials_become_current(
    c: GlobalConfigView,
    key: Seq<char>,
    server: Seq<char>,
    auth: Seq<char>,
)
    requires
        unique_names(c.servers),
        first_index_where(c.servers, credentials_are(key, server, auth)) >= 0
            || !spec_contains_server(c, env_server_name()),
    ensures
        ({
            let after = spec_apply_env_credentials(c, Some(key), Some(server), Some(auth));
            spec_current_server(after) matches Some(cur) && cur.api_key == Some(key)
                && cur.server == Some(server) && cur.auth_server == Some(auth)
        }),
{
    let p = credentials_are(key, server, auth);
    lemma_first_index_where(c.servers, p);
    let i = first_index_where(c.servers, p);
    if i >= 0 {
        let n = c.servers[i].name;
        lemma_name_index(c.servers, n);
        let k = server_index(c.servers, n);
        assert(k == i) by {
            if k < i {
                assert(c.servers[k].name == n);
            }
        }
    } else {
        law_update_then_get(c, env_server(key, server, auth), true);
    }
}

// ---------------------------------------------------------------------------
// Server settings from the environment
// ---------------------------------------------------------------------------

/// Server-wide settings.
#[derive(Debug, Clone)]
pub struct Config {
    pub message_queue_type: String,
    pub kafka_bootstrap_servers: String,
    pub kafka_timeout_ms: String,
    pub redis_host: String,
    pub redis_port: String,
    pub redis_password: Option<String>,
    pub redis_url: Option<String>,
    pub database_url: String,
    pub tailscale_api_key: Option<String>,
    pub tailscale_tailnet: Option<String>,
    pub bucket_name: String,
    pub bucket_region: String,
    pub root_owner: String,
}

/// The environment variables [`Config`] is read from, each as found.
#[derive(Debug, Clone)]
pub struct ConfigEnv {
    pub message_queue_type: Option<String>,
    pub kafka_bootstrap_servers: Option<String>,
    pub kafka_timeout_ms: Option<String>,
    pub redis_host: Option<String>,
    pub redis_port: Option<String>,
    pub redis_password: Option<String>,
    pub redis_url: Option<String>,
    pub database_url: Option<String>,
    pub tailscale_api_key: Option<String>,
    pub tailscale_tailnet: Option<String>,
    pub bucket_name: Option<String>,
    pub bucket_region: Option<String>,
    pub root_owner: Option<String>,
}

/// The value of a variable, or the default when it is unset.
pub open spec fn or_default(o: Option<String>, d: Seq<char>) -> Seq<char> {
    match o {
        Some(s) => s@,
        None => d,
    }
}

/// The complaint about the first required variable that is unset, in the
/// order `NEBU_BUCKET_NAME`, `NEBU_BUCKET_REGION`, `NEBU_ROOT_OWNER`.
pub open spec fn missing_required_message(env: ConfigEnv) -> Option<Seq<char>> {
    if env.bucket_name is None {
        Some("NEBU_BUCKET_NAME environment variable must be set"@)
    } else if env.bucket_region is None {
        Some("NEBU_BUCKET_REGION environment variable must be set"@)
    } else if env.root_owner is None {
        Some("NEBU_ROOT_OWNER environment variable must be set"@)
    } else {
        None
    }
}

fn value_or(o: Option<String>, d: &str) -> (r: String)
    ensures
        r@ == or_default(o, d@),
{
    match o {
        Some(s) => s,
        None => String::from_str(d),
    }
}

impl Config {
    /// Builds the settings from the variables: defaults for the optional
    /// ones, and an error naming the first required variable that is unset.
    pub fn from_env_values(env: ConfigEnv) -> (r: Result<Config, String>)
        ensures
            match r {
                Ok(c) => missing_required_message(env) is None && c.message_queue_type@
                    == or_default(env.message_queue_type, "redis"@)
                    && c.kafka_bootstrap_servers@ == or_default(
                    env.kafka_bootstrap_servers,
                    "localhost:9092"@,
                ) && c.kafka_timeout_ms@ == or_default(env.kafka_timeout_ms, "5000"@)
                    && c.redis_host@ == or_default(env.redis_host, "127.0.0.1"@) && c.redis_port@
                    == or_default(env.redis_port, "6379"@) && c.redis_password == env.redis_password
                    && c.redis_url == env.redis_url && c.database_url@ == or_default(
                    env.database_url,
                    "sqlite://.data/data.db"@,
                ) && c.tailscale_api_key == env.tailscale_api_key && c.tailscale_tailnet
                    == env.tailscale_tailnet && Some(c.bucket_name) == env.bucket_name && Some(
                    c.bucket_region,
                ) == env.bucket_region && Some(c.root_owner) == env.root_owner,
                Err(e) => missing_required_message(env) == Some(e@),
            },
    {
        let ghost env0 = env;
        let ConfigEnv {
            message_queue_type,
            kafka_bootstrap_servers,
            kafka_timeout_ms,
            redis_host,
            redis_port,
            redis_password,
            redis_url,
            database_url,
            tailscale_api_key,
            tailscale_tailnet,
            bucket_name,
            bucket_region,
            root_owner,
        } = env;
        let message_queue_type = value_or(message_queue_type, "redis");
        let kafka_bootstrap_servers = value_or(kafka_bootstrap_servers, "localhost:9092");
        let kafka_timeout_ms = value_or(kafka_timeout_ms, "5000");
        let redis_host = value_or(redis_host, "127.0.0.1");
        let redis_port = value_or(redis_port, "6379");
        let database_url = value_or(database_url, "sqlite://.data/data.db");
        let bucket_name = match bucket_name {
            Some(v) => v,
            None => {
                return Err(String::from_str("NEBU_BUCKET_NAME environment variable must be set"));
            },
        };
        let bucket_region = match bucket_region {
            Some(v) => v,
            None => {
                return Err(
                    String::from_str("NEBU_BUCKET_REGION environment variable must be set"),
                );
            },
        };
        let root_owner = match root_owner {
            Some(v) => v,
            None => {
                return Err(String::from_str("NEBU_ROOT_OWNER environment variable must be set"));
            },
        };
        Ok(
            Config {
                message_queue_type,
                kafka_bootstrap_servers,
                kafka_timeout_ms,
                redis_host,
                redis_port,
                redis_password,
                redis_url,
                database_url,
                tailscale_api_key,
                tailscale_tailnet,
                bucket_name,
                bucket_region,
                root_owner,
            },
        )
    }
}

} // verus!
