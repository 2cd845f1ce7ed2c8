//! The update servers a client knows, one per publisher.

use vstd::prelude::*;
use crate::core_types::SignatureAlgorithm;
use crate::key_management::PublisherIdentity;
use crate::text::{str_eq, concat_str, copy_string, trim_end_char, trim_end_matches_char};

verus! {

/// How far a server's key is trusted.
#[derive(Clone, Copy, Debug, PartialEq, Eq, Structural)]
pub enum TrustLevel {
    /// Fully trusted: pinned key.
    Pinned,
    /// Trusted on first use.
    TrustOnFirstUse,
    /// Manually verified.
    Verified,
    /// Needs verification.
    Untrusted,
}

/// A known server; `last_checked` is seconds since the Unix epoch.
#[derive(Clone, Debug)]
pub struct RegisteredServer {
    pub url: String,
    pub publisher: PublisherIdentity,
    pub enabled: bool,
    pub last_checked: Option<i64>,
    pub trust_level: TrustLevel,
}

/// The known servers and where they are stored.
#[derive(Clone, Debug)]
pub struct ServerRegistry {
    pub servers: Vec<RegisteredServer>,
    pub store_path: String,
}

/// Index of the first server of the publisher (the length when there is
/// none).
pub open spec fn first_index(s: Seq<RegisteredServer>, id: Seq<char>) -> nat
    decreases s.len(),
{
    if s.len() == 0 {
        0
    } else if s[0].publisher.id@ == id {
        0
    } else {
        1 + first_index(s.drop_first(), id)
    }
}

/// The servers of other publishers, in order.
pub open spec fn without_publisher(s: Seq<RegisteredServer>, id: Seq<char>) -> Seq<RegisteredServer>
    decreases s.len(),
{
    if s.len() == 0 {
        Seq::<RegisteredServer>::empty()
    } else {
        let r = without_publisher(s.drop_last(), id);
        if s.last().publisher.id@ != id {
            r.push(s.last())
        } else {
            r
        }
    }
}

/// The enabled servers, in order.
pub open spec fn enabled_only(s: Seq<RegisteredServer>) -> Seq<RegisteredServer>
    decreases s.len(),
{
    if s.len() == 0 {
        Seq::<RegisteredServer>::empty()
    } else {
        let r = enabled_only(s.drop_last());
        if s.last().enabled {
            r.push(s.last())
        } else {
            r
        }
    }
}

pub proof fn lemma_first_index(s: Seq<RegisteredServer>, id: Seq<char>)
    ensures
        first_index(s, id) <= s.len(),
        first_index(s, id) < s.len() ==> s[first_index(s, id) as int].publisher.id@ == id,
        forall|j: int| 0 <= j < first_index(s, id) ==> #[trigger] s[j].publisher.id@ != id,
    decreases s.len(),
{
    if s.len() > 0 && s[0].publisher.id@ != id {
        lemma_first_index(s.drop_first(), id);
        assert forall|j: int| 0 <= j < first_index(s, id) implies #[trigger] s[j].publisher.id@ != id by {
            if j > 0 {
                assert(s[j] == s.drop_first()[j - 1]);
            }
        }
    }
}

pub proof fn lemma_first_index_unique(s: Seq<RegisteredServer>, id: Seq<char>, k: int)
    requires
        0 <= k < s.len(),
        s[k].publisher.id@ == id,
        forall|j: int| 0 <= j < k ==> #[trigger] s[j].publisher.id@ != id,
    ensures
        first_index(s, id) == k,
    decreases s.len(),
{
    if k > 0 {
        assert(s[0].publisher.id@ != id);
        assert forall|j: int| 0 <= j < k - 1 implies #[trigger] s.drop_first()[j].publisher.id@ != id by {
            assert(s.drop_first()[j] == s[j + 1]);
        }
        lemma_first_index_unique(s.drop_first(), id, k - 1);
    }
}

pub proof fn lemma_without_publisher_has_none(s: Seq<RegisteredServer>, id: Seq<char>)
    ensures
        first_index(without_publisher(s, id), id) == without_publisher(s, id).len(),
    decreases s.len(),
{
    let w = without_publisher(s, id);
    lemma_first_index(w, id);
    if first_index(w, id) < w.len() {
        lemma_without_publisher_member(s, id, first_index(w, id) as int);
    }
}

pub proof fn lemma_without_publisher_member(s: Seq<RegisteredServer>, id: Seq<char>, i: int)
    requires
        0 <= i < without_publisher(s, id).len(),
    ensures
        without_publisher(s, id)[i].publisher.id@ != id,
    decreases s.len(),
{
    if s.len() > 0 {
        let r = without_publisher(s.drop_last(), id);
        if s.last().publisher.id@ != id && i == r.len() {
        } else {
            lemma_without_publisher_member(s.drop_last(), id, i);
        }
    }
}

pub proof fn lemma_without_publisher_len(s: Seq<RegisteredServer>, id: Seq<char>)
    ensures
        without_publisher(s, id).len() <= s.len(),
        without_publisher(s, id).len() < s.len() <==> first_index(s, id) < s.len(),
    decreases s.len(),
{
    if s.len() > 0 {
        lemma_without_publisher_len(s.drop_last(), id);
        lemma_first_index(s, id);
        lemma_first_index(s.drop_last(), id);
        if first_index(s.drop_last(), id) < s.drop_last().len() {
            let k = first_index(s.drop_last(), id) as int;
            assert(s[k] == s.drop_last()[k]);
            assert forall|j: int| 0 <= j < k implies #[trigger] s[j].publisher.id@ != id by {
                assert(s[j] == s.drop_last()[j]);
            }
            lemma_first_index_unique(s, id, k);
        } else if s.last().publisher.id@ == id {
            assert forall|j: int| 0 <= j < s.len() - 1 implies #[trigger] s[j].publisher.id@ != id by {
                assert(s[j] == s.drop_last()[j]);
            }
            lemma_first_index_unique(s, id, s.len() - 1);
        } else {
            if first_index(s, id) < s.len() {
                let k = first_index(s, id) as int;
                if k < s.len() - 1 {
                    assert(s.drop_last()[k] == s[k]);
                    assert forall|j: int| 0 <= j < k implies #[trigger] s.drop_last()[j].publisher.id@ != id by {
                        assert(s.drop_last()[j] == s[j]);
                    }
                    lemma_first_index_unique(s.drop_last(), id, k);
                }
            }
        }
    }
}

impl ServerRegistry {
    /// An empty registry stored at `store_path`.
    pub fn new(store_path: &str) -> (r: Self)
        ensures
            r.servers@.len() == 0,
            r.store_path@ == store_path@,
    {
        ServerRegistry { servers: Vec::new(), store_path: String::from_str(store_path) }
    }

    fn position(&self, publisher_id: &str) -> (r: usize)
        ensures
            r == first_index(self.servers@, publisher_id@),
    {
        proof {
            lemma_first_index(self.servers@, publisher_id@);
        }
        let mut i: usize = 0;
        while i < self.servers.len()
            invariant
                i <= self.servers@.len(),
                forall|j: int| 0 <= j < i ==> #[trigger] self.servers@[j].publisher.id@ != publisher_id@,
            decreases self.servers.len() - i,
        {
            if str_eq(self.servers[i].publisher.id.as_str(), publisher_id) {
                proof {
                    lemma_first_index_unique(self.servers@, publisher_id@, i as int);
                }
                return i;
            }
            i = i + 1;
        }
        proof {
            if first_index(self.servers@, publisher_id@) < self.servers@.len() {
                let k = first_index(self.servers@, publisher_id@) as int;
                assert(self.servers@[k].publisher.id@ == publisher_id@);
            }
        }
        i
    }

    /// Adds a server, replacing the first one of the same publisher.
    pub fn add_server(&mut self, server: RegisteredServer)
        ensures
            final(self).store_path == old(self).store_path,
            final(self).servers@ == if first_index(old(self).servers@, server.publisher.id@) < old(
                self,
            ).servers@.len() {
                old(self).servers@.update(
                    first_index(old(self).servers@, server.publisher.id@) as int,
                    server,
                )
            } else {
                old(self).servers@.push(server)
            },
            first_index(final(self).servers@, server.publisher.id@) < final(self).servers@.len(),
            final(self).servers@[first_index(final(self).servers@, server.publisher.id@) as int]
                == server,
    {
        let ghost id = server.publisher.id@;
        let ghost s = self.servers@;
        let i = self.position(server.publisher.id.as_str());
        proof {
            lemma_first_index(s, id);
        }
        if i < self.servers.len() {
            self.servers.set(i, server);
            proof {
                assert forall|j: int| 0 <= j < i implies #[trigger] self.servers@[j].publisher.id@ != id by {
                    assert(self.servers@[j] == s[j]);
                }
                lemma_first_index_unique(self.servers@, id, i as int);
            }
        } else {
            self.servers.push(server);
            proof {
                assert forall|j: int| 0 <= j < s.len() implies #[trigger] self.servers@[j].publisher.id@ != id by {
                    assert(self.servers@[j] == s[j]);
                }
                lemma_first_index_unique(self.servers@, id, s.len() as int);
            }
        }
    }

    /// Removes every server of the publisher; reports whether any was.
    pub fn remove_server(&mut self, publisher_id: &str) -> (r: bool)
        ensures
            final(self).store_path == old(self).store_path,
            final(self).servers@ == without_publisher(old(self).servers@, publisher_id@),
            r == (first_index(old(self).servers@, publisher_id@) < old(self).servers@.len()),
            first_index(final(self).servers@, publisher_id@) == final(self).servers@.len(),
    {
        let ghost s = self.servers@;
        let len = self.servers.len();
        let mut kept: Vec<RegisteredServer> = Vec::new();
        let ghost mut k: int = 0;
        while self.servers.len() > 0
            invariant
                0 <= k <= s.len(),
                self.servers@ == s.skip(k),
                kept@ == without_publisher(s.take(k), publisher_id@),
                self.store_path == old(self).store_path,
            decreases self.servers.len(),
        {
            let x = self.servers.remove(0);
            proof {
                assert(x == s[k]);
                assert(s.take(k + 1).drop_last() =~= s.take(k));
                assert(s.take(k + 1).last() == x);
                assert(s.skip(k).remove(0) =~= s.skip(k + 1));
            }
            if !str_eq(x.publisher.id.as_str(), publisher_id) {
                kept.push(x);
            }
            proof {
                k = k + 1;
            }
        }
        proof {
            assert(k == s.len());
            assert(s.take(k) =~= s);
        }
        self.servers = kept;
        proof {
            lemma_without_publisher_len(s, publisher_id@);
            lemma_without_publisher_has_none(s, publisher_id@);
        }
        self.servers.len() < len
    }

    /// The first server of the publisher.
    pub fn get_server(&self, publisher_id: &str) -> (r: Option<&RegisteredServer>)
        ensures
            match r {
                Some(s) => first_index(self.servers@, publisher_id@) < self.servers@.len()
                    && *s == self.servers@[first_index(self.servers@, publisher_id@) as int],
                None => first_index(self.servers@, publisher_id@) == self.servers@.len(),
            },
    {
        proof {
            lemma_first_index(self.servers@, publisher_id@);
        }
        let i = self.position(publisher_id);
        if i < self.servers.len() {
            Some(&self.servers[i])
        } else {
            None
        }
    }

    /// The enabled servers, in order.
    pub fn enabled_servers(&self) -> (r: Vec<&RegisteredServer>)
        ensures
            r@.len() == enabled_only(self.servers@).len(),
            forall|i: int| 0 <= i < r@.len() ==> *r@[i] == enabled_only(self.servers@)[i],
    {
        let ghost s = self.servers@;
        let mut r: Vec<&RegisteredServer> = Vec::new();
        let mut i: usize = 0;
        while i < self.servers.len()
            invariant
                i <= s.len(),
                s == self.servers@,
                r@.len() == enabled_only(s.take(i as int)).len(),
                forall|j: int| 0 <= j < r@.len() ==> *r@[j] == enabled_only(s.take(i as int))[j],
            decreases s.len() - i,
        {
            assert(s.take(i + 1).drop_last() =~= s.take(i as int));
            if self.servers[i].enabled {
                r.push(&self.servers[i]);
            }
            i = i + 1;
        }
        assert(s.take(s.len() as int) =~= s);
        r
    }
}

/// The fields of a server's `/api/info` answer, each as text when the
/// answer holds it as a string.
#[derive(Clone, Debug)]
pub struct ServerInfoReply {
    pub publisher_id: Option<String>,
    pub publisher_name: Option<String>,
    pub algorithm: Option<String>,
    pub ed25519_public_key: Option<String>,
    pub ml_dsa_public_key: Option<String>,
    pub key_id: Option<String>,
}

/// The address of a server's information: `<url>/api/info`, trailing
/// slashes of the URL dropped.
pub fn info_url(url: &str) -> (r: String)
    ensures
        r@ == trim_end_char(url@, '/') + "/api/info"@,
{
    let base = trim_end_matches_char(url, '/');
    concat_str(base.as_str(), "/api/info")
}

/// The signature algorithm a server names, by its variant name; Ed25519
/// when it names none or another.
pub open spec fn algorithm_of_name(name: Option<Seq<char>>) -> SignatureAlgorithm {
    match name {
        Some(n) => if n == "MlDsa65"@ {
            SignatureAlgorithm::MlDsa65
        } else if n == "HybridEd25519MlDsa65"@ {
            SignatureAlgorithm::HybridEd25519MlDsa65
        } else {
            SignatureAlgorithm::Ed25519
        },
        None => SignatureAlgorithm::Ed25519,
    }
}

pub open spec fn opt_view(o: Option<String>) -> Option<Seq<char>> {
    match o {
        Some(s) => Some(s@),
        None => None,
    }
}

/// The text, or `default` when there is none.
pub open spec fn text_or(o: Option<String>, default: Seq<char>) -> Seq<char> {
    match o {
        Some(s) => s@,
        None => default,
    }
}

fn string_or(o: &Option<String>, default: &str) -> (r: String)
    ensures
        r@ == text_or(*o, default@),
{
    match o {
        Some(s) => copy_string(s),
        None => String::from_str(default),
    }
}

fn opt_copy(o: &Option<String>) -> (r: Option<String>)
    ensures
        opt_view(r) == opt_view(*o),
{
    match o {
        Some(s) => Some(copy_string(s)),
        None => None,
    }
}

/// `s` is the server a client registers from `url` and `info` at `now`.
pub open spec fn is_discovered(s: RegisteredServer, url: Seq<char>, info: ServerInfoReply, now: i64) -> bool {
    &&& s.url@ == url
    &&& s.enabled
    &&& s.last_checked == Some(now)
    &&& s.trust_level == TrustLevel::TrustOnFirstUse
    &&& s.publisher.id@ == text_or(info.publisher_id, "unknown"@)
    &&& s.publisher.name@ == text_or(info.publisher_name, "Unknown"@)
    &&& s.publisher.description is None
    &&& s.publisher.server_url@ == url
    &&& s.publisher.algorithm == algorithm_of_name(opt_view(info.algorithm))
    &&& opt_view(s.publisher.ed25519_public_key) == opt_view(info.ed25519_public_key)
    &&& opt_view(s.publisher.ml_dsa_public_key) == opt_view(info.ml_dsa_public_key)
    &&& s.publisher.key_id@ == text_or(info.key_id, "unknown"@)
    &&& s.publisher.created_at == now
}

/// The servers after adding `s`: it replaces the first server of its
/// publisher, or is appended.
pub open spec fn with_server(servers: Seq<RegisteredServer>, s: RegisteredServer) -> Seq<RegisteredServer> {
    if first_index(servers, s.publisher.id@) < servers.len() {
        servers.update(first_index(servers, s.publisher.id@) as int, s)
    } else {
        servers.push(s)
    }
}

/// The server a client registers, trusting on first use, from the URL it
/// was given and the server's answer, at `now`.
pub fn discovered_server(url: &str, info: &ServerInfoReply, now: i64) -> (r: RegisteredServer)
    ensures
        is_discovered(r, url@, *info, now),
{
    let algorithm = match &info.algorithm {
        Some(n) => {
            if str_eq(n.as_str(), "MlDsa65") {
                SignatureAlgorithm::MlDsa65
            } else if str_eq(n.as_str(), "HybridEd25519MlDsa65") {
                SignatureAlgorithm::HybridEd25519MlDsa65
            } else {
                SignatureAlgorithm::Ed25519
            }
        },
        None => SignatureAlgorithm::Ed25519,
    };
    let publisher = PublisherIdentity {
        id: string_or(&info.publisher_id, "unknown"),
        name: string_or(&info.publisher_name, "Unknown"),
        description: None,
        server_url: String::from_str(url),
        algorithm,
        ed25519_public_key: opt_copy(&info.ed25519_public_key),
        ml_dsa_public_key: opt_copy(&info.ml_dsa_public_key),
        key_id: string_or(&info.key_id, "unknown"),
        created_at: now,
    };
    RegisteredServer {
        url: String::from_str(url),
        publisher,
        enabled: true,
        last_checked: Some(now),
        trust_level: TrustLevel::TrustOnFirstUse,
    }
}

impl ServerRegistry {
    /// Registers the server a URL leads to, from its `/api/info` answer
    /// (`None` when the answer has no `data`), at `now`: it replaces the
    /// server of the same publisher, or is added.
    pub fn discover_and_add(&mut self, url: &str, info: Option<&ServerInfoReply>, now: i64) -> (r: Result<
        RegisteredServer,
        String,
    >)
        ensures
            final(self).store_path == old(self).store_path,
            match info {
                None => r matches Err(e) && e@ == "Invalid server response"@ && final(self).servers@
                    == old(self).servers@,
                Some(i) => r matches Ok(s) && is_discovered(s, url@, *i, now) && exists|e: RegisteredServer|
                    is_discovered(e, url@, *i, now) && final(self).servers@ == with_server(
                        old(self).servers@,
                        e,
                    ),
            },
    {
        let info = match info {
            None => return Err(String::from_str("Invalid server response")),
            Some(i) => i,
        };
        let server = discovered_server(url, info, now);
        let ghost stored = server;
        let returned = discovered_server(url, info, now);
        self.add_server(server);
        assert(self.servers@ == with_server(old(self).servers@, stored));
        Ok(returned)
    }
}

} // verus!
