//! The update client's records: the publisher keys it pinned for each
//! server (trust on first use) and the applications it installed, one
//! record per server and application, and what an update check leads to.

use vstd::prelude::*;
use crate::crypto::HybridPublicKey;
use crate::models::{CheckUpdateResponse, ClientConfig, InstalledApp, PackageMetadata};
use crate::text::{concat_str, copy_string, str_eq, trim_end_char, trim_end_matches_char};
use crate::version::SemanticVersion;

verus! {

// ---------------------------------------------------------------------
// Pinned publisher keys
// ---------------------------------------------------------------------

pub type PinTable = Seq<(String, Vec<HybridPublicKey>)>;

/// Index of the first entry of the server (the length when there is none).
pub open spec fn pin_index(p: PinTable, server: Seq<char>) -> nat
    decreases p.len(),
{
    if p.len() == 0 {
        0
    } else if p[0].0@ == server {
        0
    } else {
        1 + pin_index(p.drop_first(), server)
    }
}

/// The keys pinned for a server.
pub open spec fn pinned_keys(p: PinTable, server: Seq<char>) -> Seq<HybridPublicKey> {
    if pin_index(p, server) < p.len() {
        p[pin_index(p, server) as int].1@
    } else {
        Seq::empty()
    }
}

/// A key of the publisher is among the keys.
pub open spec fn pins_publisher(keys: Seq<HybridPublicKey>, publisher_id: Seq<char>) -> bool {
    exists|i: int| 0 <= i < keys.len() && #[trigger] keys[i].publisher_id@ == publisher_id
}

proof fn lemma_pin_index(p: PinTable, server: Seq<char>)
    ensures
        pin_index(p, server) <= p.len(),
        pin_index(p, server) < p.len() ==> p[pin_index(p, server) as int].0@ == server,
        forall|j: int| 0 <= j < pin_index(p, server) ==> #[trigger] p[j].0@ != server,
    decreases p.len(),
{
    if p.len() > 0 && p[0].0@ != server {
        lemma_pin_index(p.drop_first(), server);
        assert forall|j: int| 0 <= j < pin_index(p, server) implies #[trigger] p[j].0@ != server by {
            if j > 0 {
                assert(p[j] == p.drop_first()[j - 1]);
            }
        }
    }
}

/// Tables whose entries name the same servers, in order, have the same
/// index for every server.
proof fn lemma_pin_index_same_names(p: PinTable, q: PinTable, server: Seq<char>)
    requires
        p.len() == q.len(),
        forall|j: int| 0 <= j < p.len() ==> #[trigger] p[j].0@ == q[j].0@,
    ensures
        pin_index(p, server) == pin_index(q, server),
    decreases p.len(),
{
    if p.len() > 0 && p[0].0@ != server {
        assert forall|j: int| 0 <= j < p.drop_first().len() implies #[trigger] p.drop_first()[j].0@
            == q.drop_first()[j].0@ by {
            assert(p.drop_first()[j] == p[j + 1]);
            assert(q.drop_first()[j] == q[j + 1]);
        }
        lemma_pin_index_same_names(p.drop_first(), q.drop_first(), server);
    }
}

fn find_pins(p: &Vec<(String, Vec<HybridPublicKey>)>, server: &str) -> (r: usize)
    ensures
        r == pin_index(p@, server@),
{
    proof {
        lemma_pin_index(p@, server@);
    }
    let mut i: usize = 0;
    while i < p.len()
        invariant
            i <= p@.len(),
            forall|j: int| 0 <= j < i ==> #[trigger] p@[j].0@ != server@,
            pin_index(p@, server@) <= p@.len(),
            pin_index(p@, server@) < p@.len() ==> p@[pin_index(p@, server@) as int].0@ == server@,
            forall|j: int| 0 <= j < pin_index(p@, server@) ==> #[trigger] p@[j].0@ != server@,
        decreases p.len() - i,
    {
        if str_eq(p[i].0.as_str(), server) {
            proof {
                if (i as int) < pin_index(p@, server@) {
                    assert(p@[i as int].0@ != server@);
                }
                if pin_index(p@, server@) < i {
                    assert(p@[pin_index(p@, server@) as int].0@ != server@);
                }
            }
            return i;
        }
        i = i + 1;
    }
    proof {
        if pin_index(p@, server@) < p@.len() {
            assert(p@[pin_index(p@, server@) as int].0@ != server@);
        }
    }
    i
}

fn has_publisher_key(keys: &Vec<HybridPublicKey>, publisher_id: &str) -> (r: bool)
    ensures
        r == pins_publisher(keys@, publisher_id@),
{
    let mut i: usize = 0;
    while i < keys.len()
        invariant
            i <= keys@.len(),
            forall|j: int| 0 <= j < i ==> #[trigger] keys@[j].publisher_id@ != publisher_id@,
        decreases keys.len() - i,
    {
        if str_eq(keys[i].publisher_id.as_str(), publisher_id) {
            assert(keys@[i as int].publisher_id@ == publisher_id@);
            return true;
        }
        i = i + 1;
    }
    false
}

/// Pins the key a server presented for its publisher, unless a key of the
/// same publisher is already pinned for that server; returns whether it
/// pinned it. The keys of other servers are left alone.
pub fn pin_publisher_key(config: &mut ClientConfig, server: &str, key: HybridPublicKey) -> (r: bool)
    ensures
        r == !pins_publisher(pinned_keys(old(config).pinned_publisher_keys_by_server@, server@), key.publisher_id@),
        pinned_keys(final(config).pinned_publisher_keys_by_server@, server@) == if r {
            pinned_keys(old(config).pinned_publisher_keys_by_server@, server@).push(key)
        } else {
            pinned_keys(old(config).pinned_publisher_keys_by_server@, server@)
        },
        forall|s: Seq<char>|
            s != server@ ==> #[trigger] pinned_keys(final(config).pinned_publisher_keys_by_server@, s)
                == pinned_keys(old(config).pinned_publisher_keys_by_server@, s),
        final(config).installed_apps == old(config).installed_apps,
        final(config).servers == old(config).servers,
        final(config).selected_server == old(config).selected_server,
        final(config).current_version == old(config).current_version,
{
    let ghost p0 = config.pinned_publisher_keys_by_server@;
    proof {
        lemma_pin_index(p0, server@);
    }
    let i = find_pins(&config.pinned_publisher_keys_by_server, server);
    if i == config.pinned_publisher_keys_by_server.len() {
        let mut keys: Vec<HybridPublicKey> = Vec::new();
        keys.push(key);
        config.pinned_publisher_keys_by_server.push((String::from_str(server), keys));
        proof {
            let p1 = config.pinned_publisher_keys_by_server@;
            assert(p1.drop_last() =~= p0);
            lemma_pin_index(p1, server@);
            assert forall|j: int| 0 <= j < p0.len() implies #[trigger] p1[j].0@ != server@ by {
                assert(p1[j] == p0[j]);
            }
            if pin_index(p1, server@) < p0.len() {
                assert(p1[pin_index(p1, server@) as int].0@ != server@);
            }
            assert(p1[p0.len() as int].0@ == server@);
            assert(pin_index(p1, server@) == p0.len());
            assert(pinned_keys(p1, server@) =~= Seq::<HybridPublicKey>::empty().push(key));
            assert forall|s: Seq<char>| s != server@ implies #[trigger] pinned_keys(p1, s) == pinned_keys(p0, s) by {
                lemma_pin_index(p0, s);
                lemma_pin_index(p1, s);
                assert forall|j: int| 0 <= j < p0.len() implies #[trigger] p1[j].0@ == p0[j].0@ by {
                    assert(p1[j] == p0[j]);
                }
                if pin_index(p1, s) < p0.len() {
                    if pin_index(p0, s) < pin_index(p1, s) {
                        assert(p1[pin_index(p0, s) as int].0@ != s);
                    }
                    if pin_index(p1, s) < pin_index(p0, s) {
                        assert(p0[pin_index(p1, s) as int].0@ != s);
                    }
                } else {
                    if pin_index(p0, s) < p0.len() {
                        assert(p1[pin_index(p0, s) as int].0@ != s);
                    }
                }
            }
        }
        return true;
    }
    let (name, mut keys) = config.pinned_publisher_keys_by_server.remove(i);
    let ghost old_keys = keys@;
    let pinned = has_publisher_key(&keys, key.publisher_id.as_str());
    if !pinned {
        keys.push(key);
    }
    let ghost new_keys = keys@;
    config.pinned_publisher_keys_by_server.insert(i, (name, keys));
    proof {
        let p1 = config.pinned_publisher_keys_by_server@;
        assert(p1 =~= p0.update(i as int, p1[i as int]));
        assert forall|j: int| 0 <= j < p0.len() implies #[trigger] p1[j].0@ == p0[j].0@ by {
            if j != i {
                assert(p1[j] == p0[j]);
            }
        }
        lemma_pin_index_same_names(p1, p0, server@);
        assert(pinned_keys(p0, server@) == old_keys);
        assert forall|s: Seq<char>| s != server@ implies #[trigger] pinned_keys(p1, s) == pinned_keys(p0, s) by {
            lemma_pin_index_same_names(p1, p0, s);
            lemma_pin_index(p0, s);
            if pin_index(p0, s) < p0.len() && pin_index(p0, s) == i {
                assert(p0[i as int].0@ == s);
            }
        }
    }
    !pinned
}

// ---------------------------------------------------------------------
// Installed applications
// ---------------------------------------------------------------------

/// The record is of the application from the server.
pub open spec fn is_install_of(a: InstalledApp, server: Seq<char>, app_id: Seq<char>) -> bool {
    a.server_url@ == server && a.app_id@ == app_id
}

/// Index of the first record of the application from the server (the
/// length when there is none).
pub open spec fn install_index(s: Seq<InstalledApp>, server: Seq<char>, app_id: Seq<char>) -> nat
    decreases s.len(),
{
    if s.len() == 0 {
        0
    } else if is_install_of(s[0], server, app_id) {
        0
    } else {
        1 + install_index(s.drop_first(), server, app_id)
    }
}

/// The records of other applications or servers, in order.
pub open spec fn without_install(s: Seq<InstalledApp>, server: Seq<char>, app_id: Seq<char>) -> Seq<InstalledApp>
    decreases s.len(),
{
    if s.len() == 0 {
        Seq::<InstalledApp>::empty()
    } else {
        let r = without_install(s.drop_last(), server, app_id);
        if is_install_of(s.last(), server, app_id) {
            r
        } else {
            r.push(s.last())
        }
    }
}

proof fn lemma_install_index(s: Seq<InstalledApp>, server: Seq<char>, app_id: Seq<char>)
    ensures
        install_index(s, server, app_id) <= s.len(),
        install_index(s, server, app_id) < s.len() ==> is_install_of(
            s[install_index(s, server, app_id) as int],
            server,
            app_id,
        ),
        forall|j: int| 0 <= j < install_index(s, server, app_id) ==> !#[trigger] is_install_of(s[j], server, app_id),
    decreases s.len(),
{
    if s.len() > 0 && !is_install_of(s[0], server, app_id) {
        lemma_install_index(s.drop_first(), server, app_id);
        assert forall|j: int| 0 <= j < install_index(s, server, app_id) implies !#[trigger] is_install_of(
            s[j],
            server,
            app_id,
        ) by {
            if j > 0 {
                assert(s[j] == s.drop_first()[j - 1]);
            }
        }
    }
}

proof fn lemma_without_install_none(s: Seq<InstalledApp>, server: Seq<char>, app_id: Seq<char>)
    ensures
        forall|j: int|
            0 <= j < without_install(s, server, app_id).len() ==> !#[trigger] is_install_of(
                without_install(s, server, app_id)[j],
                server,
                app_id,
            ),
    decreases s.len(),
{
    if s.len() > 0 {
        lemma_without_install_none(s.drop_last(), server, app_id);
        let r = without_install(s.drop_last(), server, app_id);
        if !is_install_of(s.last(), server, app_id) {
            assert forall|j: int| 0 <= j < r.push(s.last()).len() implies !#[trigger] is_install_of(
                r.push(s.last())[j],
                server,
                app_id,
            ) by {
                if j < r.len() {
                    assert(r.push(s.last())[j] == r[j]);
                }
            }
        }
    }
}

fn copy_installed(a: &InstalledApp) -> (r: InstalledApp)
    ensures
        r.server_url@ == a.server_url@,
        r.app_id@ == a.app_id@,
        r.installed_version == a.installed_version,
        r.install_dir@ == a.install_dir@,
        r.installed_at == a.installed_at,
        r.last_verified_at == a.last_verified_at,
{
    InstalledApp {
        server_url: copy_string(&a.server_url),
        app_id: copy_string(&a.app_id),
        installed_version: a.installed_version,
        install_dir: copy_string(&a.install_dir),
        installed_at: a.installed_at,
        last_verified_at: a.last_verified_at,
    }
}

fn find_install(apps: &Vec<InstalledApp>, server_url: &str, app_id: &str) -> (r: usize)
    ensures
        r == install_index(apps@, server_url@, app_id@),
{
    proof {
        lemma_install_index(apps@, server_url@, app_id@);
    }
    let ghost k = install_index(apps@, server_url@, app_id@);
    let mut i: usize = 0;
    while i < apps.len()
        invariant
            i <= apps@.len(),
            k == install_index(apps@, server_url@, app_id@),
            k <= apps@.len(),
            k < apps@.len() ==> is_install_of(apps@[k as int], server_url@, app_id@),
            forall|j: int| 0 <= j < k ==> !#[trigger] is_install_of(apps@[j], server_url@, app_id@),
            forall|j: int| 0 <= j < i ==> !#[trigger] is_install_of(apps@[j], server_url@, app_id@),
        decreases apps.len() - i,
    {
        if str_eq(apps[i].server_url.as_str(), server_url) && str_eq(apps[i].app_id.as_str(), app_id) {
            proof {
                assert(is_install_of(apps@[i as int], server_url@, app_id@));
                if k > i as int {
                    assert(!is_install_of(apps@[i as int], server_url@, app_id@));
                }
                if k < i as int {
                    assert(!is_install_of(apps@[k as int], server_url@, app_id@));
                }
            }
            return i;
        }
        i = i + 1;
    }
    proof {
        if k < apps@.len() {
            assert(!is_install_of(apps@[k as int], server_url@, app_id@));
        }
    }
    i
}

/// The record of an application installed from a server, if any.
pub fn get_installed_app(config: &ClientConfig, server_url: &str, app_id: &str) -> (r: Option<InstalledApp>)
    ensures
        ({
            let s = config.installed_apps@;
            let k = install_index(s, server_url@, app_id@);
            match r {
                Some(a) => k < s.len() && a.server_url@ == s[k as int].server_url@ && a.app_id@
                    == s[k as int].app_id@ && a.installed_version == s[k as int].installed_version
                    && a.install_dir@ == s[k as int].install_dir@ && a.installed_at
                    == s[k as int].installed_at && a.last_verified_at == s[k as int].last_verified_at,
                None => k == s.len(),
            }
        }),
{
    let i = find_install(&config.installed_apps, server_url, app_id);
    proof {
        lemma_install_index(config.installed_apps@, server_url@, app_id@);
    }
    if i < config.installed_apps.len() {
        Some(copy_installed(&config.installed_apps[i]))
    } else {
        None
    }
}

/// The version installed of an application from a server; `0.0.0` when
/// it is not installed.
pub fn installed_version(config: &ClientConfig, server_url: &str, app_id: &str) -> (r: SemanticVersion)
    ensures
        ({
            let s = config.installed_apps@;
            let k = install_index(s, server_url@, app_id@);
            r == if k < s.len() {
                s[k as int].installed_version
            } else {
                SemanticVersion { major: 0, minor: 0, patch: 0 }
            }
        }),
{
    let i = find_install(&config.installed_apps, server_url, app_id);
    proof {
        lemma_install_index(config.installed_apps@, server_url@, app_id@);
    }
    if i < config.installed_apps.len() {
        config.installed_apps[i].installed_version
    } else {
        SemanticVersion::new(0, 0, 0)
    }
}

fn drop_installs(apps: Vec<InstalledApp>, server_url: &str, app_id: &str) -> (r: Vec<InstalledApp>)
    ensures
        r@ == without_install(apps@, server_url@, app_id@),
{
    let ghost s = apps@;
    let mut rest = apps;
    let mut kept: Vec<InstalledApp> = Vec::new();
    let ghost mut k: int = 0;
    while rest.len() > 0
        invariant
            0 <= k <= s.len(),
            rest@ == s.skip(k),
            kept@ == without_install(s.take(k), server_url@, app_id@),
        decreases rest.len(),
    {
        let x = rest.remove(0);
        proof {
            assert(x == s[k]);
            assert(s.take(k + 1).drop_last() =~= s.take(k));
            assert(s.take(k + 1).last() == x);
            assert(s.skip(k).remove(0) =~= s.skip(k + 1));
        }
        if !(str_eq(x.server_url.as_str(), server_url) && str_eq(x.app_id.as_str(), app_id)) {
            kept.push(x);
        }
        proof {
            k = k + 1;
        }
    }
    proof {
        assert(s.take(k) =~= s);
    }
    kept
}

/// Records an installation: it replaces every earlier record of the
/// same application from the same server and becomes the current version.
pub fn record_installation(config: &mut ClientConfig, app: InstalledApp)
    ensures
        final(config).installed_apps@ == without_install(
            old(config).installed_apps@,
            app.server_url@,
            app.app_id@,
        ).push(app),
        final(config).current_version == app.installed_version,
        final(config).pinned_publisher_keys_by_server == old(config).pinned_publisher_keys_by_server,
        final(config).selected_server == old(config).selected_server,
{
    let mut apps: Vec<InstalledApp> = Vec::new();
    std::mem::swap(&mut apps, &mut config.installed_apps);
    let version = app.installed_version;
    let server = copy_string(&app.server_url);
    let id = copy_string(&app.app_id);
    let mut kept = drop_installs(apps, server.as_str(), id.as_str());
    kept.push(app);
    config.installed_apps = kept;
    config.current_version = version;
}

/// Forgets every record of an application from a server.
pub fn remove_installation(config: &mut ClientConfig, server_url: &str, app_id: &str)
    ensures
        final(config).installed_apps@ == without_install(old(config).installed_apps@, server_url@, app_id@),
        final(config).current_version == old(config).current_version,
        final(config).pinned_publisher_keys_by_server == old(config).pinned_publisher_keys_by_server,
        final(config).selected_server == old(config).selected_server,
{
    let mut apps: Vec<InstalledApp> = Vec::new();
    std::mem::swap(&mut apps, &mut config.installed_apps);
    config.installed_apps = drop_installs(apps, server_url, app_id);
}

/// After an installation is recorded, its record is the only one of that
/// application from that server, and it is the last.
pub proof fn lemma_one_record_per_install(apps: Seq<InstalledApp>, app: InstalledApp)
    ensures
        ({
            let s = without_install(apps, app.server_url@, app.app_id@).push(app);
            &&& install_index(s, app.server_url@, app.app_id@) == s.len() - 1
            &&& forall|j: int| 0 <= j < s.len() - 1 ==> !#[trigger] is_install_of(s[j], app.server_url@, app.app_id@)
        }),
{
    let w = without_install(apps, app.server_url@, app.app_id@);
    let s = w.push(app);
    lemma_without_install_none(apps, app.server_url@, app.app_id@);
    lemma_install_index(s, app.server_url@, app.app_id@);
    assert forall|j: int| 0 <= j < s.len() - 1 implies !#[trigger] is_install_of(s[j], app.server_url@, app.app_id@) by {
        assert(s[j] == w[j]);
    }
    if install_index(s, app.server_url@, app.app_id@) < s.len() - 1 {
        let k = install_index(s, app.server_url@, app.app_id@) as int;
        assert(!is_install_of(s[k], app.server_url@, app.app_id@));
    }
    assert(is_install_of(s[s.len() - 1], app.server_url@, app.app_id@));
}

/// Where an application is installed: `<install dir>/<app_id>`, trailing
/// slashes of the install directory dropped.
pub fn install_dir_for(install_dir: &str, app_id: &str) -> (r: String)
    ensures
        r@ == trim_end_char(install_dir@, '/') + "/"@ + app_id@,
{
    let base = trim_end_matches_char(install_dir, '/');
    let mut r = concat_str(base.as_str(), "/");
    r.append(app_id);
    r
}

// ---------------------------------------------------------------------
// Update checks
// ---------------------------------------------------------------------

/// What an update check leads to.
pub enum UpdateDecision {
    /// Nothing newer is offered.
    UpToDate,
    /// Download and verify this package with this key.
    Install { metadata: PackageMetadata, publisher_key: HybridPublicKey },
    /// The answer is incomplete.
    Failed(String),
}

/// What the client does with the server's answer to an update check.
pub fn decide_update(resp: CheckUpdateResponse) -> (r: UpdateDecision)
    ensures
        !resp.update_available ==> r is UpToDate,
        resp.update_available && resp.latest_package is None ==> (r matches UpdateDecision::Failed(e)
            && e@ == "No metadata in response"@),
        resp.update_available && resp.latest_package is Some && resp.publisher_public_key is None ==> (r matches UpdateDecision::Failed(
            e,
        ) && e@ == "No publisher key in response"@),
        resp.update_available ==> (match (resp.latest_package, resp.publisher_public_key) {
            (Some(m), Some(k)) => r == (UpdateDecision::Install { metadata: m, publisher_key: k }),
            _ => r is Failed,
        }),
{
    if !resp.update_available {
        return UpdateDecision::UpToDate;
    }
    let metadata = match resp.latest_package {
        Some(m) => m,
        None => return UpdateDecision::Failed(String::from_str("No metadata in response")),
    };
    let publisher_key = match resp.publisher_public_key {
        Some(k) => k,
        None => return UpdateDecision::Failed(String::from_str("No publisher key in response")),
    };
    UpdateDecision::Install { metadata, publisher_key }
}

} // verus!
