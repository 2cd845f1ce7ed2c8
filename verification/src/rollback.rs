//! Installation history of a package, for rollback and downgrade checks.

use vstd::prelude::*;
use crate::backend::now_unix_seconds;
use crate::text::str_eq;
use crate::version::{SemanticVersion, version_newer, version_parse, lemma_newer_asymmetric, lemma_newer_irreflexive, lemma_newer_total};

verus! {

/// The installed versions of a package, oldest first, at most
/// `max_history` of them.
#[derive(Clone, Debug)]
pub struct VersionHistory {
    pub package_name: String,
    pub current_version: String,
    pub installed_versions: Vec<InstalledVersion>,
    pub max_history: usize,
}

/// One installation; `installed_at` is seconds since the Unix epoch.
#[derive(Clone, Debug)]
pub struct InstalledVersion {
    pub version: String,
    pub installed_at: i64,
    pub files: Vec<String>,
    pub manifest_hash: String,
}

/// A move from the version `current` to `new` is a downgrade unless both
/// texts are versions and `new` is strictly newer.
pub open spec fn downgrade(new: Seq<char>, current: Seq<char>) -> bool {
    match (version_parse(new), version_parse(current)) {
        (Some(n), Some(c)) => !version_newer(n, c),
        _ => true,
    }
}

/// The last `max` entries (all of them when there are fewer).
pub open spec fn keep_last<T>(s: Seq<T>, max: nat) -> Seq<T> {
    if s.len() > max {
        s.skip(s.len() - max)
    } else {
        s
    }
}

/// The installations whose version differs from `current`, in order.
pub open spec fn other_versions(s: Seq<InstalledVersion>, current: Seq<char>) -> Seq<InstalledVersion>
    decreases s.len(),
{
    if s.len() == 0 {
        Seq::<InstalledVersion>::empty()
    } else {
        let r = other_versions(s.drop_last(), current);
        if s.last().version@ != current {
            r.push(s.last())
        } else {
            r
        }
    }
}

impl VersionHistory {
    /// An empty history with current version `0.0.0`, keeping 5 entries.
    pub fn new(package_name: &str) -> (r: Self)
        ensures
            r.package_name@ == package_name@,
            r.current_version@ == "0.0.0"@,
            r.installed_versions@.len() == 0,
            r.max_history == 5,
    {
        VersionHistory {
            package_name: String::from_str(package_name),
            current_version: String::from_str("0.0.0"),
            installed_versions: Vec::new(),
            max_history: 5,
        }
    }

    /// Records an installation made at `installed_at`: it becomes the
    /// current version and the newest entry, and only the newest
    /// `max_history` entries are kept.
    pub fn record_installation_at(
        &mut self,
        version: &str,
        files: Vec<String>,
        manifest_hash: &str,
        installed_at: i64,
    )
        ensures
            final(self).current_version@ == version@,
            final(self).package_name == old(self).package_name,
            final(self).max_history == old(self).max_history,
            final(self).installed_versions@.len() <= final(self).max_history,
            exists|e: InstalledVersion|
                {
                    &&& e.version@ == version@
                    &&& e.installed_at == installed_at
                    &&& e.files == files
                    &&& e.manifest_hash@ == manifest_hash@
                    &&& #[trigger] final(self).installed_versions@ == keep_last(
                        old(self).installed_versions@.push(e),
                        old(self).max_history as nat,
                    )
                },
    {
        self.current_version = String::from_str(version);
        let e = InstalledVersion {
            version: String::from_str(version),
            installed_at,
            files,
            manifest_hash: String::from_str(manifest_hash),
        };
        let ghost ge = e;
        assert(ge.version@ == version@ && ge.installed_at == installed_at && ge.files == files
            && ge.manifest_hash@ == manifest_hash@);
        self.installed_versions.push(e);
        let ghost full = self.installed_versions@;
        let ghost mut removed: int = 0;
        while self.installed_versions.len() > self.max_history
            invariant
                0 <= removed <= full.len(),
                self.installed_versions@ == full.skip(removed),
                self.max_history == old(self).max_history,
                self.current_version@ == version@,
                self.package_name == old(self).package_name,
                removed > 0 ==> full.len() - removed >= self.max_history,
            decreases self.installed_versions.len(),
        {
            self.installed_versions.remove(0);
            proof {
                assert(full.skip(removed).remove(0) =~= full.skip(removed + 1));
                removed = removed + 1;
            }
        }
        proof {
            if full.len() > self.max_history {
                assert(removed > 0);
                assert(removed == full.len() - self.max_history);
            } else {
                assert(full.skip(0) =~= full);
            }
            assert(self.installed_versions@ == keep_last(
                old(self).installed_versions@.push(ge),
                old(self).max_history as nat,
            ));
        }
    }

    /// Records an installation made now.
    pub fn record_installation(&mut self, version: &str, files: Vec<String>, manifest_hash: &str)
        ensures
            final(self).current_version@ == version@,
            final(self).package_name == old(self).package_name,
            final(self).max_history == old(self).max_history,
            final(self).installed_versions@.len() <= final(self).max_history,
            exists|e: InstalledVersion|
                {
                    &&& e.version@ == version@
                    &&& e.files == files
                    &&& e.manifest_hash@ == manifest_hash@
                    &&& #[trigger] final(self).installed_versions@ == keep_last(
                        old(self).installed_versions@.push(e),
                        old(self).max_history as nat,
                    )
                },
    {
        let now = now_unix_seconds();
        self.record_installation_at(version, files, manifest_hash, now);
    }

    /// A version that is not newer than the current one would be a
    /// downgrade; both texts are read as semantic versions, and a text that
    /// is no version is never taken for an upgrade.
    pub fn is_downgrade(&self, new_version: &str) -> (r: bool)
        ensures
            r == downgrade(new_version@, self.current_version@),
    {
        let n = SemanticVersion::parse(new_version);
        let c = SemanticVersion::parse(self.current_version.as_str());
        match (n, c) {
            (Ok(n), Ok(c)) => !n.is_newer_than(&c),
            _ => true,
        }
    }

    /// The recorded installations of other versions than the current one.
    pub fn rollback_targets(&self) -> (r: Vec<&InstalledVersion>)
        ensures
            r@.len() == other_versions(self.installed_versions@, self.current_version@).len(),
            forall|i: int|
                0 <= i < r@.len() ==> *r@[i] == other_versions(
                    self.installed_versions@,
                    self.current_version@,
                )[i],
    {
        let mut r: Vec<&InstalledVersion> = Vec::new();
        let mut i: usize = 0;
        let ghost s = self.installed_versions@;
        let ghost cur = self.current_version@;
        while i < self.installed_versions.len()
            invariant
                i <= s.len(),
                s == self.installed_versions@,
                cur == self.current_version@,
                r@.len() == other_versions(s.take(i as int), cur).len(),
                forall|j: int|
                    0 <= j < r@.len() ==> *r@[j] == other_versions(s.take(i as int), cur)[j],
            decreases s.len() - i,
        {
            assert(s.take(i + 1).drop_last() =~= s.take(i as int));
            let v = &self.installed_versions[i];
            if !str_eq(v.version.as_str(), self.current_version.as_str()) {
                r.push(v);
            }
            i = i + 1;
        }
        assert(s.take(s.len() as int) =~= s);
        r
    }
}

/// Re-installing the current version counts as a downgrade, so a replayed
/// update is refused; of two different versions, exactly one is a
/// downgrade of the other; and a text that is no version is refused.
pub proof fn lemma_replay_is_downgrade(current: Seq<char>, other: Seq<char>)
    ensures
        downgrade(current, current),
        version_parse(current) is Some && version_parse(other) is Some && version_parse(current)
            != version_parse(other) ==> (downgrade(other, current) != downgrade(current, other)),
        version_parse(other) is None ==> downgrade(other, current),
{
    if let Some(c) = version_parse(current) {
        lemma_newer_irreflexive(c);
        if let Some(o) = version_parse(other) {
            lemma_newer_total(c, o);
            lemma_newer_asymmetric(c, o);
        }
    }
}

/// The current version is never among the rollback targets.
pub proof fn lemma_current_not_a_target(s: Seq<InstalledVersion>, current: Seq<char>, i: int)
    requires
        0 <= i < other_versions(s, current).len(),
    ensures
        other_versions(s, current)[i].version@ != current,
    decreases s.len(),
{
    if s.len() > 0 {
        let r = other_versions(s.drop_last(), current);
        if s.last().version@ != current && i == r.len() {
        } else {
            lemma_current_not_a_target(s.drop_last(), current, i);
        }
    }
}

} // verus!
