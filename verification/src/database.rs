//! The package server's tables of publishers and package metadata, with
//! the rules of its queries: a publisher id is a primary key, saving a
//! package replaces the row with the same package id, and the latest
//! package of an application is the one with the greatest version.
//! The tables are held in memory; storing them is left to the server.

use vstd::prelude::*;
use crate::models::{copy_package, copy_publisher, same_package, same_publisher, PackageMetadata, PublisherInfo};
use crate::text::str_eq;
use crate::version::{version_newer, SemanticVersion};

verus! {

/// The index of the first publisher with the id, or the length when none.
pub open spec fn publisher_index(rows: Seq<PublisherInfo>, id: Seq<char>) -> int
    decreases rows.len(),
{
    if rows.len() == 0 {
        0
    } else if rows[0].id@ == id {
        0
    } else {
        1 + publisher_index(rows.drop_first(), id)
    }
}

/// The index of the first package with the id, or the length when none.
pub open spec fn package_index(rows: Seq<PackageMetadata>, id: Seq<char>) -> int
    decreases rows.len(),
{
    if rows.len() == 0 {
        0
    } else if rows[0].package_id@ == id {
        0
    } else {
        1 + package_index(rows.drop_first(), id)
    }
}

/// Row `i` is the latest package of the application: the first row of the
/// application whose version no other row of the application exceeds.
pub open spec fn is_latest(rows: Seq<PackageMetadata>, app_id: Seq<char>, i: int) -> bool {
    &&& 0 <= i < rows.len()
    &&& rows[i].app_id@ == app_id
    &&& forall|j: int|
        0 <= j < rows.len() && #[trigger] rows[j].app_id@ == app_id ==> {
            &&& j < i ==> version_newer(rows[i].version, rows[j].version)
            &&& !version_newer(rows[j].version, rows[i].version)
        }
}

/// Some row belongs to the application.
pub open spec fn has_app(rows: Seq<PackageMetadata>, app_id: Seq<char>) -> bool {
    exists|j: int| 0 <= j < rows.len() && #[trigger] rows[j].app_id@ == app_id
}

/// The package rows after saving `m`: the row with its package id, if
/// any, leaves, and `m` is appended.
pub open spec fn after_save(rows: Seq<PackageMetadata>, m: PackageMetadata) -> Seq<PackageMetadata> {
    if package_index(rows, m.package_id@) < rows.len() {
        rows.remove(package_index(rows, m.package_id@)).push(m)
    } else {
        rows.push(m)
    }
}

/// The index of the last package row of the application with the
/// version (its latest publication), or -1 when there is none.
pub open spec fn release_index(rows: Seq<PackageMetadata>, app_id: Seq<char>, version: SemanticVersion) -> int
    decreases rows.len(),
{
    if rows.len() == 0 {
        -1
    } else if rows.last().app_id@ == app_id && rows.last().version == version {
        rows.len() - 1
    } else {
        release_index(rows.drop_last(), app_id, version)
    }
}

/// The release index is -1 or a row of the application with the version,
/// and no later row has both.
pub proof fn lemma_release_index(rows: Seq<PackageMetadata>, app_id: Seq<char>, version: SemanticVersion)
    ensures
        -1 <= release_index(rows, app_id, version) < rows.len(),
        release_index(rows, app_id, version) >= 0 ==> rows[release_index(rows, app_id, version)].app_id@
            == app_id && rows[release_index(rows, app_id, version)].version == version,
        forall|j: int|
            release_index(rows, app_id, version) < j < rows.len() ==> !(#[trigger] rows[j].app_id@ == app_id
                && rows[j].version == version),
    decreases rows.len(),
{
    if rows.len() > 0 && !(rows.last().app_id@ == app_id && rows.last().version == version) {
        lemma_release_index(rows.drop_last(), app_id, version);
        assert forall|j: int| release_index(rows, app_id, version) < j < rows.len() implies !(
        #[trigger] rows[j].app_id@ == app_id && rows[j].version == version) by {
            if j < rows.len() - 1 {
                assert(rows[j] == rows.drop_last()[j]);
            }
        }
        let k = release_index(rows, app_id, version);
        if k >= 0 {
            assert(rows[k] == rows.drop_last()[k]);
        }
    }
}

/// No two publishers share an id.
pub open spec fn distinct_publishers(rows: Seq<PublisherInfo>) -> bool {
    forall|i: int, j: int| 0 <= i < j < rows.len() ==> #[trigger] rows[i].id@ != #[trigger] rows[j].id@
}

/// No two packages share a package id.
pub open spec fn distinct_packages(rows: Seq<PackageMetadata>) -> bool {
    forall|i: int, j: int|
        0 <= i < j < rows.len() ==> #[trigger] rows[i].package_id@ != #[trigger] rows[j].package_id@
}

/// The lookup index is within the table, points at a row with the id
/// when below its length, and no earlier row has the id.
pub proof fn lemma_publisher_index(rows: Seq<PublisherInfo>, id: Seq<char>)
    ensures
        0 <= publisher_index(rows, id) <= rows.len(),
        publisher_index(rows, id) < rows.len() ==> rows[publisher_index(rows, id)].id@ == id,
        forall|j: int| 0 <= j < publisher_index(rows, id) ==> #[trigger] rows[j].id@ != id,
    decreases rows.len(),
{
    if rows.len() > 0 && rows[0].id@ != id {
        lemma_publisher_index(rows.drop_first(), id);
        assert forall|j: int| 0 <= j < publisher_index(rows, id) implies #[trigger] rows[j].id@ != id by {
            if j > 0 {
                assert(rows[j] == rows.drop_first()[j - 1]);
            }
        }
    }
}

/// The lookup index is within the table, points at a row with the id
/// when below its length, and no earlier row has the id.
pub proof fn lemma_package_index(rows: Seq<PackageMetadata>, id: Seq<char>)
    ensures
        0 <= package_index(rows, id) <= rows.len(),
        package_index(rows, id) < rows.len() ==> rows[package_index(rows, id)].package_id@ == id,
        forall|j: int| 0 <= j < package_index(rows, id) ==> #[trigger] rows[j].package_id@ != id,
    decreases rows.len(),
{
    if rows.len() > 0 && rows[0].package_id@ != id {
        lemma_package_index(rows.drop_first(), id);
        assert forall|j: int| 0 <= j < package_index(rows, id) implies #[trigger] rows[j].package_id@
            != id by {
            if j > 0 {
                assert(rows[j] == rows.drop_first()[j - 1]);
            }
        }
    }
}

/// Once a publisher is registered, looking up its id finds it, and the
/// lookups of every id already present find what they found before.
pub proof fn lemma_register_then_get(rows: Seq<PublisherInfo>, p: PublisherInfo, other: Seq<char>)
    requires
        publisher_index(rows, p.id@) == rows.len(),
    ensures
        publisher_index(rows.push(p), p.id@) == rows.len(),
        rows.push(p)[rows.len() as int] == p,
        publisher_index(rows, other) < rows.len() ==> publisher_index(rows.push(p), other) == publisher_index(
            rows,
            other,
        ),
{
    lemma_publisher_index(rows, p.id@);
    lemma_publisher_index(rows.push(p), p.id@);
    lemma_publisher_index(rows, other);
    lemma_publisher_index(rows.push(p), other);
    assert(rows.push(p)[rows.len() as int].id@ == p.id@);
    let k = publisher_index(rows.push(p), p.id@);
    if k < rows.len() {
        assert(rows.push(p)[k] == rows[k]);
    }
    let a = publisher_index(rows, other);
    let b = publisher_index(rows.push(p), other);
    if a < rows.len() {
        assert(rows.push(p)[a] == rows[a]);
        if b < a {
            assert(rows.push(p)[b] == rows[b]);
        }
    }
}

/// After a package is saved, its application has a latest package, and
/// that package is at least as new as the saved one; when the saved
/// version is newer than every other package of the application, the
/// saved package is the latest.
pub proof fn lemma_save_then_latest(rows: Seq<PackageMetadata>, m: PackageMetadata, i: int)
    requires
        distinct_packages(rows),
        is_latest(after_save(rows, m), m.app_id@, i),
    ensures
        has_app(after_save(rows, m), m.app_id@),
        !version_newer(m.version, after_save(rows, m)[i].version),
        (forall|j: int|
            0 <= j < rows.len() && #[trigger] rows[j].app_id@ == m.app_id@ && rows[j].package_id@
                != m.package_id@ ==> version_newer(m.version, rows[j].version)) ==> i == after_save(
            rows,
            m,
        ).len() - 1,
{
    let s = after_save(rows, m);
    let last = s.len() - 1;
    lemma_package_index(rows, m.package_id@);
    assert(s[last] == m);
    assert(s[last].app_id@ == m.app_id@);
    assert(has_app(s, m.app_id@));
    if forall|j: int|
        0 <= j < rows.len() && #[trigger] rows[j].app_id@ == m.app_id@ && rows[j].package_id@ != m.package_id@
            ==> version_newer(m.version, rows[j].version) {
        if i != last {
            let x = package_index(rows, m.package_id@);
            let i0 = if x < rows.len() && i >= x { i + 1 } else { i };
            assert(s[i] == rows[i0]);
            if x < rows.len() {
                let rr = rows.remove(x);
                assert(s[i] == rr[i]);
                assert(i0 != x);
                assert(rows[x].package_id@ == m.package_id@);
                if i0 < x {
                    assert(rows[i0].package_id@ != rows[x].package_id@);
                } else {
                    assert(rows[x].package_id@ != rows[i0].package_id@);
                }
            }
            assert(rows[i0].package_id@ != m.package_id@);
            assert(version_newer(m.version, s[i].version));
            assert(!version_newer(s[last].version, s[i].version));
        }
    }
}

/// An application has at most one latest package.
pub proof fn lemma_latest_unique(rows: Seq<PackageMetadata>, app_id: Seq<char>, i: int, j: int)
    requires
        is_latest(rows, app_id, i),
        is_latest(rows, app_id, j),
    ensures
        i == j,
{
    if i < j {
        assert(rows[i].app_id@ == app_id);
    } else if j < i {
        assert(rows[j].app_id@ == app_id);
    }
}

/// The tables of the package server.
pub struct Database {
    publishers: Vec<PublisherInfo>,
    packages: Vec<PackageMetadata>,
}

impl Database {
    /// The publisher rows, in the order they were registered.
    pub closed spec fn publisher_rows(self) -> Seq<PublisherInfo> {
        self.publishers@
    }

    /// The package rows, in the order they were saved.
    pub closed spec fn package_rows(self) -> Seq<PackageMetadata> {
        self.packages@
    }

    /// Ids are unique in both tables.
    pub open spec fn wf(self) -> bool {
        &&& distinct_publishers(self.publisher_rows())
        &&& distinct_packages(self.package_rows())
    }

    /// Empty tables.
    pub fn new() -> (r: Self)
        ensures
            r.wf(),
            r.publisher_rows().len() == 0,
            r.package_rows().len() == 0,
    {
        Database { publishers: Vec::new(), packages: Vec::new() }
    }


    /// Registers a publisher. The id is a primary key: a second publisher
    /// with an id already present is refused and the table is unchanged.
    pub fn register_publisher(&mut self, publisher: PublisherInfo) -> (r: Result<(), String>)
        requires
            old(self).wf(),
        ensures
            final(self).wf(),
            final(self).package_rows() == old(self).package_rows(),
            publisher_index(old(self).publisher_rows(), publisher.id@) < old(self).publisher_rows().len()
                <==> r is Err,
            r matches Err(e) ==> e@ == "Failed to insert publisher"@ && final(self).publisher_rows()
                == old(self).publisher_rows(),
            r is Ok ==> final(self).publisher_rows() == old(self).publisher_rows().push(publisher),
    {
        let i = self.find_publisher(publisher.id.as_str());
        if i < self.publishers.len() {
            return Err(String::from_str("Failed to insert publisher"));
        }
        proof {
            lemma_publisher_index(self.publishers@, publisher.id@);
        }
        self.publishers.push(publisher);
        Ok(())
    }

    /// Copies of all publishers, in the order they were registered.
    pub fn list_publishers(&self) -> (r: Vec<PublisherInfo>)
        ensures
            r@.len() == self.publisher_rows().len(),
            forall|i: int| 0 <= i < r@.len() ==> same_publisher(#[trigger] r@[i], self.publisher_rows()[i]),
    {
        let mut r: Vec<PublisherInfo> = Vec::new();
        let mut i: usize = 0;
        while i < self.publishers.len()
            invariant
                i <= self.publishers@.len(),
                r@.len() == i,
                forall|k: int| 0 <= k < i ==> same_publisher(#[trigger] r@[k], self.publishers@[k]),
            decreases self.publishers.len() - i,
        {
            r.push(copy_publisher(&self.publishers[i]));
            i = i + 1;
        }
        r
    }

    /// The publisher with the id, if registered.
    pub fn get_publisher(&self, publisher_id: &str) -> (r: Option<PublisherInfo>)
        ensures
            publisher_index(self.publisher_rows(), publisher_id@) < self.publisher_rows().len() <==> r is Some,
            r matches Some(p) ==> same_publisher(
                p,
                self.publisher_rows()[publisher_index(self.publisher_rows(), publisher_id@)],
            ),
    {
        let i = self.find_publisher(publisher_id);
        if i < self.publishers.len() {
            Some(copy_publisher(&self.publishers[i]))
        } else {
            None
        }
    }

    /// Saves package metadata, replacing the row with the same package id.
    pub fn save_package_metadata(&mut self, metadata: PackageMetadata)
        requires
            old(self).wf(),
        ensures
            final(self).wf(),
            final(self).publisher_rows() == old(self).publisher_rows(),
            final(self).package_rows() == after_save(old(self).package_rows(), metadata),
    {
        let i = self.find_package(metadata.package_id.as_str());
        proof {
            lemma_package_index(self.packages@, metadata.package_id@);
        }
        if i < self.packages.len() {
            let ghost before = self.packages@;
            self.packages.remove(i);
            proof {
                assert forall|a: int, b: int| 0 <= a < b < self.packages@.len() implies
                    #[trigger] self.packages@[a].package_id@ != #[trigger] self.packages@[b].package_id@ by {
                    let a0 = if a < i { a } else { a + 1 };
                    let b0 = if b < i { b } else { b + 1 };
                    assert(self.packages@[a] == before[a0]);
                    assert(self.packages@[b] == before[b0]);
                }
                assert forall|a: int| 0 <= a < self.packages@.len() implies
                    #[trigger] self.packages@[a].package_id@ != metadata.package_id@ by {
                    let a0 = if a < i { a } else { a + 1 };
                    assert(self.packages@[a] == before[a0]);
                    assert(before[i as int].package_id@ == metadata.package_id@);
                }
            }
        }
        let ghost mid = self.packages@;
        self.packages.push(metadata);
        proof {
            assert forall|a: int, b: int| 0 <= a < b < self.packages@.len() implies
                #[trigger] self.packages@[a].package_id@ != #[trigger] self.packages@[b].package_id@ by {
                if b == mid.len() {
                    assert(self.packages@[a] == mid[a]);
                } else {
                    assert(self.packages@[a] == mid[a]);
                    assert(self.packages@[b] == mid[b]);
                }
            }
        }
    }

    /// The latest package of the application: the one with the greatest
    /// version (the first saved among equal versions), if any.
    pub fn get_latest_package(&self, app_id: &str) -> (r: Option<PackageMetadata>)
        ensures
            r is Some <==> has_app(self.package_rows(), app_id@),
            r matches Some(m) ==> exists|i: int|
                is_latest(self.package_rows(), app_id@, i) && same_package(m, #[trigger] self.package_rows()[i]),
    {
        let mut best: Option<usize> = None;
        let mut k: usize = 0;
        while k < self.packages.len()
            invariant
                k <= self.packages@.len(),
                match best {
                    None => forall|j: int| 0 <= j < k ==> #[trigger] self.packages@[j].app_id@ != app_id@,
                    Some(b) => b < k && is_latest(self.packages@.take(k as int), app_id@, b as int),
                },
            decreases self.packages.len() - k,
        {
            let ghost pre = self.packages@.take(k as int);
            let ghost post = self.packages@.take(k + 1);
            if str_eq(self.packages[k].app_id.as_str(), app_id) {
                match best {
                    None => {
                        best = Some(k);
                        proof {
                            assert forall|j: int| 0 <= j < post.len() && #[trigger] post[j].app_id@ == app_id@ implies
                                {
                                &&& j < k ==> version_newer(post[k as int].version, post[j].version)
                                &&& !version_newer(post[j].version, post[k as int].version)
                            } by {
                                if j < k {
                                    assert(post[j] == self.packages@[j]);
                                }
                                crate::version::lemma_newer_irreflexive(post[k as int].version);
                            }
                        }
                    },
                    Some(b) => {
                        if self.packages[k].version.is_newer_than(&self.packages[b].version) {
                            best = Some(k);
                            proof {
                                assert forall|j: int| 0 <= j < post.len() && #[trigger] post[j].app_id@ == app_id@ implies
                                    {
                                    &&& j < k ==> version_newer(post[k as int].version, post[j].version)
                                    &&& !version_newer(post[j].version, post[k as int].version)
                                } by {
                                    crate::version::lemma_newer_irreflexive(post[k as int].version);
                                    if j < k {
                                        assert(post[j] == pre[j]);
                                        assert(pre[b as int] == post[b as int]);
                                        crate::version::lemma_newer_total(post[j].version, pre[b as int].version);
                                        if version_newer(pre[b as int].version, post[j].version) {
                                            crate::version::lemma_newer_transitive(
                                                post[k as int].version,
                                                pre[b as int].version,
                                                post[j].version,
                                            );
                                        }
                                        crate::version::lemma_newer_asymmetric(post[k as int].version, post[j].version);
                                    }
                                }
                            }
                        } else {
                            proof {
                                assert forall|j: int| 0 <= j < post.len() && #[trigger] post[j].app_id@ == app_id@ implies
                                    {
                                    &&& j < b ==> version_newer(post[b as int].version, post[j].version)
                                    &&& !version_newer(post[j].version, post[b as int].version)
                                } by {
                                    assert(pre[b as int] == post[b as int]);
                                    if j < k {
                                        assert(post[j] == pre[j]);
                                    }
                                }
                            }
                        }
                    },
                }
            } else {
                proof {
                    match best {
                        None => {},
                        Some(b) => {
                            assert forall|j: int| 0 <= j < post.len() && #[trigger] post[j].app_id@ == app_id@ implies
                                {
                                &&& j < b ==> version_newer(post[b as int].version, post[j].version)
                                &&& !version_newer(post[j].version, post[b as int].version)
                            } by {
                                assert(pre[b as int] == post[b as int]);
                                if j < k {
                                    assert(post[j] == pre[j]);
                                }
                            }
                        },
                    }
                }
            }
            k = k + 1;
        }
        proof {
            assert(self.packages@.take(k as int) =~= self.packages@);
        }
        match best {
            None => None,
            Some(b) => Some(copy_package(&self.packages[b])),
        }
    }

    /// The latest publication of the application with the version, if any.
    pub fn find_release(&self, app_id: &str, version: &SemanticVersion) -> (r: Option<PackageMetadata>)
        ensures
            r is Some <==> release_index(self.package_rows(), app_id@, *version) >= 0,
            r matches Some(m) ==> same_package(
                m,
                self.package_rows()[release_index(self.package_rows(), app_id@, *version)],
            ),
    {
        let ghost rows = self.packages@;
        proof {
            lemma_release_index(rows, app_id@, *version);
        }
        let mut i: usize = self.packages.len();
        while i > 0
            invariant
                i <= rows.len(),
                rows == self.packages@,
                -1 <= release_index(rows, app_id@, *version) < i,
                release_index(rows, app_id@, *version) >= 0 ==> rows[release_index(rows, app_id@, *version)].app_id@
                    == app_id@ && rows[release_index(rows, app_id@, *version)].version == *version,
                forall|j: int|
                    release_index(rows, app_id@, *version) < j < rows.len() ==> !(#[trigger] rows[j].app_id@
                        == app_id@ && rows[j].version == *version),
            decreases i,
        {
            let k = i - 1;
            if str_eq(self.packages[k].app_id.as_str(), app_id) && self.packages[k].version == *version {
                assert(release_index(rows, app_id@, *version) == k) by {
                    if release_index(rows, app_id@, *version) < k {
                        assert(!(rows[k as int].app_id@ == app_id@ && rows[k as int].version == *version));
                    }
                }
                return Some(copy_package(&self.packages[k]));
            }
            proof {
                if release_index(rows, app_id@, *version) == k {
                    assert(false);
                }
            }
            i = k;
        }
        None
    }

    fn find_publisher(&self, id: &str) -> (r: usize)
        ensures
            r == publisher_index(self.publisher_rows(), id@),
    {
        proof {
            lemma_publisher_index(self.publishers@, id@);
        }
        let mut i: usize = 0;
        while i < self.publishers.len()
            invariant
                i <= self.publishers@.len(),
                forall|j: int| 0 <= j < i ==> #[trigger] self.publishers@[j].id@ != id@,
                publisher_index(self.publishers@, id@) >= i,
                0 <= publisher_index(self.publishers@, id@) <= self.publishers@.len(),
                publisher_index(self.publishers@, id@) < self.publishers@.len() ==> self.publishers@[publisher_index(
                    self.publishers@,
                    id@,
                )].id@ == id@,
                forall|j: int|
                    0 <= j < publisher_index(self.publishers@, id@) ==> #[trigger] self.publishers@[j].id@
                        != id@,
            decreases self.publishers.len() - i,
        {
            if str_eq(self.publishers[i].id.as_str(), id) {
                return i;
            }
            i = i + 1;
        }
        i
    }

    fn find_package(&self, id: &str) -> (r: usize)
        ensures
            r == package_index(self.package_rows(), id@),
    {
        proof {
            lemma_package_index(self.packages@, id@);
        }
        let mut i: usize = 0;
        while i < self.packages.len()
            invariant
                i <= self.packages@.len(),
                forall|j: int| 0 <= j < i ==> #[trigger] self.packages@[j].package_id@ != id@,
                package_index(self.packages@, id@) >= i,
                0 <= package_index(self.packages@, id@) <= self.packages@.len(),
                package_index(self.packages@, id@) < self.packages@.len() ==> self.packages@[package_index(
                    self.packages@,
                    id@,
                )].package_id@ == id@,
                forall|j: int|
                    0 <= j < package_index(self.packages@, id@) ==> #[trigger] self.packages@[j].package_id@
                        != id@,
            decreases self.packages.len() - i,
        {
            if str_eq(self.packages[i].package_id.as_str(), id) {
                return i;
            }
            i = i + 1;
        }
        i
    }
}

} // verus!
