//! Publisher identities, the store of trusted publishers and revoked keys,
//! and the generation of publisher key material.

use vstd::prelude::*;
use crate::backend::now_unix_seconds;
use crate::base64_text::base64_of;
use crate::classical::Ed25519KeyPair;
use crate::core_types::{CryptoError, SignatureAlgorithm};
use crate::hybrid::HybridKeyPair;
use crate::pq::MlDsaKeyPair;
use crate::backend::base64_encode;
use crate::text::{str_eq, copy_string};

verus! {

/// A publisher's identity and public keys; `created_at` is seconds since
/// the Unix epoch.
#[derive(Clone, Debug)]
pub struct PublisherIdentity {
    pub id: String,
    pub name: String,
    pub description: Option<String>,
    pub server_url: String,
    pub algorithm: SignatureAlgorithm,
    /// Ed25519 public key (base64).
    pub ed25519_public_key: Option<String>,
    /// ML-DSA-65 public key (base64).
    pub ml_dsa_public_key: Option<String>,
    pub key_id: String,
    pub created_at: i64,
}

/// Trusted publishers, at most one per id, and revoked key ids.
#[derive(Clone, Debug)]
pub struct KeyStore {
    pub publishers: Vec<PublisherIdentity>,
    pub revoked_keys: Vec<String>,
}

impl KeyStore {
    /// No two publishers share an id.
    pub open spec fn wf(&self) -> bool {
        forall|i: int, j: int|
            0 <= i < j < self.publishers@.len() ==> #[trigger] self.publishers@[i].id@
                != #[trigger] self.publishers@[j].id@
    }

    /// A publisher with this id is stored.
    pub open spec fn has(&self, id: Seq<char>) -> bool {
        exists|i: int| 0 <= i < self.publishers@.len() && #[trigger] self.publishers@[i].id@ == id
    }

    /// The publisher stored under this id.
    pub open spec fn lookup(&self, id: Seq<char>) -> Option<PublisherIdentity> {
        if self.has(id) {
            Some(
                self.publishers@[choose|i: int|
                    0 <= i < self.publishers@.len() && #[trigger] self.publishers@[i].id@ == id],
            )
        } else {
            None
        }
    }

    /// The key id has been revoked.
    pub open spec fn revoked(&self, key_id: Seq<char>) -> bool {
        exists|i: int| 0 <= i < self.revoked_keys@.len() && #[trigger] self.revoked_keys@[i]@ == key_id
    }

    proof fn lemma_lookup_at(&self, i: int)
        requires
            self.wf(),
            0 <= i < self.publishers@.len(),
        ensures
            self.lookup(self.publishers@[i].id@) == Some(self.publishers@[i]),
    {
        let id = self.publishers@[i].id@;
        assert(self.has(id));
        let j = choose|j: int| 0 <= j < self.publishers@.len() && #[trigger] self.publishers@[j].id@ == id;
        if j != i {
            if j < i {
                assert(self.publishers@[j].id@ != self.publishers@[i].id@);
            } else {
                assert(self.publishers@[i].id@ != self.publishers@[j].id@);
            }
        }
    }

    /// An empty store.
    pub fn new() -> (r: Self)
        ensures
            r.wf(),
            r.publishers@.len() == 0,
            r.revoked_keys@.len() == 0,
            forall|id: Seq<char>| r.lookup(id) is None,
    {
        KeyStore { publishers: Vec::new(), revoked_keys: Vec::new() }
    }

    fn index_of(&self, id: &str) -> (r: Option<usize>)
        requires
            self.wf(),
        ensures
            match r {
                Some(i) => i < self.publishers@.len() && self.publishers@[i as int].id@ == id@,
                None => !self.has(id@),
            },
    {
        let mut i: usize = 0;
        while i < self.publishers.len()
            invariant
                i <= self.publishers@.len(),
                forall|j: int| 0 <= j < i ==> #[trigger] self.publishers@[j].id@ != id@,
            decreases self.publishers.len() - i,
        {
            if str_eq(self.publishers[i].id.as_str(), id) {
                return Some(i);
            }
            i = i + 1;
        }
        None
    }

    /// Adds a trusted publisher, replacing one with the same id.
    pub fn add_publisher(&mut self, identity: PublisherIdentity)
        requires
            old(self).wf(),
        ensures
            final(self).wf(),
            final(self).lookup(identity.id@) == Some(identity),
            forall|id: Seq<char>| id != identity.id@ ==> final(self).lookup(id) == old(self).lookup(id),
            final(self).revoked_keys == old(self).revoked_keys,
    {
        let ghost old_self = *self;
        match self.index_of(identity.id.as_str()) {
            Some(i) => {
                self.publishers.set(i, identity);
                proof {
                    assert forall|a: int, b: int|
                        0 <= a < b < self.publishers@.len() implies #[trigger] self.publishers@[a].id@
                        != #[trigger] self.publishers@[b].id@ by {
                        assert(old_self.publishers@[a].id@ != old_self.publishers@[b].id@);
                    }
                    self.lemma_lookup_at(i as int);
                    assert forall|id: Seq<char>| id != identity.id@ implies self.lookup(id)
                        == old_self.lookup(id) by {
                        if old_self.has(id) {
                            let k = choose|k: int|
                                0 <= k < old_self.publishers@.len()
                                    && #[trigger] old_self.publishers@[k].id@ == id;
                            old_self.lemma_lookup_at(k);
                            assert(self.publishers@[k] == old_self.publishers@[k]);
                            self.lemma_lookup_at(k);
                        } else {
                            if self.has(id) {
                                let k = choose|k: int|
                                    0 <= k < self.publishers@.len()
                                        && #[trigger] self.publishers@[k].id@ == id;
                                assert(k != i);
                                assert(old_self.publishers@[k].id@ == id);
                            }
                        }
                    }
                }
            },
            None => {
                self.publishers.push(identity);
                proof {
                    let n = old_self.publishers@.len() as int;
                    assert forall|a: int, b: int|
                        0 <= a < b < self.publishers@.len() implies #[trigger] self.publishers@[a].id@
                        != #[trigger] self.publishers@[b].id@ by {
                        if b == n {
                            assert(old_self.publishers@[a].id@ != identity.id@);
                        } else {
                            assert(old_self.publishers@[a].id@ != old_self.publishers@[b].id@);
                        }
                    }
                    self.lemma_lookup_at(n);
                    assert forall|id: Seq<char>| id != identity.id@ implies self.lookup(id)
                        == old_self.lookup(id) by {
                        if old_self.has(id) {
                            let k = choose|k: int|
                                0 <= k < old_self.publishers@.len()
                                    && #[trigger] old_self.publishers@[k].id@ == id;
                            old_self.lemma_lookup_at(k);
                            self.lemma_lookup_at(k);
                        } else {
                            if self.has(id) {
                                let k = choose|k: int|
                                    0 <= k < self.publishers@.len()
                                        && #[trigger] self.publishers@[k].id@ == id;
                                assert(k != n);
                                assert(old_self.publishers@[k].id@ == id);
                            }
                        }
                    }
                }
            },
        }
    }

    /// Removes a publisher, returning it.
    pub fn remove_publisher(&mut self, publisher_id: &str) -> (r: Option<PublisherIdentity>)
        requires
            old(self).wf(),
        ensures
            final(self).wf(),
            r == old(self).lookup(publisher_id@),
            final(self).lookup(publisher_id@) is None,
            forall|id: Seq<char>|
                id != publisher_id@ ==> final(self).lookup(id) == old(self).lookup(id),
            final(self).revoked_keys == old(self).revoked_keys,
    {
        let ghost old_self = *self;
        match self.index_of(publisher_id) {
            Some(i) => {
                proof {
                    old_self.lemma_lookup_at(i as int);
                }
                let removed = self.publishers.remove(i);
                proof {
                    let s = old_self.publishers@;
                    assert(self.publishers@ =~= s.remove(i as int));
                    assert forall|a: int, b: int|
                        0 <= a < b < self.publishers@.len() implies #[trigger] self.publishers@[a].id@
                        != #[trigger] self.publishers@[b].id@ by {
                        let a0 = if a < i { a } else { a + 1 };
                        let b0 = if b < i { b } else { b + 1 };
                        assert(s[a0].id@ != s[b0].id@);
                    }
                    if self.has(publisher_id@) {
                        let k = choose|k: int|
                            0 <= k < self.publishers@.len()
                                && #[trigger] self.publishers@[k].id@ == publisher_id@;
                        let k0 = if k < i { k } else { k + 1 };
                        assert(s[k0].id@ == publisher_id@);
                        if k0 < i {
                            assert(s[k0].id@ != s[i as int].id@);
                        } else {
                            assert(s[i as int].id@ != s[k0].id@);
                        }
                    }
                    assert forall|id: Seq<char>| id != publisher_id@ implies self.lookup(id)
                        == old_self.lookup(id) by {
                        if old_self.has(id) {
                            let k = choose|k: int|
                                0 <= k < s.len() && #[trigger] old_self.publishers@[k].id@ == id;
                            old_self.lemma_lookup_at(k);
                            assert(k != i);
                            let k1 = if k < i { k } else { k - 1 };
                            assert(self.publishers@[k1] == s[k]);
                            self.lemma_lookup_at(k1);
                        } else {
                            if self.has(id) {
                                let k = choose|k: int|
                                    0 <= k < self.publishers@.len()
                                        && #[trigger] self.publishers@[k].id@ == id;
                                let k0 = if k < i { k } else { k + 1 };
                                assert(s[k0].id@ == id);
                            }
                        }
                    }
                }
                Some(removed)
            },
            None => None,
        }
    }

    /// The publisher stored under an id.
    pub fn get_publisher(&self, publisher_id: &str) -> (r: Option<&PublisherIdentity>)
        requires
            self.wf(),
        ensures
            match r {
                Some(p) => self.lookup(publisher_id@) == Some(*p),
                None => self.lookup(publisher_id@) is None,
            },
    {
        match self.index_of(publisher_id) {
            Some(i) => {
                proof {
                    self.lemma_lookup_at(i as int);
                }
                Some(&self.publishers[i])
            },
            None => None,
        }
    }

    /// Revokes a key id.
    pub fn revoke_key(&mut self, key_id: &str)
        ensures
            final(self).publishers == old(self).publishers,
            final(self).revoked_keys@.len() == old(self).revoked_keys@.len() + 1,
            final(self).revoked(key_id@),
            forall|k: Seq<char>| old(self).revoked(k) ==> final(self).revoked(k),
            forall|k: Seq<char>| final(self).revoked(k) ==> old(self).revoked(k) || k == key_id@,
    {
        let ghost old_self = *self;
        self.revoked_keys.push(String::from_str(key_id));
        proof {
            let n = old_self.revoked_keys@.len() as int;
            assert(self.revoked_keys@[n]@ == key_id@);
            assert forall|k: Seq<char>| old_self.revoked(k) implies self.revoked(k) by {
                let i = choose|i: int|
                    0 <= i < old_self.revoked_keys@.len() && #[trigger] old_self.revoked_keys@[i]@ == k;
                assert(self.revoked_keys@[i] == old_self.revoked_keys@[i]);
            }
            assert forall|k: Seq<char>| self.revoked(k) implies old_self.revoked(k) || k == key_id@ by {
                let i = choose|i: int|
                    0 <= i < self.revoked_keys@.len() && #[trigger] self.revoked_keys@[i]@ == k;
                if i < n {
                    assert(old_self.revoked_keys@[i] == self.revoked_keys@[i]);
                }
            }
        }
    }

    /// The key id has been revoked.
    pub fn is_key_revoked(&self, key_id: &str) -> (r: bool)
        ensures
            r == self.revoked(key_id@),
    {
        let mut i: usize = 0;
        while i < self.revoked_keys.len()
            invariant
                i <= self.revoked_keys@.len(),
                forall|j: int| 0 <= j < i ==> #[trigger] self.revoked_keys@[j]@ != key_id@,
            decreases self.revoked_keys.len() - i,
        {
            if str_eq(self.revoked_keys[i].as_str(), key_id) {
                return true;
            }
            i = i + 1;
        }
        false
    }

    /// All trusted publishers.
    pub fn list_publishers(&self) -> (r: Vec<&PublisherIdentity>)
        ensures
            r@.len() == self.publishers@.len(),
            forall|i: int| 0 <= i < r@.len() ==> *r@[i] == self.publishers@[i],
    {
        let mut r: Vec<&PublisherIdentity> = Vec::new();
        let mut i: usize = 0;
        while i < self.publishers.len()
            invariant
                i <= self.publishers@.len(),
                r@.len() == i,
                forall|j: int| 0 <= j < i ==> *r@[j] == self.publishers@[j],
            decreases self.publishers.len() - i,
        {
            r.push(&self.publishers[i]);
            i = i + 1;
        }
        r
    }
}

/// A publisher's identity together with the key pair of its algorithm.
pub struct PublisherKeyMaterial {
    pub identity: PublisherIdentity,
    pub ed25519_keypair: Option<Ed25519KeyPair>,
    pub ml_dsa_keypair: Option<MlDsaKeyPair>,
    pub hybrid_keypair: Option<HybridKeyPair>,
}

impl PublisherKeyMaterial {
    /// The key pair of the identity's algorithm is present and holds the
    /// identity's public keys and key id.
    pub open spec fn consistent(&self) -> bool {
        match self.identity.algorithm {
            SignatureAlgorithm::Ed25519 => {
                &&& self.ml_dsa_keypair is None
                &&& self.hybrid_keypair is None
                &&& self.identity.ml_dsa_public_key is None
                &&& match (self.ed25519_keypair, self.identity.ed25519_public_key) {
                    (Some(kp), Some(pk)) => kp.complete() && kp.wf() && pk@ == base64_of(
                        kp.public_key@,
                    ) && self.identity.key_id@ == kp.key_id@,
                    _ => false,
                }
            },
            SignatureAlgorithm::MlDsa65 => {
                &&& self.ed25519_keypair is None
                &&& self.hybrid_keypair is None
                &&& self.identity.ed25519_public_key is None
                &&& match (self.ml_dsa_keypair, self.identity.ml_dsa_public_key) {
                    (Some(kp), Some(pk)) => kp.complete() && pk@ == base64_of(kp.public_key@)
                        && self.identity.key_id@ == kp.key_id@,
                    _ => false,
                }
            },
            SignatureAlgorithm::HybridEd25519MlDsa65 => {
                &&& self.ed25519_keypair is None
                &&& self.ml_dsa_keypair is None
                &&& match (
                    self.hybrid_keypair,
                    self.identity.ed25519_public_key,
                    self.identity.ml_dsa_public_key,
                ) {
                    (Some(kp), Some(e), Some(m)) => kp.ed25519.complete() && kp.ed25519.wf()
                        && kp.ml_dsa.complete() && e@ == base64_of(kp.ed25519.public_key@) && m@
                        == base64_of(kp.ml_dsa.public_key@) && self.identity.key_id@ == kp.key_id@,
                    _ => false,
                }
            },
        }
    }

    /// Generates key material for a publisher, stamped with the given
    /// creation time.
    pub fn generate_at(
        id: &str,
        name: &str,
        server_url: &str,
        algorithm: SignatureAlgorithm,
        created_at: i64,
    ) -> (r: Result<Self, CryptoError>)
        ensures
            r matches Ok(m) && m.consistent() && m.identity.id@ == id@ && m.identity.name@ == name@
                && m.identity.server_url@ == server_url@ && m.identity.algorithm == algorithm
                && m.identity.description is None && m.identity.created_at == created_at,
    {
        let (ed25519_keypair, ml_dsa_keypair, hybrid_keypair, ed25519_pk, ml_dsa_pk, key_id) =
            match algorithm {
            SignatureAlgorithm::Ed25519 => {
                let kp = match Ed25519KeyPair::generate() {
                    Ok(k) => k,
                    Err(e) => return Err(e),
                };
                let pk = base64_encode(kp.public_key.as_slice());
                let kid = copy_string(&kp.key_id);
                (Some(kp), None, None, Some(pk), None, kid)
            },
            SignatureAlgorithm::MlDsa65 => {
                let kp = match MlDsaKeyPair::generate() {
                    Ok(k) => k,
                    Err(e) => return Err(e),
                };
                let pk = base64_encode(kp.public_key.as_slice());
                let kid = copy_string(&kp.key_id);
                (None, Some(kp), None, None, Some(pk), kid)
            },
            SignatureAlgorithm::HybridEd25519MlDsa65 => {
                let kp = match HybridKeyPair::generate() {
                    Ok(k) => k,
                    Err(e) => return Err(e),
                };
                let ed_pk = base64_encode(kp.ed25519.public_key.as_slice());
                let pq_pk = base64_encode(kp.ml_dsa.public_key.as_slice());
                let kid = copy_string(&kp.key_id);
                (None, None, Some(kp), Some(ed_pk), Some(pq_pk), kid)
            },
        };
        let identity = PublisherIdentity {
            id: String::from_str(id),
            name: String::from_str(name),
            description: None,
            server_url: String::from_str(server_url),
            algorithm,
            ed25519_public_key: ed25519_pk,
            ml_dsa_public_key: ml_dsa_pk,
            key_id,
            created_at,
        };
        Ok(PublisherKeyMaterial { identity, ed25519_keypair, ml_dsa_keypair, hybrid_keypair })
    }

    /// Generates key material for a publisher, created now.
    pub fn generate(id: &str, name: &str, server_url: &str, algorithm: SignatureAlgorithm) -> (r:
        Result<Self, CryptoError>)
        ensures
            r matches Ok(m) && m.consistent() && m.identity.id@ == id@ && m.identity.name@ == name@
                && m.identity.server_url@ == server_url@ && m.identity.algorithm == algorithm
                && m.identity.description is None,
    {
        let now = now_unix_seconds();
        Self::generate_at(id, name, server_url, algorithm, now)
    }
}

} // verus!
