//! Resolving subjects to their declared dual public keys.
use vstd::prelude::*;
use crate::backend::primitives::{MLDSA65_PUBLIC_LEN, SLH192S_PUBLIC_LEN};
use crate::backend::sign::DualPublicKey;
use crate::crypto::Attestation;
use crate::ids::SubjectId;

verus! {

/// A key view: the two encoded public keys.
pub type KeyBytes = (Seq<u8>, Seq<u8>);

/// Resolves a subject to its declared public key.
pub trait KeyResolver {
    /// The key declared for a subject, if any well-formed one is.
    spec fn key_for(&self, subject: Seq<char>) -> Option<KeyBytes>;

    fn resolve_subject(&self, subject: &SubjectId) -> (r: Option<DualPublicKey>)
        ensures
            match self.key_for(subject.0@) {
                None => r is None,
                Some(k) => r matches Some(p) && p.mldsa_view() == k.0 && p.slh_view() == k.1,
            },
    ;

    /// The key declared for an attestation's subject.
    fn resolve(&self, attestation: &Attestation) -> (r: Option<DualPublicKey>)
        ensures
            match self.key_for(attestation.subject.0@) {
                None => r is None,
                Some(k) => r matches Some(p) && p.mldsa_view() == k.0 && p.slh_view() == k.1,
            },
    {
        self.resolve_subject(&attestation.subject)
    }
}

/// One declared root of trust: a subject and its two encoded public keys.
#[derive(Debug, Clone)]
pub struct DeclaredKey {
    pub subject: SubjectId,
    pub ml_dsa_public: Vec<u8>,
    pub slh_dsa_public: Vec<u8>,
}

/// The first declaration for a subject in a registry listing.
pub open spec fn lookup(entries: Seq<DeclaredKey>, s: Seq<char>) -> Option<KeyBytes>
    decreases entries.len(),
{
    if entries.len() == 0 {
        None
    } else if entries[0].subject.0@ == s {
        Some((entries[0].ml_dsa_public@, entries[0].slh_dsa_public@))
    } else {
        lookup(entries.drop_first(), s)
    }
}

/// A declared key is usable when both encodings have the right length.
pub open spec fn well_formed_key(k: KeyBytes) -> bool {
    k.0.len() == MLDSA65_PUBLIC_LEN && k.1.len() == SLH192S_PUBLIC_LEN
}

/// A registry of declared roots of trust: one key per subject.
#[derive(Debug, Default, Clone)]
pub struct RegistryResolver {
    keys: Vec<DeclaredKey>,
}

impl RegistryResolver {
    /// The declared keys, as listed.
    pub closed spec fn entries_spec(&self) -> Seq<DeclaredKey> {
        self.keys@
    }

    /// What the registry declares for a subject.
    pub open spec fn declared(&self, s: Seq<char>) -> Option<KeyBytes> {
        lookup(self.entries_spec(), s)
    }

    /// An empty registry.
    pub fn new() -> (r: Self)
        ensures
            forall|s: Seq<char>| r.declared(s) is None,
    {
        RegistryResolver { keys: Vec::new() }
    }

    /// Declares (or replaces) a subject's key, returning the registry.
    pub fn with_root(self, subject: SubjectId, ml_dsa_public: Vec<u8>, slh_dsa_public: Vec<u8>) -> (r:
        Self)
        ensures
            r.declared(subject.0@) == Some((ml_dsa_public@, slh_dsa_public@)),
            forall|s: Seq<char>| s != subject.0@ ==> r.declared(s) == self.declared(s),
    {
        let mut r = self;
        r.insert_root(subject, ml_dsa_public, slh_dsa_public);
        r
    }

    /// Declares (or replaces) a subject's key: afterwards that subject resolves to it and
    /// every other subject as before.
    pub fn insert_root(&mut self, subject: SubjectId, ml_dsa_public: Vec<u8>, slh_dsa_public: Vec<u8>)
        ensures
            final(self).declared(subject.0@) == Some((ml_dsa_public@, slh_dsa_public@)),
            forall|s: Seq<char>| s != subject.0@ ==> final(self).declared(s) == old(self).declared(
                s,
            ),
    {
        let ghost key = subject.0@;
        let ghost v = (ml_dsa_public@, slh_dsa_public@);
        let mut i: usize = 0;
        while i < self.keys.len()
            invariant
                0 <= i <= self.keys@.len(),
                self.keys@ == old(self).keys@,
                key == subject.0@,
                v == (ml_dsa_public@, slh_dsa_public@),
                forall|j: int| 0 <= j < i ==> (#[trigger] self.keys@[j]).subject.0@ != key,
            decreases self.keys@.len() - i,
        {
            if crate::sset::text_eq(self.keys[i].subject.as_str(), subject.as_str()) {
                let ghost before = self.keys@;
                self.keys.set(i, DeclaredKey { subject, ml_dsa_public, slh_dsa_public });
                proof {
                    lemma_lookup_update(before, i as int, self.keys@[i as int]);
                }
                return;
            }
            i = i + 1;
        }
        let ghost before = self.keys@;
        self.keys.push(DeclaredKey { subject, ml_dsa_public, slh_dsa_public });
        proof {
            lemma_lookup_push(before, self.keys@.last());
        }
    }
}

proof fn lemma_lookup_update(
    entries: Seq<DeclaredKey>,
    i: int,
    e: DeclaredKey,
)
    requires
        0 <= i < entries.len(),
        entries[i].subject.0@ == e.subject.0@,
        forall|j: int| 0 <= j < i ==> (#[trigger] entries[j]).subject.0@ != e.subject.0@,
    ensures
        lookup(entries.update(i, e), e.subject.0@) == Some((e.ml_dsa_public@, e.slh_dsa_public@)),
        forall|s: Seq<char>| s != e.subject.0@ ==> lookup(entries.update(i, e), s) == lookup(entries, s),
    decreases i,
{
    let u = entries.update(i, e);
    if i > 0 {
        assert(u.drop_first() =~= entries.drop_first().update(i - 1, e));
        lemma_lookup_update(entries.drop_first(), i - 1, e);
        assert(u[0] == entries[0]);
        assert forall|s: Seq<char>| s != e.subject.0@ implies lookup(u, s) == lookup(entries, s) by {
            assert(lookup(u.drop_first(), s) == lookup(entries.drop_first(), s));
        }
    } else {
        assert(u.drop_first() =~= entries.drop_first());
        assert forall|s: Seq<char>| s != e.subject.0@ implies lookup(u, s) == lookup(entries, s) by {
            assert(u[0] == e);
        }
    }
}

proof fn lemma_lookup_push(entries: Seq<DeclaredKey>, e: DeclaredKey)
    requires
        forall|j: int| 0 <= j < entries.len() ==> (#[trigger] entries[j]).subject.0@ != e.subject.0@,
    ensures
        lookup(entries.push(e), e.subject.0@) == Some((e.ml_dsa_public@, e.slh_dsa_public@)),
        forall|s: Seq<char>| s != e.subject.0@ ==> lookup(entries.push(e), s) == lookup(entries, s),
    decreases entries.len(),
{
    let p = entries.push(e);
    if entries.len() > 0 {
        assert(p.drop_first() =~= entries.drop_first().push(e));
        lemma_lookup_push(entries.drop_first(), e);
        assert(p[0] == entries[0]);
        assert forall|s: Seq<char>| s != e.subject.0@ implies lookup(p, s) == lookup(entries, s) by {
            assert(lookup(p.drop_first(), s) == lookup(entries.drop_first(), s));
        }
    } else {
        assert(p.drop_first() =~= Seq::<DeclaredKey>::empty());
        assert forall|s: Seq<char>| s != e.subject.0@ implies lookup(p, s) == lookup(entries, s) by {
            assert(p[0] == e);
            assert(lookup(p.drop_first(), s) is None);
        }
    }
}

impl KeyResolver for RegistryResolver {
    open spec fn key_for(&self, subject: Seq<char>) -> Option<KeyBytes> {
        match self.declared(subject) {
            Some(k) => if well_formed_key(k) {
                Some(k)
            } else {
                None
            },
            None => None,
        }
    }

    fn resolve_subject(&self, subject: &SubjectId) -> (r: Option<DualPublicKey>) {
        let mut i: usize = 0;
        assert(self.keys@.skip(0) =~= self.keys@);
        while i < self.keys.len()
            invariant
                0 <= i <= self.keys@.len(),
                lookup(self.keys@, subject.0@) == lookup(self.keys@.skip(i as int), subject.0@),
            decreases self.keys@.len() - i,
        {
            assert(self.keys@.skip(i as int).drop_first() =~= self.keys@.skip(i + 1));
            if crate::sset::text_eq(self.keys[i].subject.as_str(), subject.as_str()) {
                let entry = &self.keys[i];
                return match DualPublicKey::from_public_bytes(entry.ml_dsa_public.as_slice(), entry.slh_dsa_public.as_slice()) {
                    Ok(k) => Some(k),
                    Err(_) => None,
                };
            }
            i = i + 1;
        }
        None
    }
}

} // verus!
