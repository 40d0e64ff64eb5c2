//! Signing and verifying intent provenance chains.
//!
//! A chain verifies when it has not expired, the root's dual signature verifies under
//! the root key, and every hop, in order: received the SHA-384 digest of the full
//! encoding before it, emitted a subset of the scope it received, has a key, and carries
//! a dual signature that verifies under that key. The first failing check names the
//! error.
use vstd::prelude::*;
use crate::backend::primitives::{
    MLDSA65_PUBLIC_LEN, SLH192S_PUBLIC_LEN, mldsa65_sign_succeeds, sha384, sha384_digest,
};
use crate::backend::sign::{DualKeyPair, DualPublicKey, dual_accepts, dual_verdict, verify_dual_under};
use crate::crypto::{Attestation, CryptoError, Digest, DualSignature, HashAlg, placeholder_signature};
use crate::ids::{Dap, Nonce, SubjectId, Timestamp};
use crate::text::{decimal, push_decimal, push_lit, string_of};
use crate::intent::{
    AttenuationError, Caveat, IntentChain, IntentChainEntry, IntentProvenanceChain, IntentScope,
    InvariantSet, RootIntent, scope_after,
};
use crate::skuld::canonical::{
    entry_full, entry_full_spec, entry_signed_content, entry_signed_of, entry_signed_spec,
    lemma_entry_signed_ignores_signature, lemma_entry_signed_of, lemma_root_signed_of, root_signed_of, lemma_root_signed_ignores_signature, root_full,
    root_full_spec, root_signed_content, root_signed_spec,
};

verus! {

/// What a new hop signs: the signed content of an entry with the given fields, receiving
/// the SHA-384 digest of the chain's last full encoding.
pub open spec fn hop_message(
    current: IntentProvenanceChain,
    hop_identity: Attestation,
    emitted_scope: IntentScope,
    caveats: Seq<Caveat>,
    invariants: InvariantSet,
) -> Seq<u8> {
    entry_signed_of(
        hop_identity,
        HashAlg::Sha384,
        sha384_digest(
            prior_full(current.root_spec(), current.entries_spec(), current.entries_spec().len() as int),
        ),
        emitted_scope,
        caveats,
        invariants,
    )
}

/// Why a chain operation failed.
#[derive(Debug, Clone, Copy, PartialEq, Eq, Structural)]
pub enum IntentError {
    Attenuation(AttenuationError),
    Backend,
    RootSignatureInvalid,
    EntrySignatureInvalid { hop: usize },
    BrokenLink { hop: usize },
    HopKeyMissing { hop: usize },
}

impl IntentError {
    /// The human-readable message of this error.
    pub open spec fn message(&self) -> Seq<char> {
        match self {
            IntentError::Attenuation(e) => "attenuation error: "@ + e.message(),
            IntentError::Backend => "cryptographic backend error while signing"@,
            IntentError::RootSignatureInvalid => "root intent signature did not verify"@,
            IntentError::EntrySignatureInvalid { hop } => "entry signature at hop "@ + decimal(
                *hop as nat,
            ) + " did not verify"@,
            IntentError::BrokenLink { hop } => "hash link broken at hop "@ + decimal(*hop as nat)
                + " (received_digest mismatch)"@,
            IntentError::HopKeyMissing { hop } => "no verifying key supplied for hop "@ + decimal(
                *hop as nat,
            ),
        }
    }

    /// The human-readable message of this error.
    pub fn to_string(&self) -> (s: String)
        ensures
            s@ == self.message(),
    {
        let mut out: Vec<char> = Vec::new();
        match self {
            IntentError::Attenuation(e) => {
                push_lit(&mut out, "attenuation error: ");
                let m = e.to_string();
                push_lit(&mut out, m.as_str());
            },
            IntentError::Backend => push_lit(&mut out, "cryptographic backend error while signing"),
            IntentError::RootSignatureInvalid => push_lit(&mut out, "root intent signature did not verify"),
            IntentError::EntrySignatureInvalid { hop } => {
                push_lit(&mut out, "entry signature at hop ");
                push_decimal(&mut out, *hop as u64);
                push_lit(&mut out, " did not verify");
            },
            IntentError::BrokenLink { hop } => {
                push_lit(&mut out, "hash link broken at hop ");
                push_decimal(&mut out, *hop as u64);
                push_lit(&mut out, " (received_digest mismatch)");
            },
            IntentError::HopKeyMissing { hop } => {
                push_lit(&mut out, "no verifying key supplied for hop ");
                push_decimal(&mut out, *hop as u64);
            },
        }
        assert(out@ =~= self.message());
        string_of(out.as_slice())
    }
}

/// A verifying key as its two encoded public keys (ML-DSA-65, SLH-DSA-SHAKE-192s).
pub type KeyView = (Seq<u8>, Seq<u8>);

/// The full encoding that hop `i` must have digested: the root's, or the previous hop's.
pub open spec fn prior_full(root: RootIntent, entries: Seq<IntentChainEntry>, i: int) -> Seq<u8> {
    if i == 0 {
        root_full_spec(root)
    } else {
        entry_full_spec(entries[i - 1])
    }
}

/// The scope hop `i` received.
pub open spec fn received_scope(root: RootIntent, entries: Seq<IntentChainEntry>, i: int) -> Set<
    Seq<char>,
> {
    if i == 0 {
        root.scope@.to_set()
    } else {
        entries[i - 1].emitted_scope@.to_set()
    }
}

/// Hop `i` carries the SHA-384 digest of what came before it.
pub open spec fn link_ok(root: RootIntent, entries: Seq<IntentChainEntry>, i: int) -> bool {
    entries[i].received_digest.alg == HashAlg::Sha384 && entries[i].received_digest.bytes@
        == sha384_digest(prior_full(root, entries, i))
}

/// The first check that hop `i` fails, if any.
#[verifier::opaque]
pub open spec fn hop_error(
    root: RootIntent,
    entries: Seq<IntentChainEntry>,
    keys: Seq<KeyView>,
    i: int,
) -> Option<IntentError> {
    if !link_ok(root, entries, i) {
        Some(IntentError::BrokenLink { hop: i as usize })
    } else if !entries[i].emitted_scope@.to_set().subset_of(received_scope(root, entries, i)) {
        Some(IntentError::Attenuation(AttenuationError::WouldBroaden))
    } else if i >= keys.len() {
        Some(IntentError::HopKeyMissing { hop: i as usize })
    } else if dual_verdict(
        keys[i].0,
        keys[i].1,
        entry_signed_spec(entries[i]),
        entries[i].signature,
    ) is Err {
        Some(IntentError::EntrySignatureInvalid { hop: i as usize })
    } else {
        None
    }
}

/// The verdict on hops `k..` of a chain: the first hop's error, or success.
pub open spec fn hops_verdict(
    root: RootIntent,
    entries: Seq<IntentChainEntry>,
    keys: Seq<KeyView>,
    k: int,
) -> Result<(), IntentError>
    decreases entries.len() - k,
{
    if k >= entries.len() || k < 0 {
        Ok(())
    } else {
        match hop_error(root, entries, keys, k) {
            Some(e) => Err(e),
            None => hops_verdict(root, entries, keys, k + 1),
        }
    }
}

/// The verdict on a whole chain at time `now`.
pub open spec fn chain_verdict(
    root: RootIntent,
    entries: Seq<IntentChainEntry>,
    root_key: KeyView,
    keys: Seq<KeyView>,
    now: Timestamp,
) -> Result<(), IntentError> {
    if now.0 > root.expiry.0 {
        Err(IntentError::Attenuation(AttenuationError::Expired))
    } else if dual_verdict(root_key.0, root_key.1, root_signed_spec(root), root.signature) is Err {
        Err(IntentError::RootSignatureInvalid)
    } else {
        hops_verdict(root, entries, keys, 0)
    }
}

/// The key views of a list of byte-slice pairs.
pub open spec fn slice_key_views(ks: Seq<(&[u8], &[u8])>) -> Seq<KeyView> {
    ks.map_values(|k: (&[u8], &[u8])| (k.0@, k.1@))
}

/// The key views of a list of key pairs.
pub open spec fn keypair_views(ks: Seq<&DualKeyPair>) -> Seq<KeyView> {
    ks.map_values(|k: &DualKeyPair| (k.mldsa_public_view(), k.slh_public_view()))
}

/// The key views of a list of public keys.
pub open spec fn public_views(ks: Seq<&DualPublicKey>) -> Seq<KeyView> {
    ks.map_values(|k: &DualPublicKey| (k.mldsa_view(), k.slh_view()))
}

/// The key-pair path and the public-key path agree: verifying a chain under key pairs
/// gives the verdict that verifying it under public keys holding the same encoded keys
/// gives.
pub proof fn lemma_verification_paths_agree(
    root: RootIntent,
    entries: Seq<IntentChainEntry>,
    root_keypair: DualKeyPair,
    root_public: DualPublicKey,
    hop_keypairs: Seq<&DualKeyPair>,
    hop_publics: Seq<&DualPublicKey>,
    now: Timestamp,
)
    requires
        root_public.mldsa_view() == root_keypair.mldsa_public_view(),
        root_public.slh_view() == root_keypair.slh_public_view(),
        hop_publics.len() == hop_keypairs.len(),
        forall|i: int|
            0 <= i < hop_keypairs.len() ==> (#[trigger] hop_publics[i]).mldsa_view()
                == hop_keypairs[i].mldsa_public_view() && hop_publics[i].slh_view()
                == hop_keypairs[i].slh_public_view(),
    ensures
        chain_verdict(
            root,
            entries,
            (root_keypair.mldsa_public_view(), root_keypair.slh_public_view()),
            keypair_views(hop_keypairs),
            now,
        ) == chain_verdict(
            root,
            entries,
            (root_public.mldsa_view(), root_public.slh_view()),
            public_views(hop_publics),
            now,
        ),
{
    assert(keypair_views(hop_keypairs) =~= public_views(hop_publics));
}

/// A chain verifies exactly when every hop passes every check (and it is live and its
/// root verifies); when it fails, the hop named passed nothing less than its own check.
pub proof fn lemma_hops_verdict(
    root: RootIntent,
    entries: Seq<IntentChainEntry>,
    keys: Seq<KeyView>,
    k: int,
)
    requires
        0 <= k <= entries.len(),
    ensures
        hops_verdict(root, entries, keys, k) is Ok <==> (forall|i: int|
            k <= i < entries.len() ==> #[trigger] hop_error(root, entries, keys, i) is None),
    decreases entries.len() - k,
{
    if k < entries.len() {
        lemma_hops_verdict(root, entries, keys, k + 1);
    }
}

/// A chain that verifies is sound hop by hop: it is live, its root's dual signature
/// verifies under the root key, and every hop received the SHA-384 digest of the full
/// encoding before it (the root's for the first hop, the previous hop's after that),
/// emitted a subset of the scope it received (the root's scope for the first hop, the
/// previous hop's emitted scope after that), has a verifying key, and carries a dual
/// signature over its signed content that verifies under that key.
pub proof fn lemma_verified_chain_sound(
    root: RootIntent,
    entries: Seq<IntentChainEntry>,
    root_key: KeyView,
    keys: Seq<KeyView>,
    now: Timestamp,
)
    requires
        chain_verdict(root, entries, root_key, keys, now) is Ok,
    ensures
        now.0 <= root.expiry.0,
        dual_verdict(root_key.0, root_key.1, root_signed_spec(root), root.signature) is Ok,
        forall|i: int|
            0 <= i < entries.len() ==> {
                &&& (#[trigger] entries[i]).received_digest.alg == HashAlg::Sha384
                &&& entries[i].received_digest.bytes@ == sha384_digest(
                    if i == 0 {
                        root_full_spec(root)
                    } else {
                        entry_full_spec(entries[i - 1])
                    },
                )
                &&& entries[i].emitted_scope@.to_set().subset_of(
                    if i == 0 {
                        root.scope@.to_set()
                    } else {
                        entries[i - 1].emitted_scope@.to_set()
                    },
                )
                &&& i < keys.len()
                &&& dual_verdict(
                    keys[i].0,
                    keys[i].1,
                    entry_signed_spec(entries[i]),
                    entries[i].signature,
                ) is Ok
            },
{
    lemma_hops_verdict(root, entries, keys, 0);
    assert forall|i: int| 0 <= i < entries.len() implies {
        &&& (#[trigger] entries[i]).received_digest.alg == HashAlg::Sha384
        &&& entries[i].received_digest.bytes@ == sha384_digest(
            if i == 0 {
                root_full_spec(root)
            } else {
                entry_full_spec(entries[i - 1])
            },
        )
        &&& entries[i].emitted_scope@.to_set().subset_of(
            if i == 0 {
                root.scope@.to_set()
            } else {
                entries[i - 1].emitted_scope@.to_set()
            },
        )
        &&& i < keys.len()
        &&& dual_verdict(keys[i].0, keys[i].1, entry_signed_spec(entries[i]), entries[i].signature) is Ok
    } by {
        assert(hop_error(root, entries, keys, i) is None);
        reveal(hop_error);
    }
}

/// Attenuation along a verified chain: no hop emits a scope element the root did not
/// grant.
pub proof fn lemma_verified_chain_within_root(
    root: RootIntent,
    entries: Seq<IntentChainEntry>,
    root_key: KeyView,
    keys: Seq<KeyView>,
    now: Timestamp,
)
    requires
        chain_verdict(root, entries, root_key, keys, now) is Ok,
    ensures
        forall|i: int|
            0 <= i < entries.len() ==> (#[trigger] entries[i]).emitted_scope@.to_set().subset_of(
                root.scope@.to_set(),
            ),
{
    lemma_verified_chain_sound(root, entries, root_key, keys, now);
    assert forall|i: int| 0 <= i < entries.len() implies (#[trigger] entries[
        i
    ]).emitted_scope@.to_set().subset_of(root.scope@.to_set()) by {
        lemma_scopes_within_root(root, entries, i);
    }
}

proof fn lemma_scopes_within_root(root: RootIntent, entries: Seq<IntentChainEntry>, n: int)
    requires
        0 <= n < entries.len(),
        forall|i: int|
            0 <= i < entries.len() ==> (#[trigger] entries[i]).emitted_scope@.to_set().subset_of(
                if i == 0 {
                    root.scope@.to_set()
                } else {
                    entries[i - 1].emitted_scope@.to_set()
                },
            ),
    ensures
        entries[n].emitted_scope@.to_set().subset_of(root.scope@.to_set()),
    decreases n,
{
    assert(entries[n].emitted_scope@.to_set().subset_of(
        if n == 0 {
            root.scope@.to_set()
        } else {
            entries[n - 1].emitted_scope@.to_set()
        },
    ));
    if n > 0 {
        lemma_scopes_within_root(root, entries, n - 1);
    }
}

/// Appending a hop that passes its checks to a chain that verifies yields a chain that
/// verifies.
pub proof fn lemma_valid_hop_extends(
    root: RootIntent,
    entries: Seq<IntentChainEntry>,
    root_key: KeyView,
    keys: Seq<KeyView>,
    now: Timestamp,
    e: IntentChainEntry,
    k: KeyView,
)
    requires
        keys.len() == entries.len(),
        chain_verdict(root, entries, root_key, keys, now) is Ok,
        e.received_digest.alg == HashAlg::Sha384,
        e.received_digest.bytes@ == sha384_digest(prior_full(root, entries, entries.len() as int)),
        e.emitted_scope@.to_set().subset_of(scope_after(root, entries)@.to_set()),
        dual_verdict(k.0, k.1, entry_signed_spec(e), e.signature) is Ok,
    ensures
        chain_verdict(root, entries.push(e), root_key, keys.push(k), now) is Ok,
{
    let es = entries.push(e);
    let ks = keys.push(k);
    lemma_hops_verdict(root, entries, keys, 0);
    lemma_hops_verdict(root, es, ks, 0);
    assert forall|i: int| 0 <= i < es.len() implies #[trigger] hop_error(root, es, ks, i) is None by {
        reveal(hop_error);
        if i < entries.len() {
            assert(hop_error(root, entries, keys, i) is None);
            assert(es[i] == entries[i]);
            assert(ks[i] == keys[i]);
            assert(prior_full(root, es, i) == prior_full(root, entries, i));
            assert(received_scope(root, es, i) == received_scope(root, entries, i));
        } else {
            assert(es[i] == e);
            assert(prior_full(root, es, i) == prior_full(root, entries, i));
            if i > 0 {
                assert(received_scope(root, es, i) == entries.last().emitted_scope@.to_set());
            }
        }
    }
}

fn digest(bytes: &[u8]) -> (d: Digest)
    ensures
        d.alg == HashAlg::Sha384,
        d.bytes@ == sha384_digest(bytes@),
{
    Digest { alg: HashAlg::Sha384, bytes: sha384(bytes) }
}

fn verify_chain_with(
    root: &RootIntent,
    entries: &[IntentChainEntry],
    root_m: &[u8],
    root_s: &[u8],
    hop_keys: &Vec<(&[u8], &[u8])>,
    now: Timestamp,
) -> (r: Result<(), IntentError>)
    requires
        root_m@.len() == MLDSA65_PUBLIC_LEN,
        root_s@.len() == SLH192S_PUBLIC_LEN,
        forall|i: int|
            0 <= i < hop_keys@.len() ==> (#[trigger] hop_keys@[i]).0@.len() == MLDSA65_PUBLIC_LEN
                && hop_keys@[i].1@.len() == SLH192S_PUBLIC_LEN,
    ensures
        r == chain_verdict(
            *root,
            entries@,
            (root_m@, root_s@),
            slice_key_views(hop_keys@),
            now,
        ),
{
    let ghost keys = slice_key_views(hop_keys@);
    if now.0 > root.expiry.0 {
        return Err(IntentError::Attenuation(AttenuationError::Expired));
    }
    let body = root_signed_content(root);
    if verify_dual_under(root_m, root_s, body.as_slice(), &root.signature).is_err() {
        return Err(IntentError::RootSignatureInvalid);
    }
    let mut prior = root_full(root);
    assert(chain_verdict(*root, entries@, (root_m@, root_s@), keys, now) == hops_verdict(
        *root,
        entries@,
        keys,
        0,
    ));
    let mut i: usize = 0;
    while i < entries.len()
        invariant
            0 <= i <= entries@.len(),
            keys == slice_key_views(hop_keys@),
            forall|j: int|
                0 <= j < hop_keys@.len() ==> (#[trigger] hop_keys@[j]).0@.len()
                    == MLDSA65_PUBLIC_LEN && hop_keys@[j].1@.len() == SLH192S_PUBLIC_LEN,
            prior@ == prior_full(*root, entries@, i as int),
            hops_verdict(*root, entries@, keys, 0) == hops_verdict(*root, entries@, keys, i as int),
            chain_verdict(*root, entries@, (root_m@, root_s@), keys, now) == hops_verdict(
                *root,
                entries@,
                keys,
                0,
            ),
        decreases entries@.len() - i,
    {
        let checked = check_hop(root, entries, prior.as_slice(), hop_keys, i);
        match checked {
            Some(e) => {
                assert(hops_verdict(*root, entries@, keys, i as int) == Err::<(), IntentError>(e));
                return Err(e);
            },
            None => {
                assert(hops_verdict(*root, entries@, keys, i as int) == hops_verdict(
                    *root,
                    entries@,
                    keys,
                    i + 1,
                ));
            },
        }
        prior = entry_full(&entries[i]);
        i = i + 1;
    }
    Ok(())
}

fn check_hop(
    root: &RootIntent,
    entries: &[IntentChainEntry],
    prior: &[u8],
    hop_keys: &Vec<(&[u8], &[u8])>,
    i: usize,
) -> (r: Option<IntentError>)
    requires
        i < entries@.len(),
        prior@ == prior_full(*root, entries@, i as int),
        forall|j: int|
            0 <= j < hop_keys@.len() ==> (#[trigger] hop_keys@[j]).0@.len() == MLDSA65_PUBLIC_LEN
                && hop_keys@[j].1@.len() == SLH192S_PUBLIC_LEN,
    ensures
        r == hop_error(
            *root,
            entries@,
            slice_key_views(hop_keys@),
            i as int,
        ),
{
    let ghost keys = slice_key_views(hop_keys@);
    reveal(hop_error);
    let entry = &entries[i];
    let expected = digest(prior);
    if !entry.received_digest.matches(&expected) {
        return Some(IntentError::BrokenLink { hop: i });
    }
    let received = if i == 0 {
        &root.scope
    } else {
        &entries[i - 1].emitted_scope
    };
    if !entry.emitted_scope.is_subset_of(received) {
        return Some(IntentError::Attenuation(AttenuationError::WouldBroaden));
    }
    if i >= hop_keys.len() {
        return Some(IntentError::HopKeyMissing { hop: i });
    }
    let key = hop_keys[i];
    assert(keys[i as int] == (key.0@, key.1@));
    let bytes = entry_signed_content(entry);
    if verify_dual_under(key.0, key.1, bytes.as_slice(), &entry.signature).is_err() {
        return Some(IntentError::EntrySignatureInvalid { hop: i });
    }
    None
}

/// The chain operator: signs roots and hops, verifies chains.
pub struct Skuld;

impl IntentChain for Skuld {

}

impl Skuld {
    /// Builds and signs a root intent with the principal's dual key pair; `Backend` when
    /// signing fails. The signature covers the root's signed content.
    pub fn sign_root(
        &self,
        principal: SubjectId,
        dap: Dap,
        scope: IntentScope,
        invariants: InvariantSet,
        nonce: Nonce,
        expiry: Timestamp,
        keypair: &DualKeyPair,
    ) -> (r: Result<RootIntent, IntentError>)
        ensures
            r matches Err(e) ==> e == IntentError::Backend,
            r is Ok <==> mldsa65_sign_succeeds(
                keypair.mldsa_seed_view(),
                root_signed_of(principal, dap, scope, invariants, nonce, expiry),
            ),
            r matches Ok(root) ==> root.principal == principal && root.dap == dap && root.scope
                == scope && root.invariants == invariants && root.nonce == nonce && root.expiry
                == expiry && dual_accepts(
                keypair.mldsa_public_view(),
                keypair.slh_public_view(),
                root_signed_spec(root),
                root.signature,
            ),
    {
        let mut root = RootIntent {
            principal,
            dap,
            scope,
            invariants,
            nonce,
            expiry,
            signature: placeholder_signature(),
        };
        let bytes = root_signed_content(&root);
        proof {
            lemma_root_signed_of(root);
        }
        match keypair.sign_dual(bytes.as_slice()) {
            Ok(sig) => {
                proof {
                    lemma_root_signed_ignores_signature(root, sig);
                }
                root.signature = sig;
                Ok(root)
            },
            Err(_) => Err(IntentError::Backend),
        }
    }

    /// Verifies a root intent's signature under a key pair.
    pub fn verify_root(&self, root: &RootIntent, keypair: &DualKeyPair) -> (r: Result<(), IntentError>)
        ensures
            r is Ok <==> dual_verdict(
                keypair.mldsa_public_view(),
                keypair.slh_public_view(),
                root_signed_spec(*root),
                root.signature,
            ) is Ok,
            r matches Err(e) ==> e == IntentError::RootSignatureInvalid,
    {
        let bytes = root_signed_content(root);
        match verify_dual_under(keypair.mldsa_bytes(), keypair.slh_bytes(), bytes.as_slice(), &root.signature) {
            Ok(()) => Ok(()),
            Err(_) => Err(IntentError::RootSignatureInvalid),
        }
    }

    /// Verifies a root intent's signature under a public key.
    pub fn verify_root_public(&self, root: &RootIntent, public: &DualPublicKey) -> (r: Result<
        (),
        IntentError,
    >)
        ensures
            r is Ok <==> dual_verdict(
                public.mldsa_view(),
                public.slh_view(),
                root_signed_spec(*root),
                root.signature,
            ) is Ok,
            r matches Err(e) ==> e == IntentError::RootSignatureInvalid,
    {
        let bytes = root_signed_content(root);
        match verify_dual_under(public.mldsa_bytes(), public.slh_bytes(), bytes.as_slice(), &root.signature) {
            Ok(()) => Ok(()),
            Err(_) => Err(IntentError::RootSignatureInvalid),
        }
    }

    /// Adds a signed hop to a chain. `Expired` once `now` is past the root's expiry;
    /// otherwise the hop receives the SHA-384 digest of the chain's last full encoding, is
    /// signed with the hop's key pair (`Backend` when that fails), and is appended unless
    /// its scope would broaden (`WouldBroaden`).
    pub fn attenuate_signed(
        &self,
        current: IntentProvenanceChain,
        hop_identity: Attestation,
        emitted_scope: IntentScope,
        added_caveats: Vec<Caveat>,
        added_invariants: InvariantSet,
        hop_keypair: &DualKeyPair,
        now: Timestamp,
    ) -> (r: Result<IntentProvenanceChain, IntentError>)
        ensures
            now.0 > current.root_spec().expiry.0 ==> r == Err::<IntentProvenanceChain, IntentError>(
                IntentError::Attenuation(AttenuationError::Expired),
            ),
            r matches Err(e) ==> (e == IntentError::Attenuation(AttenuationError::Expired) || e
                == IntentError::Backend || e == IntentError::Attenuation(
                AttenuationError::WouldBroaden,
            )),
            r == Err::<IntentProvenanceChain, IntentError>(
                IntentError::Attenuation(AttenuationError::Expired),
            ) <==> now.0 > current.root_spec().expiry.0,
            r == Err::<IntentProvenanceChain, IntentError>(IntentError::Backend) <==> (now.0
                <= current.root_spec().expiry.0 && !mldsa65_sign_succeeds(
                hop_keypair.mldsa_seed_view(),
                hop_message(current, hop_identity, emitted_scope, added_caveats@, added_invariants),
            )),
            r is Ok <==> (now.0 <= current.root_spec().expiry.0 && mldsa65_sign_succeeds(
                hop_keypair.mldsa_seed_view(),
                hop_message(current, hop_identity, emitted_scope, added_caveats@, added_invariants),
            ) && emitted_scope@.to_set().subset_of(
                scope_after(current.root_spec(), current.entries_spec())@.to_set(),
            )),
            r matches Err(e) && e == IntentError::Attenuation(AttenuationError::WouldBroaden) ==> !emitted_scope@.to_set().subset_of(
                scope_after(current.root_spec(), current.entries_spec())@.to_set(),
            ),
            now.0 <= current.root_spec().expiry.0 && !emitted_scope@.to_set().subset_of(
                scope_after(current.root_spec(), current.entries_spec())@.to_set(),
            ) ==> r is Err,
            r matches Ok(c) ==> {
                &&& now.0 <= current.root_spec().expiry.0
                &&& c.root_spec() == current.root_spec()
                &&& c.entries_spec().len() == current.entries_spec().len() + 1
                &&& c.entries_spec().drop_last() == current.entries_spec()
                &&& (current.narrowing() ==> c.narrowing())
                &&& {
                    let e = c.entries_spec().last();
                    &&& e.hop_identity == hop_identity
                    &&& e.emitted_scope == emitted_scope
                    &&& e.added_caveats == added_caveats
                    &&& e.added_invariants == added_invariants
                    &&& e.received_digest.alg == HashAlg::Sha384
                    &&& e.received_digest.bytes@ == sha384_digest(
                        prior_full(
                            current.root_spec(),
                            current.entries_spec(),
                            current.entries_spec().len() as int,
                        ),
                    )
                    &&& e.emitted_scope@.to_set().subset_of(
                        scope_after(current.root_spec(), current.entries_spec())@.to_set(),
                    )
                    &&& dual_accepts(
                        hop_keypair.mldsa_public_view(),
                        hop_keypair.slh_public_view(),
                        entry_signed_spec(e),
                        e.signature,
                    )
                }
            },
    {
        if now.0 > current.root().expiry.0 {
            return Err(IntentError::Attenuation(AttenuationError::Expired));
        }
        let n = current.entries().len();
        let prior_bytes = if n == 0 {
            root_full(current.root())
        } else {
            entry_full(&current.entries()[n - 1])
        };
        let received_digest = digest(prior_bytes.as_slice());
        let mut entry = IntentChainEntry {
            hop_identity,
            received_digest,
            emitted_scope,
            added_caveats,
            added_invariants,
            signature: placeholder_signature(),
        };
        let bytes = entry_signed_content(&entry);
        proof {
            lemma_entry_signed_of(entry);
        }
        match hop_keypair.sign_dual(bytes.as_slice()) {
            Ok(sig) => {
                proof {
                    lemma_entry_signed_ignores_signature(entry, sig);
                }
                entry.signature = sig;
            },
            Err(_) => {
                return Err(IntentError::Backend);
            },
        }
        let ghost signed = entry;
        let IntentChainEntry {
            hop_identity,
            received_digest,
            emitted_scope,
            added_caveats,
            added_invariants,
            signature,
        } = entry;
        let ghost old_entries = current.entries_spec();
        match self.attenuate(
            current,
            hop_identity,
            received_digest,
            emitted_scope,
            added_caveats,
            added_invariants,
            signature,
        ) {
            Ok(c) => {
                assert(c.entries_spec().last() == signed);
                assert(c.entries_spec().drop_last() =~= old_entries);
                Ok(c)
            },
            Err(e) => Err(IntentError::Attenuation(e)),
        }
    }

    /// Verifies a chain under key pairs: the root's, and one per hop.
    pub fn verify_chain(
        &self,
        root: &RootIntent,
        entries: &[IntentChainEntry],
        root_keypair: &DualKeyPair,
        hop_keypairs: &[&DualKeyPair],
        now: Timestamp,
    ) -> (r: Result<(), IntentError>)
        ensures
            r == chain_verdict(
                *root,
                entries@,
                (root_keypair.mldsa_public_view(), root_keypair.slh_public_view()),
                keypair_views(hop_keypairs@),
                now,
            ),
    {
        let mut keys: Vec<(&[u8], &[u8])> = Vec::new();
        let mut i: usize = 0;
        while i < hop_keypairs.len()
            invariant
                0 <= i <= hop_keypairs@.len(),
                keys@.len() == i,
                forall|j: int|
                    0 <= j < i ==> (#[trigger] keys@[j]).0@ == hop_keypairs@[j].mldsa_public_view()
                        && keys@[j].1@ == hop_keypairs@[j].slh_public_view() && keys@[j].0@.len()
                        == MLDSA65_PUBLIC_LEN && keys@[j].1@.len() == SLH192S_PUBLIC_LEN,
            decreases hop_keypairs@.len() - i,
        {
            let k: &DualKeyPair = hop_keypairs[i];
            keys.push((k.mldsa_bytes(), k.slh_bytes()));
            i = i + 1;
        }
        assert(slice_key_views(keys@) =~= keypair_views(hop_keypairs@));
        verify_chain_with(root, entries, root_keypair.mldsa_bytes(), root_keypair.slh_bytes(), &keys, now)
    }

    /// Verifies a chain under public keys only: the root's, and one per hop.
    pub fn verify_chain_public(
        &self,
        root: &RootIntent,
        entries: &[IntentChainEntry],
        root_public: &DualPublicKey,
        hop_publics: &[&DualPublicKey],
        now: Timestamp,
    ) -> (r: Result<(), IntentError>)
        ensures
            r == chain_verdict(
                *root,
                entries@,
                (root_public.mldsa_view(), root_public.slh_view()),
                public_views(hop_publics@),
                now,
            ),
    {
        let mut keys: Vec<(&[u8], &[u8])> = Vec::new();
        let mut i: usize = 0;
        while i < hop_publics.len()
            invariant
                0 <= i <= hop_publics@.len(),
                keys@.len() == i,
                forall|j: int|
                    0 <= j < i ==> (#[trigger] keys@[j]).0@ == hop_publics@[j].mldsa_view()
                        && keys@[j].1@ == hop_publics@[j].slh_view() && keys@[j].0@.len()
                        == MLDSA65_PUBLIC_LEN && keys@[j].1@.len() == SLH192S_PUBLIC_LEN,
            decreases hop_publics@.len() - i,
        {
            let k: &DualPublicKey = hop_publics[i];
            keys.push((k.mldsa_bytes(), k.slh_bytes()));
            i = i + 1;
        }
        assert(slice_key_views(keys@) =~= public_views(hop_publics@));
        verify_chain_with(root, entries, root_public.mldsa_bytes(), root_public.slh_bytes(), &keys, now)
    }
}

} // verus!
