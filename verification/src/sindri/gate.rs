//! The costimulation gate's two signals.
use vstd::prelude::*;
use crate::backend::sign::DualPublicKey;
use crate::crypto::Attestation;
use crate::gate::{Action, AnergyReason, AuthorizationDecision, CostimulationGate};
use crate::ids::Timestamp;
use crate::intent::{AttenuationError, IntentChainEntry, IntentProvenanceChain, RootIntent};
use crate::sindri::resolver::{KeyBytes, KeyResolver};
use crate::skuld::chain::{IntentError, KeyView, Skuld, chain_verdict, public_views};

verus! {

/// How a chain-verification failure is reported as anergy: a missing hop key means the
/// identity is unverified, expiry means the chain expired, anything else that the chain
/// is invalid.
pub open spec fn anergy_of(e: IntentError) -> AnergyReason {
    match e {
        IntentError::HopKeyMissing { .. } => AnergyReason::IdentityUnverified,
        IntentError::Attenuation(AttenuationError::Expired) => AnergyReason::ChainExpired,
        IntentError::Attenuation(AttenuationError::WouldBroaden) => AnergyReason::ChainInvalid,
        IntentError::RootSignatureInvalid => AnergyReason::ChainInvalid,
        IntentError::EntrySignatureInvalid { .. } => AnergyReason::ChainInvalid,
        IntentError::BrokenLink { .. } => AnergyReason::ChainInvalid,
        IntentError::Backend => AnergyReason::ChainInvalid,
    }
}

fn map_intent_error(e: IntentError) -> (r: AnergyReason)
    ensures
        r == anergy_of(e),
{
    match e {
        IntentError::HopKeyMissing { .. } => AnergyReason::IdentityUnverified,
        IntentError::Attenuation(AttenuationError::Expired) => AnergyReason::ChainExpired,
        IntentError::Attenuation(AttenuationError::WouldBroaden) => AnergyReason::ChainInvalid,
        IntentError::RootSignatureInvalid => AnergyReason::ChainInvalid,
        IntentError::EntrySignatureInvalid { .. } => AnergyReason::ChainInvalid,
        IntentError::BrokenLink { .. } => AnergyReason::ChainInvalid,
        IntentError::Backend => AnergyReason::ChainInvalid,
    }
}

/// The subject the chain is currently held by: the last hop's, or the root principal's.
pub open spec fn bound_subject(root: RootIntent, entries: Seq<IntentChainEntry>) -> Seq<char> {
    if entries.len() == 0 {
        root.principal.0@
    } else {
        entries.last().hop_identity.subject.0@
    }
}

/// Signal one: the presented identity has a declared key and holds the chain.
pub open spec fn signal_one<R: KeyResolver>(
    res: R,
    identity: Attestation,
    root: RootIntent,
    entries: Seq<IntentChainEntry>,
) -> Result<(), AnergyReason> {
    if res.key_for(identity.subject.0@) is None {
        Err(AnergyReason::IdentityUnverified)
    } else if identity.subject.0@ != bound_subject(root, entries) {
        Err(AnergyReason::IdentityUnverified)
    } else {
        Ok(())
    }
}

/// Every hop's subject has a declared key.
pub open spec fn all_hops_declared<R: KeyResolver>(res: R, entries: Seq<IntentChainEntry>) -> bool {
    forall|i: int| 0 <= i < entries.len() ==> res.key_for(
        (#[trigger] entries[i]).hop_identity.subject.0@,
    ) is Some
}

/// The declared keys of the hops, in order.
pub open spec fn hop_keys<R: KeyResolver>(res: R, entries: Seq<IntentChainEntry>) -> Seq<KeyView> {
    entries.map_values(|e: IntentChainEntry| res.key_for(e.hop_identity.subject.0@).unwrap())
}

/// Signal two: the root principal and every hop have declared keys, and the chain
/// verifies under them at `now`.
pub open spec fn signal_two<R: KeyResolver>(
    res: R,
    root: RootIntent,
    entries: Seq<IntentChainEntry>,
    now: Timestamp,
) -> Result<(), AnergyReason> {
    match res.key_for(root.principal.0@) {
        None => Err(AnergyReason::IdentityUnverified),
        Some(rk) => if !all_hops_declared(res, entries) {
            Err(AnergyReason::IdentityUnverified)
        } else {
            match chain_verdict(root, entries, rk, hop_keys(res, entries), now) {
                Ok(()) => Ok(()),
                Err(e) => Err(anergy_of(e)),
            }
        },
    }
}

/// SINDRI's evaluation: signal one, then signal two.
pub open spec fn sindri_verdict<R: KeyResolver>(
    res: R,
    identity: Attestation,
    root: RootIntent,
    entries: Seq<IntentChainEntry>,
    now: Timestamp,
) -> Result<(), AnergyReason> {
    match signal_one(res, identity, root, entries) {
        Err(e) => Err(e),
        Ok(()) => signal_two(res, root, entries, now),
    }
}

/// Costimulation needs both signals: when SINDRI's evaluation succeeds, the presented
/// identity has a declared key and is the chain's current holder, the root principal and
/// every hop have declared keys, and the whole chain verifies under those keys at `now`.
pub proof fn lemma_grant_needs_both_signals<R: KeyResolver>(
    res: R,
    identity: Attestation,
    root: RootIntent,
    entries: Seq<IntentChainEntry>,
    now: Timestamp,
)
    requires
        sindri_verdict(res, identity, root, entries, now) is Ok,
    ensures
        res.key_for(identity.subject.0@) is Some,
        identity.subject.0@ == bound_subject(root, entries),
        all_hops_declared(res, entries),
        res.key_for(root.principal.0@) matches Some(rk) && chain_verdict(
            root,
            entries,
            rk,
            hop_keys(res, entries),
            now,
        ) is Ok,
{
}

/// SINDRI judges identity and chain only: its evaluation never answers `OutOfScope` or
/// `InvariantViolated`, whatever it is given.
pub proof fn lemma_sindri_judges_signals_only<R: KeyResolver>(
    res: R,
    identity: Attestation,
    root: RootIntent,
    entries: Seq<IntentChainEntry>,
    now: Timestamp,
)
    ensures
        sindri_verdict(res, identity, root, entries, now) != Err::<(), AnergyReason>(
            AnergyReason::OutOfScope,
        ),
        sindri_verdict(res, identity, root, entries, now) != Err::<(), AnergyReason>(
            AnergyReason::InvariantViolated,
        ),
{
}

/// The costimulation gate over a key registry, with the time it evaluates at.
pub struct Sindri<R: KeyResolver> {
    resolver: R,
    now: Timestamp,
}

impl<R: KeyResolver> Sindri<R> {
    pub closed spec fn resolver_spec(&self) -> R {
        self.resolver
    }

    pub closed spec fn now_spec(&self) -> Timestamp {
        self.now
    }

    pub fn new(resolver: R, now: Timestamp) -> (r: Self)
        ensures
            r.resolver_spec() == resolver,
            r.now_spec() == now,
    {
        Sindri { resolver, now }
    }

    fn signal_1(&self, identity: &Attestation, chain: &IntentProvenanceChain) -> (r: Result<
        (),
        AnergyReason,
    >)
        ensures
            r == signal_one(self.resolver, *identity, chain.root_spec(), chain.entries_spec()),
    {
        if self.resolver.resolve(identity).is_none() {
            return Err(AnergyReason::IdentityUnverified);
        }
        let entries = chain.entries();
        let bound = if entries.len() == 0 {
            &chain.root().principal
        } else {
            &entries[entries.len() - 1].hop_identity.subject
        };
        if !crate::sset::text_eq(identity.subject.as_str(), bound.as_str()) {
            return Err(AnergyReason::IdentityUnverified);
        }
        Ok(())
    }

    fn signal_2(&self, chain: &IntentProvenanceChain, now: Timestamp) -> (r: Result<(), AnergyReason>)
        ensures
            r == signal_two(self.resolver, chain.root_spec(), chain.entries_spec(), now),
    {
        let root = chain.root();
        let entries = chain.entries();
        let root_pub = match self.resolver.resolve_subject(&root.principal) {
            Some(k) => k,
            None => {
                return Err(AnergyReason::IdentityUnverified);
            },
        };
        let mut hop_pubs: Vec<DualPublicKey> = Vec::new();
        let mut i: usize = 0;
        while i < entries.len()
            invariant
                0 <= i <= entries@.len(),
                hop_pubs@.len() == i,
                entries@ == chain.entries_spec(),
                self.resolver.key_for(chain.root_spec().principal.0@) is Some,
                forall|j: int|
                    0 <= j < i ==> (self.resolver.key_for(
                        (#[trigger] entries@[j]).hop_identity.subject.0@,
                    ) matches Some(k) && hop_pubs@[j].mldsa_view() == k.0 && hop_pubs@[j].slh_view()
                        == k.1),
            decreases entries@.len() - i,
        {
            match self.resolver.resolve(&entries[i].hop_identity) {
                Some(k) => hop_pubs.push(k),
                None => {
                    assert(!all_hops_declared(self.resolver, entries@));
                    return Err(AnergyReason::IdentityUnverified);
                },
            }
            i = i + 1;
        }
        let mut hop_refs: Vec<&DualPublicKey> = Vec::new();
        let mut j: usize = 0;
        while j < hop_pubs.len()
            invariant
                0 <= j <= hop_pubs@.len(),
                hop_refs@.len() == j,
                forall|m: int| 0 <= m < j ==> *(#[trigger] hop_refs@[m]) == hop_pubs@[m],
            decreases hop_pubs@.len() - j,
        {
            hop_refs.push(&hop_pubs[j]);
            j = j + 1;
        }
        assert(public_views(hop_refs@) =~= hop_keys(self.resolver, entries@));
        match Skuld.verify_chain_public(root, entries, &root_pub, hop_refs.as_slice(), now) {
            Ok(()) => Ok(()),
            Err(e) => Err(map_intent_error(e)),
        }
    }

    /// Authorizes an action at the time this gate was built with: granted, for exactly
    /// this action, when both signals hold; otherwise anergy with the first failing
    /// signal's reason.
    pub fn authorize(&self, identity: &Attestation, chain: &IntentProvenanceChain, action: Action) -> (r:
        AuthorizationDecision)
        ensures
            r matches AuthorizationDecision::Granted(a) ==> a.action_spec() == action,
            r is Granted <==> sindri_verdict(
                self.resolver_spec(),
                *identity,
                chain.root_spec(),
                chain.entries_spec(),
                self.now_spec(),
            ) is Ok,
            r matches AuthorizationDecision::Anergy { reason } ==> sindri_verdict(
                self.resolver_spec(),
                *identity,
                chain.root_spec(),
                chain.entries_spec(),
                self.now_spec(),
            ) == Err::<(), AnergyReason>(reason),
    {
        CostimulationGate::authorize(self, identity, chain, action, self.now)
    }
}

impl<R: KeyResolver> CostimulationGate for Sindri<R> {
    /// Signal one, then signal two; the action plays no part.
    open spec fn verdict(
        &self,
        identity: Attestation,
        chain: IntentProvenanceChain,
        action: Action,
        now: Timestamp,
    ) -> Result<(), AnergyReason> {
        sindri_verdict(self.resolver_spec(), identity, chain.root_spec(), chain.entries_spec(), now)
    }

    fn evaluate(
        &self,
        identity: &Attestation,
        chain: &IntentProvenanceChain,
        action: &Action,
        now: Timestamp,
    ) -> (r: Result<(), AnergyReason>) {
        match self.signal_1(identity, chain) {
            Err(e) => Err(e),
            Ok(()) => self.signal_2(chain, now),
        }
    }
}

} // verus!
