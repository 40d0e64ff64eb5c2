//! Capability envelopes: what an agent system may do, at which conformance tier, and the
//! rule that a sub-agent never holds a capability its parent lacks.
use vstd::prelude::*;
use crate::crypto::{DualSignature, Signature, SignatureAlg};
use crate::gate::Action;
use crate::ids::{Timestamp, ToolId};
use crate::intent::IntentProvenanceChain;

verus! {

/// Conformance tiers, in increasing order of assurance.
#[derive(Debug, Clone, Copy, PartialEq, Eq, PartialOrd, Ord, Hash, Structural)]
pub enum ConformanceTier {
    Baseline,
    Enhanced,
    HighAssurance,
}

/// The rank of a tier: Baseline < Enhanced < HighAssurance.
pub open spec fn tier_rank(t: ConformanceTier) -> int {
    match t {
        ConformanceTier::Baseline => 0,
        ConformanceTier::Enhanced => 1,
        ConformanceTier::HighAssurance => 2,
    }
}

pub fn tier_rank_of(t: ConformanceTier) -> (r: u8)
    ensures
        r == tier_rank(t),
{
    match t {
        ConformanceTier::Baseline => 0,
        ConformanceTier::Enhanced => 1,
        ConformanceTier::HighAssurance => 2,
    }
}

/// A property an agent system has.
#[derive(Debug, Clone, PartialEq, Eq)]
pub enum CapabilityProperty {
    CodeExecution,
    NetworkAccess { declared_destinations: Vec<String> },
    CredentialAccess { scope: String },
    ExternalEffect { targets: Vec<String> },
    SubAgentCreation,
    Persistence,
    IdentityCreation,
    CrossRunMemory,
    InterAgentCommunication,
    SharedCoordinationState,
    CrossRunCoordination,
    CollectiveCapabilityAmplification,
    Other { description: String },
}

/// The characters of each string of a list.
pub open spec fn string_views(v: Seq<String>) -> Seq<Seq<char>> {
    v.map_values(|s: String| s@)
}

/// The variant of a property, as a number.
pub open spec fn property_kind(p: CapabilityProperty) -> int {
    match p {
        CapabilityProperty::CodeExecution => 0,
        CapabilityProperty::NetworkAccess { .. } => 1,
        CapabilityProperty::CredentialAccess { .. } => 2,
        CapabilityProperty::ExternalEffect { .. } => 3,
        CapabilityProperty::SubAgentCreation => 4,
        CapabilityProperty::Persistence => 5,
        CapabilityProperty::IdentityCreation => 6,
        CapabilityProperty::CrossRunMemory => 7,
        CapabilityProperty::InterAgentCommunication => 8,
        CapabilityProperty::SharedCoordinationState => 9,
        CapabilityProperty::CrossRunCoordination => 10,
        CapabilityProperty::CollectiveCapabilityAmplification => 11,
        CapabilityProperty::Other { .. } => 12,
    }
}

/// Two properties are the same property: same variant, same contents.
pub open spec fn same_property(a: CapabilityProperty, b: CapabilityProperty) -> bool {
    &&& property_kind(a) == property_kind(b)
    &&& (a matches CapabilityProperty::NetworkAccess { declared_destinations: x } ==> b matches CapabilityProperty::NetworkAccess { declared_destinations: y } && string_views(x@) == string_views(y@))
    &&& (a matches CapabilityProperty::CredentialAccess { scope: x } ==> b matches CapabilityProperty::CredentialAccess { scope: y } && x@ == y@)
    &&& (a matches CapabilityProperty::ExternalEffect { targets: x } ==> b matches CapabilityProperty::ExternalEffect { targets: y } && string_views(x@) == string_views(y@))
    &&& (a matches CapabilityProperty::Other { description: x } ==> b matches CapabilityProperty::Other { description: y } && x@ == y@)
}

fn kind_of(p: &CapabilityProperty) -> (r: u8)
    ensures
        r == property_kind(*p),
{
    match p {
        CapabilityProperty::CodeExecution => 0,
        CapabilityProperty::NetworkAccess { .. } => 1,
        CapabilityProperty::CredentialAccess { .. } => 2,
        CapabilityProperty::ExternalEffect { .. } => 3,
        CapabilityProperty::SubAgentCreation => 4,
        CapabilityProperty::Persistence => 5,
        CapabilityProperty::IdentityCreation => 6,
        CapabilityProperty::CrossRunMemory => 7,
        CapabilityProperty::InterAgentCommunication => 8,
        CapabilityProperty::SharedCoordinationState => 9,
        CapabilityProperty::CrossRunCoordination => 10,
        CapabilityProperty::CollectiveCapabilityAmplification => 11,
        CapabilityProperty::Other { .. } => 12,
    }
}

fn strings_eq(a: &Vec<String>, b: &Vec<String>) -> (r: bool)
    ensures
        r == (string_views(a@) == string_views(b@)),
{
    if a.len() != b.len() {
        proof {
            assert(string_views(a@).len() != string_views(b@).len());
        }
        return false;
    }
    let mut i: usize = 0;
    while i < a.len()
        invariant
            0 <= i <= a@.len(),
            a@.len() == b@.len(),
            forall|j: int| 0 <= j < i ==> (#[trigger] a@[j])@ == b@[j]@,
        decreases a@.len() - i,
    {
        if a[i] != b[i] {
            assert(string_views(a@)[i as int] != string_views(b@)[i as int]);
            return false;
        }
        i = i + 1;
    }
    assert(string_views(a@) =~= string_views(b@));
    true
}

fn property_eq(a: &CapabilityProperty, b: &CapabilityProperty) -> (r: bool)
    ensures
        r == same_property(*a, *b),
{
    if kind_of(a) != kind_of(b) {
        return false;
    }
    match (a, b) {
        (
            CapabilityProperty::NetworkAccess { declared_destinations: x },
            CapabilityProperty::NetworkAccess { declared_destinations: y },
        ) => strings_eq(x, y),
        (CapabilityProperty::CredentialAccess { scope: x }, CapabilityProperty::CredentialAccess {
            scope: y,
        }) => *x == *y,
        (CapabilityProperty::ExternalEffect { targets: x }, CapabilityProperty::ExternalEffect {
            targets: y,
        }) => strings_eq(x, y),
        (CapabilityProperty::Other { description: x }, CapabilityProperty::Other {
            description: y,
        }) => *x == *y,
        _ => true,
    }
}

/// A property that requires at least the Enhanced tier.
pub open spec fn needs_enhanced(p: CapabilityProperty) -> bool {
    p is ExternalEffect || p is CredentialAccess || p is SubAgentCreation
}

#[derive(Debug, Clone, PartialEq, Eq)]
pub struct EgressRule {
    pub destination: String,
    pub port: u16,
    pub protocol: EgressProtocol,
}

#[derive(Debug, Clone, PartialEq, Eq)]
#[non_exhaustive]
pub enum EgressProtocol {
    Https,
    Http,
    Other(String),
}

#[derive(Debug, Clone, PartialEq, Eq)]
pub struct EgressManifest {
    pub rules: Vec<EgressRule>,
    pub signature: DualSignature,
}

/// What an agent system may do, at which tiers.
#[derive(Debug, Clone, PartialEq, Eq)]
pub struct CapabilityEnvelope {
    pub system_id: String,
    pub properties: Vec<CapabilityProperty>,
    pub egress_manifest: Option<EgressManifest>,
    pub capability_tier: ConformanceTier,
    pub data_tier: ConformanceTier,
    pub governing_tier: ConformanceTier,
    pub attested_at: Timestamp,
    pub signature: DualSignature,
}

#[derive(Debug, Clone, Copy, PartialEq, Eq, Structural)]
pub enum EnvelopeError {
    TierMismatch,
    TierTooLow,
}

/// The governing tier is the higher of the capability and data tiers.
pub open spec fn tiers_consistent(e: CapabilityEnvelope) -> bool {
    tier_rank(e.governing_tier) == if tier_rank(e.capability_tier) >= tier_rank(e.data_tier) {
        tier_rank(e.capability_tier)
    } else {
        tier_rank(e.data_tier)
    }
}

/// What validating an envelope returns.
pub open spec fn envelope_verdict(e: CapabilityEnvelope) -> Result<(), EnvelopeError> {
    if !tiers_consistent(e) {
        Err(EnvelopeError::TierMismatch)
    } else if (exists|i: int| 0 <= i < e.properties@.len() && needs_enhanced(#[trigger] e.properties@[i]))
        && tier_rank(e.capability_tier) < tier_rank(ConformanceTier::Enhanced) {
        Err(EnvelopeError::TierTooLow)
    } else {
        Ok(())
    }
}

impl CapabilityEnvelope {
    /// `TierMismatch` unless the governing tier is the maximum of the capability and data
    /// tiers; then `TierTooLow` when a property needing Enhanced is held below it.
    pub fn validate(&self) -> (r: Result<(), EnvelopeError>)
        ensures
            r == envelope_verdict(*self),
    {
        let cap = tier_rank_of(self.capability_tier);
        let data = tier_rank_of(self.data_tier);
        let max = if cap >= data {
            cap
        } else {
            data
        };
        if tier_rank_of(self.governing_tier) != max {
            return Err(EnvelopeError::TierMismatch);
        }
        let mut requires_enhanced = false;
        let mut i: usize = 0;
        while i < self.properties.len()
            invariant
                0 <= i <= self.properties@.len(),
                requires_enhanced == exists|j: int|
                    0 <= j < i && needs_enhanced(#[trigger] self.properties@[j]),
            decreases self.properties@.len() - i,
        {
            let p = &self.properties[i];
            let hit = match p {
                CapabilityProperty::ExternalEffect { .. } => true,
                CapabilityProperty::CredentialAccess { .. } => true,
                CapabilityProperty::SubAgentCreation => true,
                _ => false,
            };
            if hit {
                requires_enhanced = true;
            }
            i = i + 1;
        }
        if requires_enhanced && cap < 1 {
            return Err(EnvelopeError::TierTooLow);
        }
        Ok(())
    }

    /// A valid, maximally permissive envelope: no properties, Enhanced capability tier,
    /// Baseline data tier, Enhanced governing tier.
    pub fn permissive() -> (e: Self)
        ensures
            envelope_verdict(e) is Ok,
            e.system_id@ == "permissive"@,
            e.properties@.len() == 0,
            e.egress_manifest is None,
            e.capability_tier == ConformanceTier::Enhanced,
            e.data_tier == ConformanceTier::Baseline,
            e.governing_tier == ConformanceTier::Enhanced,
            e.attested_at == Timestamp(0),
    {
        CapabilityEnvelope {
            system_id: "permissive".to_owned(),
            properties: Vec::new(),
            egress_manifest: None,
            capability_tier: ConformanceTier::Enhanced,
            data_tier: ConformanceTier::Baseline,
            governing_tier: ConformanceTier::Enhanced,
            attested_at: Timestamp(0),
            signature: placeholder(),
        }
    }
}

/// The Enhanced floor: an envelope whose tiers are consistent (the governing tier is the
/// higher of the capability and data tiers) and which holds an external-effect,
/// credential-access or sub-agent-creation property at the Baseline capability tier is
/// refused with `TierTooLow`.
pub proof fn lemma_enhanced_floor_refuses_baseline(e: CapabilityEnvelope, i: int)
    requires
        0 <= i < e.properties@.len(),
        e.properties@[i] is ExternalEffect || e.properties@[i] is CredentialAccess
            || e.properties@[i] is SubAgentCreation,
        e.capability_tier == ConformanceTier::Baseline,
        e.governing_tier == e.data_tier,
    ensures
        envelope_verdict(e) == Err::<(), EnvelopeError>(EnvelopeError::TierTooLow),
{
    assert(needs_enhanced(e.properties@[i]));
}

/// An envelope whose governing tier is not the higher of its capability and data tiers
/// is refused with `TierMismatch`, whatever properties it holds.
pub proof fn lemma_inconsistent_tiers_refused(e: CapabilityEnvelope)
    requires
        e.governing_tier != (if tier_rank(e.capability_tier) >= tier_rank(e.data_tier) {
            e.capability_tier
        } else {
            e.data_tier
        }),
    ensures
        envelope_verdict(e) == Err::<(), EnvelopeError>(EnvelopeError::TierMismatch),
{
}

/// A valid envelope that holds an external-effect, credential-access or
/// sub-agent-creation property has a capability tier of Enhanced or above, and its
/// governing tier is the higher of its capability and data tiers.
pub proof fn lemma_valid_envelope_meets_floor(e: CapabilityEnvelope)
    requires
        envelope_verdict(e) is Ok,
    ensures
        forall|i: int|
            0 <= i < e.properties@.len() && (#[trigger] e.properties@[i] is ExternalEffect
                || e.properties@[i] is CredentialAccess || e.properties@[i] is SubAgentCreation)
                ==> e.capability_tier != ConformanceTier::Baseline,
        e.governing_tier == (if tier_rank(e.capability_tier) >= tier_rank(e.data_tier) {
            e.capability_tier
        } else {
            e.data_tier
        }),
{
    assert forall|i: int|
        0 <= i < e.properties@.len() && (#[trigger] e.properties@[i] is ExternalEffect
            || e.properties@[i] is CredentialAccess || e.properties@[i] is SubAgentCreation) implies e.capability_tier
        != ConformanceTier::Baseline by {
        assert(needs_enhanced(e.properties@[i]));
    }
}

fn placeholder() -> (s: DualSignature)
    ensures
        s.lattice.alg == SignatureAlg::MlDsa65,
        s.hash_based.alg == SignatureAlg::SlhDsaShake192s,
        s.lattice.bytes@.len() == 0,
        s.hash_based.bytes@.len() == 0,
{
    DualSignature {
        lattice: Signature { alg: SignatureAlg::MlDsa65, bytes: Vec::new() },
        hash_based: Signature { alg: SignatureAlg::SlhDsaShake192s, bytes: Vec::new() },
    }
}

/// The record of a sub-agent's creation.
#[derive(Debug, Clone)]
pub struct SubAgentRecord {
    pub parent_id: String,
    pub child_id: String,
    pub child_envelope: CapabilityEnvelope,
    pub intent_chain: IntentProvenanceChain,
    pub created_at: Timestamp,
}

#[derive(Debug, Clone, Copy, PartialEq, Eq, Structural)]
pub enum SubAgentError {
    CapabilityExceedsParent,
}

/// The parent holds this property.
pub open spec fn held_by(p: CapabilityProperty, parent: Seq<CapabilityProperty>) -> bool {
    exists|j: int| 0 <= j < parent.len() && same_property(p, #[trigger] parent[j])
}

/// Every property of the child is a property of the parent.
pub open spec fn within_parent(child: Seq<CapabilityProperty>, parent: Seq<CapabilityProperty>) -> bool {
    forall|i: int| 0 <= i < child.len() ==> held_by(#[trigger] child[i], parent)
}

impl SubAgentRecord {
    /// `CapabilityExceedsParent` when the child holds a property the parent does not.
    pub fn validate(&self, parent: &CapabilityEnvelope) -> (r: Result<(), SubAgentError>)
        ensures
            r is Ok <==> within_parent(self.child_envelope.properties@, parent.properties@),
            r matches Err(e) ==> e == SubAgentError::CapabilityExceedsParent,
    {
        let mut i: usize = 0;
        while i < self.child_envelope.properties.len()
            invariant
                0 <= i <= self.child_envelope.properties@.len(),
                forall|k: int| 0 <= k < i ==> held_by(#[trigger] self.child_envelope.properties@[k], parent.properties@),
            decreases self.child_envelope.properties@.len() - i,
        {
            let mut found = false;
            let mut j: usize = 0;
            while j < parent.properties.len()
                invariant
                    0 <= j <= parent.properties@.len(),
                    i < self.child_envelope.properties@.len(),
                    forall|k: int| 0 <= k < i ==> held_by(#[trigger] self.child_envelope.properties@[k], parent.properties@),
                    found ==> held_by(self.child_envelope.properties@[i as int], parent.properties@),
                    !found ==> forall|m: int|
                        0 <= m < j ==> !same_property(self.child_envelope.properties@[i as int], #[trigger] parent.properties@[m]),
                decreases parent.properties@.len() - j,
            {
                if property_eq(&self.child_envelope.properties[i], &parent.properties[j]) {
                    found = true;
                }
                j = j + 1;
            }
            if !found {
                assert(!held_by(self.child_envelope.properties@[i as int], parent.properties@));
                assert(!within_parent(self.child_envelope.properties@, parent.properties@));
                return Err(SubAgentError::CapabilityExceedsParent);
            }
            i = i + 1;
        }
        assert(within_parent(self.child_envelope.properties@, parent.properties@));
        Ok(())
    }
}

#[derive(Debug, Clone, PartialEq, Eq)]
pub struct EvidenceProvenance {
    pub sensor_id: String,
    pub capture_path: String,
    pub capture_timestamp: Timestamp,
    pub expected_coverage: String,
    pub observed_coverage: String,
    pub evidence_gap: Option<String>,
}

#[derive(Debug, Clone, PartialEq, Eq)]
pub struct TrajectoryEntry {
    pub sequence: u64,
    pub action: Action,
    pub tool_id: ToolId,
    pub outcome: TrajectoryOutcome,
    pub timestamp: Timestamp,
    pub provenance: EvidenceProvenance,
}

#[derive(Debug, Clone, PartialEq, Eq)]
#[non_exhaustive]
pub enum TrajectoryOutcome {
    Executed { output: String },
    Denied { stage: String, reason: String },
    Error { detail: String },
}

} // verus!
