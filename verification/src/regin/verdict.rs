//! What the promotion gate reports.
use vstd::prelude::*;
use crate::capability::ConformanceTier;
use crate::genome::AlgorithmId;
use crate::ids::{ModelEndpointId, Score, ToolId};
use crate::intent::{Capability, Invariant};

verus! {

/// The signed registers of a genome.
#[derive(Debug, Clone, Copy, PartialEq, Eq, Structural)]
pub enum Register {
    Tools,
    Cbom,
    Aibom,
    Endpoints,
    Roots,
    Policy,
}

/// One reason a genome is not promoted.
#[derive(Debug, Clone, PartialEq, Eq)]
pub enum Finding {
    /// A register's signature does not verify under the DAP key.
    RegisterSignatureInvalid { register: Register },
    /// The genome's own signature does not verify under the DAP key.
    GenomeSignatureInvalid,
    /// The bill of materials declares an algorithm the policy disallows.
    DisallowedAlgorithm { algorithm: AlgorithmId },
    /// An endpoint's trust score was reviewed more than ninety days ago.
    StaleTrustScore { endpoint: ModelEndpointId },
    /// An endpoint's trust score claims a review in the future.
    FutureTrustScore { endpoint: ModelEndpointId },
    /// A tool requires a capability outside the policy vocabulary.
    ToolCapabilityNotInVocabulary { tool: ToolId, capability: Capability },
    /// An invariant forbids a capability outside the policy vocabulary.
    InvariantForbidsUnknownCapability { invariant: Invariant, capability: Capability },
    /// An invariant forbids nothing at all.
    InvariantForbidsNothing { invariant: Invariant },
    /// A measured factor claims a non-zero score with no observations behind it.
    MeasuredFactorWithoutEvidence { endpoint: ModelEndpointId, claimed: Score },
    /// The declared key custody does not meet the genome's conformance tier.
    KeyCustodyBelowTier { tier: ConformanceTier, element: CustodyShortfall },
}

/// The element of key custody a tier requires and a declaration lacks.
#[derive(Debug, Clone, Copy, PartialEq, Eq, Structural)]
pub enum CustodyShortfall {
    NoHardwareBoundary,
    NoDualControl,
    NoThresholdCustody,
    QuorumBelowFloor,
    InsufficientCustodialSeparation,
    RehearsalStale,
}

/// Outcome of a promotion check: the genome goes ahead, or it is held back with each finding.
#[derive(Debug, Clone, PartialEq, Eq)]
pub enum PromotionVerdict {
    Promoted,
    Blocked { findings: Vec<Finding> },
}

} // verus!
