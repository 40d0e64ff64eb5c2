//! Adaptive maturation: refined detectors are always heuristic, seeded by a confirmed
//! incident, selected against a corpus, and activated with signed provenance.
use vstd::prelude::*;
use crate::crypto::DualSignature;
use crate::ids::{CorpusVersion, Dap, DetectorId, IncidentId, Timestamp};
use crate::tolerance::{ResponseClass, ScreenPass};

verus! {

#[derive(Debug, Clone, PartialEq, Eq)]
pub struct AttackClass {
    pub detail: String,
}

#[derive(Debug, Clone, PartialEq, Eq)]
pub struct SeedingIncident {
    pub incident_id: IncidentId,
    pub confirmed_by: Dap,
    pub attack_class: AttackClass,
}

#[derive(Debug, Clone, PartialEq, Eq)]
pub struct DetectorSpecBase {
    pub id: DetectorId,
}

#[derive(Debug, Clone, PartialEq, Eq)]
pub struct DetectorDelta {
    pub detail: String,
}

/// A refined detector. Its response class is heuristic by construction: there is no way
/// to make it a deterministic gate.
#[derive(Debug, PartialEq, Eq)]
pub struct RefinedDetector {
    base: DetectorSpecBase,
    change: DetectorDelta,
    generation: u64,
    response_class: ResponseClass,
}

impl RefinedDetector {
    #[verifier::type_invariant]
    closed spec fn heuristic(&self) -> bool {
        self.response_class == ResponseClass::Heuristic
    }

    pub closed spec fn base_spec(&self) -> DetectorSpecBase {
        self.base
    }

    pub closed spec fn change_spec(&self) -> DetectorDelta {
        self.change
    }

    pub closed spec fn generation_spec(&self) -> u64 {
        self.generation
    }

    pub fn new(base: DetectorSpecBase, change: DetectorDelta, generation: u64) -> (r: Self)
        ensures
            r.base_spec() == base,
            r.change_spec() == change,
            r.generation_spec() == generation,
    {
        RefinedDetector { base, change, generation, response_class: ResponseClass::Heuristic }
    }

    /// Always `Heuristic`.
    pub fn response_class(&self) -> (r: ResponseClass)
        ensures
            r == ResponseClass::Heuristic,
    {
        proof {
            use_type_invariant(self);
        }
        self.response_class
    }

    pub fn generation(&self) -> (r: u64)
        ensures
            r == self.generation_spec(),
    {
        self.generation
    }

    pub fn base(&self) -> (r: &DetectorSpecBase)
        ensures
            *r == self.base_spec(),
    {
        &self.base
    }

    pub fn change(&self) -> (r: &DetectorDelta)
        ensures
            *r == self.change_spec(),
    {
        &self.change
    }
}

impl Clone for RefinedDetector {
    fn clone(&self) -> (r: Self)
        ensures
            r.generation_spec() == self.generation_spec(),
    {
        proof {
            use_type_invariant(self);
        }
        RefinedDetector {
            base: self.base.clone(),
            change: self.change.clone(),
            generation: self.generation,
            response_class: self.response_class,
        }
    }
}

#[derive(Debug, Clone, PartialEq, Eq)]
pub struct DetectorProvenance {
    pub seeding: IncidentId,
    pub corpus_version: CorpusVersion,
    pub screen_result: ScreenPass,
    pub approver: Dap,
    pub signature: DualSignature,
}

#[derive(Debug, Clone, PartialEq, Eq)]
pub struct EvaluationCorpus {
    pub version: CorpusVersion,
}

#[derive(Debug, Clone, PartialEq, Eq)]
pub struct SelectionPass {
    pub version: CorpusVersion,
    pub produced_at: Timestamp,
}

#[derive(Debug, Clone, PartialEq, Eq)]
pub struct PriorGeneration {
    pub generation: u64,
}

/// Why maturation refused. Corpus-validity errors name the evidence (the corpus), not
/// the candidate.
#[derive(Debug, Clone, Copy, PartialEq, Eq, Structural)]
pub enum AdaptError {
    UnconfirmedSeed,
    Overfit,
    CoverageRegression,
    FailsTolerance,
    NeedsApproval,
    SubstitutedCorpus,
    StaleCorpus,
}

impl AdaptError {
    /// The human-readable message of this error.
    pub open spec fn message(&self) -> Seq<char> {
        match self {
            AdaptError::UnconfirmedSeed => "refinement may only be seeded by a DAP-confirmed incident"@,
            AdaptError::Overfit => "candidate improves only on its seeding sample"@,
            AdaptError::CoverageRegression => "candidate degrades coverage elsewhere in the corpus"@,
            AdaptError::FailsTolerance => "candidate raises host harm above the bound, regardless of detection gains"@,
            AdaptError::NeedsApproval => "activation requires DAP approval"@,
            AdaptError::SubstitutedCorpus => "the evaluation corpus does not match its signed digest"@,
            AdaptError::StaleCorpus => "the evaluation corpus is not the current version"@,
        }
    }

    /// The human-readable message of this error.
    pub fn to_string(&self) -> (s: String)
        ensures
            s@ == self.message(),
    {
        let m = match self {
            AdaptError::UnconfirmedSeed => "refinement may only be seeded by a DAP-confirmed incident",
            AdaptError::Overfit => "candidate improves only on its seeding sample",
            AdaptError::CoverageRegression => "candidate degrades coverage elsewhere in the corpus",
            AdaptError::FailsTolerance => "candidate raises host harm above the bound, regardless of detection gains",
            AdaptError::NeedsApproval => "activation requires DAP approval",
            AdaptError::SubstitutedCorpus => "the evaluation corpus does not match its signed digest",
            AdaptError::StaleCorpus => "the evaluation corpus is not the current version",
        };
        m.to_owned()
    }
}

/// The maturation pipeline: generate, select, activate.
pub trait MaturationPipeline {
    fn generate(&self, seed: &SeedingIncident) -> Result<RefinedDetector, AdaptError>;

    fn select(&self, candidate: &RefinedDetector, corpus: &EvaluationCorpus, now: Timestamp) -> Result<
        SelectionPass,
        AdaptError,
    >;

    fn activate(&self, candidate: RefinedDetector, provenance: DetectorProvenance, now: Timestamp) -> Result<
        PriorGeneration,
        AdaptError,
    >;
}

} // verus!
