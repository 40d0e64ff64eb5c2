//! Explanation validity: when an explanation is null, why, and who acknowledged it.
//! The floating-point parts of an explanation artifact live outside the library.
use vstd::prelude::*;
use crate::crypto::DualSignature;
use crate::risk::RiskId;

verus! {

#[derive(Debug, Clone, PartialEq, Eq)]
pub struct DecisionRef(pub String);

#[derive(Debug, Clone, PartialEq, Eq)]
#[non_exhaustive]
pub enum EstimationMethod {
    ClassicalShadow,
    DirectExpectation,
    Kernel,
    Other(String),
}

/// An explanation is valid, or null with its cause, an optional DAP acknowledgment and a
/// risk-register reference.
#[derive(Debug, Clone, PartialEq, Eq)]
pub enum ExplanationValidity {
    Valid,
    Null { cause: NullCause, acknowledgment: Option<DapAcknowledgment>, risk_ref: RiskId },
}

#[derive(Debug, Clone, PartialEq, Eq)]
#[non_exhaustive]
pub enum NullCause {
    ExpectedTrainabilityRegime,
    ReconciliationAnomaly,
    ChannelFailure,
}

#[derive(Debug, Clone, PartialEq, Eq)]
pub struct DapAcknowledgment {
    pub decision_ref: DecisionRef,
    pub cause: NullCause,
    pub justification: String,
    pub signature: DualSignature,
}

#[derive(Debug, Clone, PartialEq, Eq)]
#[non_exhaustive]
pub enum StatisticalTest {
    KolmogorovSmirnov,
    ChiSquared,
    Other(String),
}

#[derive(Debug, Clone, PartialEq, Eq)]
pub enum TrainabilityOutcome {
    Consistent,
    Deviates,
}

#[derive(Debug, Clone, PartialEq, Eq)]
#[non_exhaustive]
pub enum CanaryGranularity {
    PerSession,
    PerBatch,
    PerJob,
}

} // verus!
