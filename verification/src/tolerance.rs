//! Peripheral tolerance: DAP-signed grants that suppress heuristic detectors, never a
//! deterministic gate; central-tolerance screening against the Self Set.
use vstd::prelude::*;
use crate::crypto::{Digest, DualSignature};
use crate::gate::Action;
use crate::ids::{Dap, DetectorId, GrantId, SelfSetVersion, Timestamp};

verus! {

/// Whether a response is a deterministic gate (never suppressible) or a heuristic.
#[derive(Debug, Clone, Copy, PartialEq, Eq, Structural)]
pub enum ResponseClass {
    Deterministic,
    Heuristic,
}

#[derive(Debug, Clone, PartialEq, Eq)]
pub struct SuppressionScope {
    pub detail: String,
}

#[derive(Debug, Clone, PartialEq, Eq)]
pub struct ToleranceGrant {
    pub target: DetectorId,
    pub scope: SuppressionScope,
    pub dap: Dap,
    pub issued: Timestamp,
    pub expiry: Timestamp,
    pub signature: DualSignature,
}

#[derive(Debug, Clone, Copy, PartialEq, Eq, Structural)]
pub enum ToleranceError {
    NonSuppressibleGate,
    FailsCentralTolerance,
    Expired,
    OutOfScope,
    SignatureInvalid,
}

impl ToleranceError {
    /// The human-readable message of this error.
    pub open spec fn message(&self) -> Seq<char> {
        match self {
            ToleranceError::NonSuppressibleGate => "cannot attach a tolerance grant to a Deterministic gate"@,
            ToleranceError::FailsCentralTolerance => "detector fails central-tolerance screening against the Self Set"@,
            ToleranceError::Expired => "the tolerance grant has expired"@,
            ToleranceError::OutOfScope => "the tolerance grant is out of scope"@,
            ToleranceError::SignatureInvalid => "the tolerance grant's signature did not verify"@,
        }
    }

    /// The human-readable message of this error.
    pub fn to_string(&self) -> (s: String)
        ensures
            s@ == self.message(),
    {
        let m = match self {
            ToleranceError::NonSuppressibleGate => "cannot attach a tolerance grant to a Deterministic gate",
            ToleranceError::FailsCentralTolerance => "detector fails central-tolerance screening against the Self Set",
            ToleranceError::Expired => "the tolerance grant has expired",
            ToleranceError::OutOfScope => "the tolerance grant is out of scope",
            ToleranceError::SignatureInvalid => "the tolerance grant's signature did not verify",
        };
        m.to_owned()
    }
}

#[derive(Debug, Clone, PartialEq, Eq)]
pub struct StormEvent {
    pub detail: String,
}

#[derive(Debug, Clone, Copy, PartialEq, Eq, Structural)]
pub enum DefensiveResponse {
    Anergy,
    Deny,
    Quarantine,
    Throttle,
}

#[derive(Debug, Clone, PartialEq, Eq)]
pub struct HostHarmIncident {
    pub response: DefensiveResponse,
    pub action: Action,
    pub confirmed_by: Dap,
    pub at: Timestamp,
}

#[derive(Debug, Clone, PartialEq, Eq)]
pub struct SelfSet {
    pub version: SelfSetVersion,
    pub corpus_digest: Digest,
    pub owner: Dap,
}

#[derive(Debug, Clone, PartialEq, Eq)]
pub struct DetectorSpec {
    pub id: DetectorId,
}

/// Evidence that a detector passed screening: the Self Set version screened against and
/// when.
#[derive(Debug, Clone, PartialEq, Eq)]
pub struct ScreenPass {
    pub version: SelfSetVersion,
    pub produced_at: Timestamp,
}

/// Issues tolerance grants and screens detectors.
pub trait ToleranceController {
    /// What attaching a grant to a heuristic detector decides.
    spec fn heuristic_verdict(&self, grant: ToleranceGrant) -> Result<(), ToleranceError>;

    fn grant_heuristic(&self, grant: ToleranceGrant) -> (r: Result<GrantId, ToleranceError>)
        ensures
            r is Ok <==> self.heuristic_verdict(grant) is Ok,
            self.heuristic_verdict(grant) matches Err(e) ==> r == Err::<GrantId, ToleranceError>(
                e,
            ),
    ;

    fn screen(&self, detector: &DetectorSpec, self_set: &SelfSet, now: Timestamp) -> Result<
        ScreenPass,
        ToleranceError,
    >;

    /// Attaches a grant: refused with `NonSuppressibleGate` for a deterministic gate,
    /// otherwise decided by `grant_heuristic`.
    fn grant(&self, grant: ToleranceGrant, class: ResponseClass) -> (r: Result<GrantId, ToleranceError>)
        ensures
            class == ResponseClass::Deterministic ==> r == Err::<GrantId, ToleranceError>(
                ToleranceError::NonSuppressibleGate,
            ),
            class == ResponseClass::Heuristic ==> (r is Ok <==> self.heuristic_verdict(grant) is Ok),
            class == ResponseClass::Heuristic ==> (self.heuristic_verdict(grant) matches Err(e)
                ==> r == Err::<GrantId, ToleranceError>(e)),
    {
        match class {
            ResponseClass::Deterministic => Err(ToleranceError::NonSuppressibleGate),
            ResponseClass::Heuristic => self.grant_heuristic(grant),
        }
    }
}

} // verus!
