//! What the sentinel observes, and the seams of its detectors and Self Set corpus.
use vstd::prelude::*;
use crate::barrier::{BarrierVerdict, BoundaryFlow};
use crate::crypto::Digest;
use crate::gate::{Action, AnergyReason};
use crate::ids::{DetectorId, SelfSetVersion};
use crate::signal::{Severity, Signal};

verus! {

/// One governed event.
#[derive(Debug, Clone, PartialEq, Eq)]
pub enum Observation {
    Crossing { flow: BoundaryFlow, verdict: BarrierVerdict },
    Authorization { action: Action, granted: bool, anergy: Option<AnergyReason> },
    Signalled { signal: Signal },
    Hop { authorized: Action, executed: Option<Action> },
}

/// A detector's verdict on an observation.
#[derive(Debug, Clone, PartialEq, Eq)]
pub enum DetectionVerdict {
    Clear,
    Fired { severity: Severity, detail: String },
}

/// A detector: an identifier, and a verdict on each observation.
pub trait Detector {
    /// The detector's identifier.
    spec fn id_spec(&self) -> DetectorId;

    /// What the detector decides on an observation.
    spec fn verdict(&self, o: Observation) -> DetectionVerdict;

    fn id(&self) -> (r: &DetectorId)
        ensures
            *r == self.id_spec(),
    ;

    fn observe(&self, o: &Observation) -> (r: DetectionVerdict)
        ensures
            r == self.verdict(*o),
    ;
}

/// The Self Set: a versioned corpus of observations with its digest.
pub trait SelfSetCorpus {
    /// The corpus's version.
    spec fn version_spec(&self) -> SelfSetVersion;

    /// The corpus's observations.
    spec fn observations_spec(&self) -> Seq<Observation>;

    fn version(&self) -> (r: SelfSetVersion)
        ensures
            r == self.version_spec(),
    ;

    fn observations(&self) -> (r: &[Observation])
        ensures
            r@ == self.observations_spec(),
    ;

    fn digest(&self) -> Digest;
}

} // verus!
