//! Resolution: how an escalation returns to baseline. A DAP-signed decision, bound to
//! the escalation, its cleared condition, the DAP, a nonce and an expiry, is the only
//! way down.
use vstd::prelude::*;
use std::time::Duration;
use crate::canon::{Canon, be8, fits, lps, lemma_be8_prefix, lemma_lps_prefix, utf8};
use crate::crypto::DualSignature;
use crate::ids::{Dap, EscalationId, Nonce, Timestamp};

verus! {

#[derive(Debug, Clone, PartialEq, Eq)]
pub struct ClearCondition {
    pub detail: String,
}

#[derive(Debug, Clone, PartialEq, Eq)]
pub struct BaselinePosture {
    pub detail: String,
}

/// An escalation kind: its resolution criteria and its hysteresis windows.
#[derive(Debug, Clone, PartialEq, Eq)]
pub struct EscalationType {
    pub id: EscalationId,
    pub resolution_criteria: ClearCondition,
    pub baseline: BaselinePosture,
    pub dwell_min: Duration,
    pub hold_window: Duration,
    pub max_duration: Duration,
}

impl EscalationType {
    pub fn new(
        id: EscalationId,
        resolution_criteria: ClearCondition,
        baseline: BaselinePosture,
        dwell_min: Duration,
        hold_window: Duration,
        max_duration: Duration,
    ) -> (r: Self)
        ensures
            r == (EscalationType {
                id,
                resolution_criteria,
                baseline,
                dwell_min,
                hold_window,
                max_duration,
            }),
    {
        EscalationType { id, resolution_criteria, baseline, dwell_min, hold_window, max_duration }
    }
}

#[derive(Debug, Clone, PartialEq, Eq)]
pub struct ClearEvidence {
    pub detail: String,
}

/// A DAP-signed decision to resolve an escalation.
#[derive(Debug, Clone, PartialEq, Eq)]
pub struct ResolutionDecision {
    pub escalation: EscalationId,
    pub cleared_condition: ClearEvidence,
    pub dap: Dap,
    pub at: Timestamp,
    pub nonce: Nonce,
    pub expiry: Timestamp,
    pub signature: DualSignature,
}

impl ResolutionDecision {
    pub fn new(
        escalation: EscalationId,
        cleared_condition: ClearEvidence,
        dap: Dap,
        at: Timestamp,
        nonce: Nonce,
        expiry: Timestamp,
        signature: DualSignature,
    ) -> (r: Self)
        ensures
            r == (ResolutionDecision { escalation, cleared_condition, dap, at, nonce, expiry, signature }),
    {
        ResolutionDecision { escalation, cleared_condition, dap, at, nonce, expiry, signature }
    }
}

/// The domain tag of a resolution decision's signed content.
pub open spec fn domain_resolution() -> Seq<char> {
    "brokkr-core:resolution:v1"@
}

/// The bytes a resolution decision's signature covers: the domain tag, the escalation,
/// the cleared condition, the DAP's name and identifier (each length-prefixed), then the
/// time, nonce and expiry as 8-byte big-endian integers. The signature is not included.
pub open spec fn resolution_content(d: ResolutionDecision) -> Seq<u8> {
    lps(domain_resolution()) + lps(d.escalation.0@) + lps(d.cleared_condition.detail@) + lps(
        d.dap.name@,
    ) + lps(d.dap.id@) + be8(d.at.0) + be8(d.nonce.0) + be8(d.expiry.0)
}

/// The signed content of a resolution decision.
pub fn resolution_signed_content(d: &ResolutionDecision) -> (out: Vec<u8>)
    ensures
        out@ == resolution_content(*d),
{
    let mut c = Canon::new();
    c.put_str("brokkr-core:resolution:v1");
    c.put_str(d.escalation.as_str());
    c.put_str(d.cleared_condition.detail.as_str());
    c.put_str(d.dap.name.as_str());
    c.put_str(d.dap.id.as_str());
    c.put_u64(d.at.0);
    c.put_u64(d.nonce.0);
    c.put_u64(d.expiry.0);
    assert(c.buf@ =~= resolution_content(*d));
    c.finish()
}

/// The strings of a decision can be length-prefixed.
pub open spec fn resolution_fits(d: ResolutionDecision) -> bool {
    &&& fits(utf8(d.escalation.0@))
    &&& fits(utf8(d.cleared_condition.detail@))
    &&& fits(utf8(d.dap.name@))
    &&& fits(utf8(d.dap.id@))
}

/// The encoding is unambiguous: two decisions with the same signed content agree on
/// every signed field (escalation, cleared condition, DAP, time, nonce, expiry).
pub proof fn lemma_resolution_content_injective(a: ResolutionDecision, b: ResolutionDecision)
    requires
        resolution_fits(a),
        resolution_fits(b),
        resolution_content(a) == resolution_content(b),
    ensures
        a.escalation.0@ == b.escalation.0@,
        a.cleared_condition.detail@ == b.cleared_condition.detail@,
        a.dap.name@ == b.dap.name@,
        a.dap.id@ == b.dap.id@,
        a.at == b.at,
        a.nonce == b.nonce,
        a.expiry == b.expiry,
{
    let dom = lps(domain_resolution());
    let ta = be8(a.at.0) + (be8(a.nonce.0) + be8(a.expiry.0));
    let tb = be8(b.at.0) + (be8(b.nonce.0) + be8(b.expiry.0));
    let a4 = lps(a.dap.id@) + ta;
    let b4 = lps(b.dap.id@) + tb;
    let a3 = lps(a.dap.name@) + a4;
    let b3 = lps(b.dap.name@) + b4;
    let a2 = lps(a.cleared_condition.detail@) + a3;
    let b2 = lps(b.cleared_condition.detail@) + b3;
    let a1 = lps(a.escalation.0@) + a2;
    let b1 = lps(b.escalation.0@) + b2;
    assert(resolution_content(a) =~= dom + a1);
    assert(resolution_content(b) =~= dom + b1);
    assert(a1 =~= (dom + a1).subrange(dom.len() as int, (dom + a1).len() as int));
    assert(b1 =~= (dom + b1).subrange(dom.len() as int, (dom + b1).len() as int));
    lemma_lps_prefix(a.escalation.0@, b.escalation.0@, a2, b2);
    lemma_lps_prefix(a.cleared_condition.detail@, b.cleared_condition.detail@, a3, b3);
    lemma_lps_prefix(a.dap.name@, b.dap.name@, a4, b4);
    lemma_lps_prefix(a.dap.id@, b.dap.id@, ta, tb);
    lemma_be8_prefix(a.at.0, b.at.0, be8(a.nonce.0) + be8(a.expiry.0), be8(b.nonce.0) + be8(b.expiry.0));
    lemma_be8_prefix(a.nonce.0, b.nonce.0, be8(a.expiry.0), be8(b.expiry.0));
    crate::canon::lemma_be8_injective(a.expiry.0, b.expiry.0);
}

/// The signed content is exactly the signed fields: two decisions whose strings can be
/// length-prefixed encode alike if and only if they agree on escalation, cleared
/// condition, DAP, time, nonce and expiry, whatever their signatures.
pub proof fn lemma_resolution_content_exact(a: ResolutionDecision, b: ResolutionDecision)
    requires
        resolution_fits(a),
        resolution_fits(b),
    ensures
        resolution_content(a) == resolution_content(b) <==> (a.escalation.0@ == b.escalation.0@
            && a.cleared_condition.detail@ == b.cleared_condition.detail@ && a.dap.name@
            == b.dap.name@ && a.dap.id@ == b.dap.id@ && a.at == b.at && a.nonce == b.nonce
            && a.expiry == b.expiry),
{
    if resolution_content(a) == resolution_content(b) {
        lemma_resolution_content_injective(a, b);
    }
}

/// What the resolution engine says of an escalation.
#[derive(Debug, Clone, PartialEq, Eq)]
pub enum ResolutionVerdict {
    Eligible { needs_dap: bool },
    NotYet { reason: String },
    Chronic,
}

#[derive(Debug, Clone, PartialEq, Eq)]
pub struct ReturnedToBaseline {
    pub escalation: EscalationId,
}

#[derive(Debug, Clone, PartialEq, Eq)]
pub struct ChronicEscalation {
    pub escalation: EscalationId,
}

#[derive(Debug, Clone, Copy, PartialEq, Eq, Structural)]
pub enum ResolveError {
    CriteriaNotMet,
    HysteresisNotSatisfied,
    NeedsDapConfirmation,
    Expired,
    ReplayedNonce,
}

impl ResolveError {
    /// The human-readable message of this error.
    pub open spec fn message(&self) -> Seq<char> {
        match self {
            ResolveError::CriteriaNotMet => "resolution criteria not met"@,
            ResolveError::HysteresisNotSatisfied => "dwell/hold hysteresis not satisfied"@,
            ResolveError::NeedsDapConfirmation => "de-escalation above baseline requires DAP confirmation"@,
            ResolveError::Expired => "the resolution decision has expired"@,
            ResolveError::ReplayedNonce => "the resolution decision's nonce was already accepted"@,
        }
    }

    /// The human-readable message of this error.
    pub fn to_string(&self) -> (s: String)
        ensures
            s@ == self.message(),
    {
        let m = match self {
            ResolveError::CriteriaNotMet => "resolution criteria not met",
            ResolveError::HysteresisNotSatisfied => "dwell/hold hysteresis not satisfied",
            ResolveError::NeedsDapConfirmation => "de-escalation above baseline requires DAP confirmation",
            ResolveError::Expired => "the resolution decision has expired",
            ResolveError::ReplayedNonce => "the resolution decision's nonce was already accepted",
        };
        m.to_owned()
    }
}

/// A resolution engine, queried and driven at call-site times.
pub trait ResolutionEngine {
    fn may_resolve(&self, escalation: &EscalationId, now: Timestamp) -> ResolutionVerdict;

    fn resolve(&mut self, decision: ResolutionDecision, now: Timestamp) -> Result<
        ReturnedToBaseline,
        ResolveError,
    >;

    fn scan_chronic(&self, now: Timestamp) -> Vec<ChronicEscalation>;
}

} // verus!
