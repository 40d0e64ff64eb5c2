//! The risk register: entries, their dispositions, and signed risk acceptances.
use vstd::prelude::*;
use crate::crypto::{DualSignature, Signature};
use crate::ids::{Dap, RiskAcceptanceId, Timestamp};

verus! {

/// Identifier of a risk entry.
#[derive(Debug, Clone, PartialEq, Eq, PartialOrd, Ord, Hash)]
pub struct RiskId(pub String);

impl RiskId {
    pub fn new(s: &str) -> (r: Self)
        ensures
            r.0@ == s@,
    {
        RiskId(s.to_owned())
    }

    pub fn as_str(&self) -> (r: &str)
        ensures
            r@ == self.0@,
    {
        self.0.as_str()
    }
}

#[derive(Debug, Clone, Copy, PartialEq, Eq, Structural)]
pub enum DeterministicGateId {
    Genome,
    Mhc,
}

/// A DAP-signed acceptance of a residual risk, with an expiry.
#[derive(Debug, Clone, PartialEq, Eq)]
pub struct RiskAcceptance {
    pub finding: RiskAcceptanceId,
    pub gate: Option<DeterministicGateId>,
    pub dap: Dap,
    pub justification: String,
    pub expiry: Timestamp,
    pub signature: DualSignature,
}

#[derive(Debug, Clone, Copy, PartialEq, Eq, PartialOrd, Ord, Structural)]
pub enum Likelihood {
    Rare,
    Unlikely,
    Possible,
    Likely,
    AlmostCertain,
}

#[derive(Debug, Clone, Copy, PartialEq, Eq, PartialOrd, Ord, Structural)]
pub enum Impact {
    Negligible,
    Minor,
    Moderate,
    Major,
    Severe,
}

#[derive(Debug, Clone, Copy, PartialEq, Eq, Structural)]
pub enum RiskSource {
    Incident,
    ThreatModel,
    DeterministicGate,
    SupplyChain,
    ExternalIntel,
    EnvironmentChange,
}

#[derive(Debug, Clone, Copy, PartialEq, Eq, Structural)]
pub enum TransferMechanism {
    Contract,
    Insurance,
    ThirdParty,
}

#[derive(Debug, Clone, Copy, PartialEq, Eq, Structural)]
pub enum TreatmentStatus {
    Open,
    Executed,
}

#[derive(Debug, Clone, PartialEq, Eq)]
pub struct TreatmentPlan {
    pub owner: Dap,
    pub target: Timestamp,
    pub status: TreatmentStatus,
}

/// How a risk is treated. Reduce and transfer carry the residual risk that remains.
#[derive(Debug, PartialEq, Eq)]
pub enum Disposition {
    Avoid { plan: TreatmentPlan },
    Reduce { plan: TreatmentPlan, residual: Box<RiskEntry> },
    Transfer { mechanism: TransferMechanism, residual: Box<RiskEntry> },
    Accept { acceptance: RiskAcceptance },
}

#[derive(Debug, PartialEq, Eq)]
pub struct RiskEntry {
    pub id: RiskId,
    pub description: String,
    pub context: String,
    pub likelihood: Likelihood,
    pub impact: Impact,
    pub owner: Dap,
    pub source: RiskSource,
    pub disposition: Disposition,
}

/// Two DAPs with the same name and identifier.
pub open spec fn same_dap(a: Dap, b: Dap) -> bool {
    a.name@ == b.name@ && a.id@ == b.id@
}

/// Two signatures with the same algorithm and bytes.
pub open spec fn same_signature(a: Signature, b: Signature) -> bool {
    a.alg == b.alg && a.bytes@ == b.bytes@
}

/// Two dual signatures whose two signatures are the same.
pub open spec fn same_dual(a: DualSignature, b: DualSignature) -> bool {
    same_signature(a.lattice, b.lattice) && same_signature(a.hash_based, b.hash_based)
}

/// Two treatment plans with the same owner, target and status.
pub open spec fn same_plan(a: TreatmentPlan, b: TreatmentPlan) -> bool {
    same_dap(a.owner, b.owner) && a.target == b.target && a.status == b.status
}

/// Two risk acceptances that agree field by field.
pub open spec fn same_acceptance(a: RiskAcceptance, b: RiskAcceptance) -> bool {
    &&& a.finding.0@ == b.finding.0@
    &&& a.gate == b.gate
    &&& same_dap(a.dap, b.dap)
    &&& a.justification@ == b.justification@
    &&& a.expiry == b.expiry
    &&& same_dual(a.signature, b.signature)
}

/// Two dispositions of the same kind whose fields, residual risks included, agree.
pub open spec fn same_disposition(a: Disposition, b: Disposition) -> bool
    decreases a,
{
    match (a, b) {
        (Disposition::Avoid { plan: p }, Disposition::Avoid { plan: q }) => same_plan(p, q),
        (
            Disposition::Reduce { plan: p, residual: r },
            Disposition::Reduce { plan: q, residual: s },
        ) => same_plan(p, q) && same_entry(*r, *s),
        (
            Disposition::Transfer { mechanism: m, residual: r },
            Disposition::Transfer { mechanism: n, residual: s },
        ) => m == n && same_entry(*r, *s),
        (Disposition::Accept { acceptance: x }, Disposition::Accept { acceptance: y }) =>
            same_acceptance(x, y),
        _ => false,
    }
}

/// Two risk entries that agree field by field, their dispositions included.
pub open spec fn same_entry(a: RiskEntry, b: RiskEntry) -> bool
    decreases a,
{
    &&& a.id.0@ == b.id.0@
    &&& a.description@ == b.description@
    &&& a.context@ == b.context@
    &&& a.likelihood == b.likelihood
    &&& a.impact == b.impact
    &&& same_dap(a.owner, b.owner)
    &&& a.source == b.source
    &&& same_disposition(a.disposition, b.disposition)
}

fn copy_dap(d: &Dap) -> (r: Dap)
    ensures
        same_dap(r, *d),
{
    Dap { name: d.name.clone(), id: d.id.clone() }
}

fn copy_signature(s: &Signature) -> (r: Signature)
    ensures
        same_signature(r, *s),
{
    Signature { alg: s.alg, bytes: crate::canon::slice_to_vec(s.bytes.as_slice()) }
}

fn copy_dual(d: &DualSignature) -> (r: DualSignature)
    ensures
        same_dual(r, *d),
{
    DualSignature { lattice: copy_signature(&d.lattice), hash_based: copy_signature(&d.hash_based) }
}

fn copy_plan(p: &TreatmentPlan) -> (r: TreatmentPlan)
    ensures
        same_plan(r, *p),
{
    TreatmentPlan { owner: copy_dap(&p.owner), target: p.target, status: p.status }
}

fn copy_acceptance(a: &RiskAcceptance) -> (r: RiskAcceptance)
    ensures
        same_acceptance(r, *a),
{
    RiskAcceptance {
        finding: RiskAcceptanceId(a.finding.0.clone()),
        gate: a.gate,
        dap: copy_dap(&a.dap),
        justification: a.justification.clone(),
        expiry: a.expiry,
        signature: copy_dual(&a.signature),
    }
}

fn copy_disposition(d: &Disposition) -> (r: Disposition)
    ensures
        same_disposition(r, *d),
    decreases d,
{
    match d {
        Disposition::Avoid { plan } => Disposition::Avoid { plan: copy_plan(plan) },
        Disposition::Reduce { plan, residual } => Disposition::Reduce {
            plan: copy_plan(plan),
            residual: Box::new(copy_entry(residual)),
        },
        Disposition::Transfer { mechanism, residual } => Disposition::Transfer {
            mechanism: *mechanism,
            residual: Box::new(copy_entry(residual)),
        },
        Disposition::Accept { acceptance } => Disposition::Accept {
            acceptance: copy_acceptance(acceptance),
        },
    }
}

fn copy_entry(e: &RiskEntry) -> (r: RiskEntry)
    ensures
        same_entry(r, *e),
    decreases e,
{
    RiskEntry {
        id: RiskId(e.id.0.clone()),
        description: e.description.clone(),
        context: e.context.clone(),
        likelihood: e.likelihood,
        impact: e.impact,
        owner: copy_dap(&e.owner),
        source: e.source,
        disposition: copy_disposition(&e.disposition),
    }
}

impl Clone for Disposition {
    fn clone(&self) -> (r: Self)
        ensures
            same_disposition(r, *self),
    {
        copy_disposition(self)
    }
}

impl Clone for RiskEntry {
    fn clone(&self) -> (r: Self)
        ensures
            same_entry(r, *self),
    {
        copy_entry(self)
    }
}

/// A store of risk entries.
pub trait RiskRegister {
    fn record(&self, risk: RiskEntry) -> RiskId;

    fn inventory(&self) -> Vec<RiskEntry>;
}

} // verus!
