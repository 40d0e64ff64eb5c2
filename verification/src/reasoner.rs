//! The reasoner seam. A reasoner proposes only from a `ClearedContext`, and a cleared
//! context can be minted only by `ContextClearance::clear`, when the barrier allows the
//! context to reach its destination.
use vstd::prelude::*;
use crate::barrier::{BarrierVerdict, BoundaryCustodyRecord, Destination, PersonalDataTag};
use crate::classification::Classification;
use crate::gate::Action;
use crate::ids::{DatumRef, HopId, ModelEndpointId, Timestamp};
use crate::intent::IntentScope;

verus! {

/// Context bound for a reasoner.
#[derive(Debug, Clone, PartialEq, Eq)]
pub struct Context {
    pub payload: String,
    pub datum: DatumRef,
    pub classification: Classification,
    pub personal: Option<PersonalDataTag>,
    pub bcr: Option<BoundaryCustodyRecord>,
}

/// Context the barrier has cleared. It has no public constructor.
pub struct ClearedContext {
    inner: Context,
}

impl ClearedContext {
    fn mint(inner: Context) -> (r: Self)
        ensures
            r.context_spec() == inner,
    {
        ClearedContext { inner }
    }

    /// The cleared context.
    pub closed spec fn context_spec(&self) -> Context {
        self.inner
    }

    pub fn get(&self) -> (r: &Context)
        ensures
            *r == self.context_spec(),
    {
        &self.inner
    }
}

/// A reasoner's proposed action.
#[derive(Debug, Clone, PartialEq, Eq)]
pub struct Proposal {
    pub action: Action,
    pub rationale: String,
    pub hop: HopId,
}

#[derive(Debug, Clone, Copy, PartialEq, Eq, Structural)]
pub enum ReasonerError {
    Backend,
    UnregisteredEndpoint,
}

impl ReasonerError {
    /// The human-readable message of this error.
    pub open spec fn message(&self) -> Seq<char> {
        match self {
            ReasonerError::Backend => "reasoner backend error"@,
            ReasonerError::UnregisteredEndpoint => "reasoner endpoint is not registered"@,
        }
    }

    /// The human-readable message of this error.
    pub fn to_string(&self) -> (s: String)
        ensures
            s@ == self.message(),
    {
        let m = match self {
            ReasonerError::Backend => "reasoner backend error",
            ReasonerError::UnregisteredEndpoint => "reasoner endpoint is not registered",
        };
        m.to_owned()
    }
}

/// Whether a barrier verdict lets a context through: allow, or an accepted risk.
pub open spec fn verdict_clears(v: BarrierVerdict) -> bool {
    v is Allow || v is AcceptedRisk
}

/// The barrier evaluated for context bound to a reasoner.
pub trait ContextClearance {
    /// What the barrier decides for a context bound to a destination at `now`.
    spec fn verdict(&self, ctx: Context, dest: Destination, now: Timestamp) -> BarrierVerdict;

    fn evaluate_context(&self, ctx: &Context, dest: &Destination, now: Timestamp) -> (v: BarrierVerdict)
        ensures
            v == self.verdict(*ctx, *dest, now),
    ;

    /// Clears a context when the evaluation allows it (or accepts the risk); otherwise
    /// returns the blocking verdict.
    fn clear(&self, ctx: Context, dest: &Destination, now: Timestamp) -> (r: Result<
        ClearedContext,
        BarrierVerdict,
    >)
        ensures
            r is Ok <==> verdict_clears(self.verdict(ctx, *dest, now)),
            r matches Ok(c) ==> c.context_spec() == ctx,
            r matches Err(v) ==> v == self.verdict(ctx, *dest, now) && !verdict_clears(v),
    {
        match self.evaluate_context(&ctx, dest, now) {
            BarrierVerdict::Allow => Ok(ClearedContext::mint(ctx)),
            BarrierVerdict::AcceptedRisk { entry } => Ok(ClearedContext::mint(ctx)),
            blocking => Err(blocking),
        }
    }
}

/// Proposes actions from cleared context, within a scope.
pub trait Reasoner {
    fn endpoint(&self) -> &ModelEndpointId;

    fn propose(&self, ctx: &ClearedContext, scope: &IntentScope) -> Result<Proposal, ReasonerError>;
}

} // verus!
