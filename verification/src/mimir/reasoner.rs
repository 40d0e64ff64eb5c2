//! MIMIR: a reasoner bound to a registered endpoint.
use vstd::prelude::*;
use crate::ids::{HopId, ModelEndpointId};
use crate::intent::IntentScope;
use crate::mimir::backend::{BackendError, BackendProposal, ModelBackend};
use crate::mimir::registry::RegisteredEndpoints;
use crate::reasoner::{ClearedContext, Proposal, Reasoner, ReasonerError};

verus! {

/// What a reasoner makes of its backend's answer: a backend proposal becomes a proposal
/// with the same action and rationale, attributed to the hop; any backend failure is
/// `Backend`.
pub fn proposal_from(res: Result<BackendProposal, BackendError>, hop: &HopId) -> (r: Result<
    Proposal,
    ReasonerError,
>)
    ensures
        match res {
            Ok(p) => r == Ok::<Proposal, ReasonerError>(
                Proposal { action: p.action, rationale: p.rationale, hop: *hop },
            ),
            Err(_) => r == Err::<Proposal, ReasonerError>(ReasonerError::Backend),
        },
{
    match res {
        Ok(p) => Ok(Proposal { action: p.action, rationale: p.rationale, hop: hop.copy() }),
        Err(_) => Err(ReasonerError::Backend),
    }
}

/// A reasoner: its endpoint, its hop, and the backend it asks.
pub struct Mimir {
    endpoint: ModelEndpointId,
    hop: HopId,
    backend: Box<dyn ModelBackend>,
}

impl Mimir {
    pub closed spec fn endpoint_spec(&self) -> ModelEndpointId {
        self.endpoint
    }

    pub closed spec fn hop_spec(&self) -> HopId {
        self.hop
    }

    /// A reasoner for an endpoint; refused with `UnregisteredEndpoint` unless the registry
    /// lists it.
    pub fn new(
        endpoint: ModelEndpointId,
        registry: &dyn RegisteredEndpoints,
        backend: Box<dyn ModelBackend>,
        hop: HopId,
    ) -> (r: Result<Self, ReasonerError>)
        ensures
            r is Ok <==> registry.registered(endpoint.0@),
            r matches Ok(m) ==> m.endpoint_spec() == endpoint && m.hop_spec() == hop,
            r matches Err(e) ==> e == ReasonerError::UnregisteredEndpoint,
    {
        if !registry.is_registered(&endpoint) {
            return Err(ReasonerError::UnregisteredEndpoint);
        }
        Ok(Mimir { endpoint, hop, backend })
    }
}

impl Reasoner for Mimir {
    fn endpoint(&self) -> (r: &ModelEndpointId)
        ensures
            *r == self.endpoint_spec(),
    {
        &self.endpoint
    }

    /// Proposes from a cleared context's payload only: the backend sees the payload and
    /// the scope, never the context itself; a backend failure is `Backend`.
    fn propose(&self, ctx: &ClearedContext, scope: &IntentScope) -> (r: Result<Proposal, ReasonerError>)
        ensures
            r matches Ok(p) ==> p.hop == self.hop_spec(),
            r matches Err(e) ==> e == ReasonerError::Backend,
    {
        let payload = ctx.get().payload.as_str();
        proposal_from(self.backend.propose(payload, scope), &self.hop)
    }
}

} // verus!
