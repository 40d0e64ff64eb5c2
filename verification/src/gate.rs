//! The costimulation gate. An `AuthorizedAction` can be minted only here, by
//! `CostimulationGate::authorize`, and only when its evaluation grants it; a
//! denial (anergy) is a distinct variant with no path to an authorized action.
use vstd::prelude::*;
use crate::crypto::Attestation;
use crate::ids::{Timestamp, ToolId};
use crate::intent::IntentProvenanceChain;

verus! {

/// A proposed action: a tool and what to do with it.
#[derive(Debug, Clone, PartialEq, Eq)]
pub struct Action {
    pub tool: ToolId,
    pub detail: String,
}

/// Why costimulation was withheld.
#[derive(Debug, Clone, Copy, PartialEq, Eq, Structural)]
pub enum AnergyReason {
    IdentityUnverified,
    ChainInvalid,
    OutOfScope,
    InvariantViolated,
    ChainExpired,
}

/// An action a costimulation gate authorized. It has no public constructor.
pub struct AuthorizedAction {
    action: Action,
}

impl AuthorizedAction {
    fn mint(action: Action) -> (r: Self)
        ensures
            r.action_spec() == action,
    {
        AuthorizedAction { action }
    }

    /// The action that was authorized.
    pub closed spec fn action_spec(&self) -> Action {
        self.action
    }

    pub fn action(&self) -> (r: &Action)
        ensures
            *r == self.action_spec(),
    {
        &self.action
    }
}

/// A costimulation decision: an authorized action, or anergy with its reason.
pub enum AuthorizationDecision {
    Granted(AuthorizedAction),
    Anergy { reason: AnergyReason },
}

/// Two-signal authorization: identity and intent, evaluated at a call-site `now`.
pub trait CostimulationGate {
    /// What evaluating this costimulation check decides for an identity, a chain and an action at `now`.
    spec fn verdict(
        &self,
        identity: Attestation,
        chain: IntentProvenanceChain,
        action: Action,
        now: Timestamp,
    ) -> Result<(), AnergyReason>;

    fn evaluate(
        &self,
        identity: &Attestation,
        chain: &IntentProvenanceChain,
        action: &Action,
        now: Timestamp,
    ) -> (r: Result<(), AnergyReason>)
        ensures
            r == self.verdict(*identity, *chain, *action, now),
    ;

    /// Mints an authorized action for exactly the proposed action when evaluation
    /// succeeds; otherwise anergy with the evaluation's reason.
    fn authorize(
        &self,
        identity: &Attestation,
        chain: &IntentProvenanceChain,
        action: Action,
        now: Timestamp,
    ) -> (r: AuthorizationDecision)
        ensures
            r matches AuthorizationDecision::Granted(a) ==> a.action_spec() == action,
            r is Granted <==> self.verdict(*identity, *chain, action, now) is Ok,
            r matches AuthorizationDecision::Anergy { reason } ==> self.verdict(
                *identity,
                *chain,
                action,
                now,
            ) == Err::<(), AnergyReason>(reason),
    {
        match self.evaluate(identity, chain, &action, now) {
            Ok(()) => AuthorizationDecision::Granted(AuthorizedAction::mint(action)),
            Err(reason) => AuthorizationDecision::Anergy { reason },
        }
    }
}

} // verus!
