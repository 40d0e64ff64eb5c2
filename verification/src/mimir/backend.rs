//! The model backend seam: what a model proposes for a payload.
use vstd::prelude::*;
use crate::gate::Action;
use crate::intent::IntentScope;
use crate::text::{push_lit, string_of};

verus! {

/// A backend's proposal: an action and the model's rationale.
#[derive(Debug, Clone, PartialEq, Eq)]
pub struct BackendProposal {
    pub action: Action,
    pub rationale: String,
}

/// A backend failure, with detail.
#[derive(Debug, Clone, PartialEq, Eq)]
pub struct BackendError {
    pub detail: String,
}

impl BackendError {
    /// The message: `reasoner backend error: ` and the detail.
    pub fn to_string(&self) -> (s: String)
        ensures
            s@ == "reasoner backend error: "@ + self.detail@,
    {
        let mut out: Vec<char> = Vec::new();
        push_lit(&mut out, "reasoner backend error: ");
        push_lit(&mut out, self.detail.as_str());
        string_of(out.as_slice())
    }
}

/// A model that proposes actions.
pub trait ModelBackend {
    fn propose(&self, payload: &str, scope: &IntentScope) -> Result<BackendProposal, BackendError>;
}

} // verus!
