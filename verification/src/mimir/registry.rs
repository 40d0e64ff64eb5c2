//! Which model endpoints are registered.
use vstd::prelude::*;
use crate::ids::ModelEndpointId;

verus! {

/// Answers whether an endpoint is registered.
pub trait RegisteredEndpoints {
    /// Whether an endpoint of this identifier is registered.
    spec fn registered(&self, endpoint: Seq<char>) -> bool;

    fn is_registered(&self, endpoint: &ModelEndpointId) -> (r: bool)
        ensures
            r == self.registered(endpoint.0@),
    ;
}

/// A fixed list of registered endpoints.
pub struct InMemoryRegistry {
    registered: Vec<ModelEndpointId>,
}

impl InMemoryRegistry {
    /// The registered endpoints, as listed.
    pub closed spec fn listed(&self) -> Seq<ModelEndpointId> {
        self.registered@
    }

    pub fn new(registered: Vec<ModelEndpointId>) -> (r: Self)
        ensures
            r.listed() == registered@,
    {
        InMemoryRegistry { registered }
    }

    /// Whether an endpoint of the same identifier is listed.
    pub fn contains(&self, endpoint: &ModelEndpointId) -> (r: bool)
        ensures
            r == exists|i: int| 0 <= i < self.listed().len() && (#[trigger] self.listed()[i]).0@ == endpoint.0@,
    {
        let mut i: usize = 0;
        while i < self.registered.len()
            invariant
                0 <= i <= self.registered@.len(),
                forall|j: int| 0 <= j < i ==> (#[trigger] self.registered@[j]).0@ != endpoint.0@,
            decreases self.registered@.len() - i,
        {
            if crate::sset::text_eq(self.registered[i].as_str(), endpoint.as_str()) {
                assert(self.listed()[i as int].0@ == endpoint.0@);
                return true;
            }
            i = i + 1;
        }
        false
    }
}

impl RegisteredEndpoints for InMemoryRegistry {
    /// Listed under the same identifier.
    open spec fn registered(&self, endpoint: Seq<char>) -> bool {
        exists|i: int| 0 <= i < self.listed().len() && (#[trigger] self.listed()[i]).0@ == endpoint
    }

    fn is_registered(&self, endpoint: &ModelEndpointId) -> (r: bool) {
        self.contains(endpoint)
    }
}

} // verus!
