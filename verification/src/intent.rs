//! The intent provenance chain: a signed root intent and the hops that attenuate it.
//!
//! A scope is a set of capabilities; each hop may only narrow the scope it received,
//! and invariants only accumulate along the chain. `IntentProvenanceChain` keeps the
//! narrowing as an invariant of the type: the only way to add a hop is `extend`, which
//! refuses a broadening.
use vstd::prelude::*;
use vstd::std_specs::iter::IteratorSpec;
use crate::crypto::{Attestation, Digest, DualSignature};
use crate::ids::{Dap, Nonce, SubjectId, Timestamp};
use crate::sset::{
    Named, contains_text, sorted_from, sorted_strict, sorted_union, subset_of, texts,
};

verus! {

/// A named capability.
#[derive(Debug, Clone, PartialEq, Eq, PartialOrd, Ord, Hash)]
pub struct Capability(pub String);

impl Capability {
    /// A copy of this value.
    pub fn copy(&self) -> (r: Self)
        ensures
            r == *self,
    {
        Capability(self.0.clone())
    }

    pub fn new(s: &str) -> (r: Self)
        ensures
            r.0@ == s@,
    {
        Capability(s.to_owned())
    }
}

impl Named for Capability {
    open spec fn text(&self) -> Seq<char> {
        self.0@
    }

    fn as_text(&self) -> (r: &str) {
        self.0.as_str()
    }

    fn duplicate(&self) -> (r: Self) {
        Capability(self.0.clone())
    }
}

/// A set of capabilities, listed in name order.
#[derive(Debug, PartialEq, Eq)]
pub struct IntentScope {
    caps: Vec<Capability>,
}

impl View for IntentScope {
    type V = Seq<Seq<char>>;

    /// The capability names, in increasing order, each once.
    closed spec fn view(&self) -> Seq<Seq<char>> {
        texts(self.caps@)
    }
}

impl IntentScope {
    #[verifier::type_invariant]
    closed spec fn sorted(&self) -> bool {
        sorted_strict(texts(self.caps@))
    }

    /// The scope holding exactly the given capabilities.
    pub fn new(caps: Vec<Capability>) -> (r: Self)
        ensures
            r@.to_set() == texts(caps@).to_set(),
            sorted_strict(r@),
    {
        let r = IntentScope { caps: sorted_from(caps) };
        proof {
            use_type_invariant(&r);
        }
        r
    }

    /// The empty scope.
    pub fn empty() -> (r: Self)
        ensures
            r@.len() == 0,
    {
        IntentScope { caps: Vec::new() }
    }

    /// The capabilities, in name order.
    pub fn capabilities(&self) -> (r: &Vec<Capability>)
        ensures
            texts(r@) == self@,
            sorted_strict(self@),
    {
        proof {
            use_type_invariant(self);
        }
        &self.caps
    }

    /// Whether every capability of this scope is in `other`.
    pub fn is_subset_of(&self, other: &IntentScope) -> (r: bool)
        ensures
            r == self@.to_set().subset_of(other@.to_set()),
    {
        subset_of(&self.caps, &other.caps)
    }

    /// Whether this scope holds a capability of the given name.
    pub fn allows(&self, name: &str) -> (r: bool)
        ensures
            r == self@.contains(name@),
    {
        contains_text(&self.caps, name)
    }

    /// A copy of this scope.
    pub fn duplicate(&self) -> (r: Self)
        ensures
            r@ == self@,
    {
        proof {
            use_type_invariant(self);
        }
        IntentScope { caps: crate::sset::duplicate_all(&self.caps) }
    }
}

impl Default for IntentScope {
    fn default() -> (r: Self)
        ensures
            r@.len() == 0,
    {
        IntentScope::empty()
    }
}

impl Clone for IntentScope {
    fn clone(&self) -> (r: Self)
        ensures
            r@ == self@,
    {
        self.duplicate()
    }
}

/// A named invariant.
#[derive(Debug, Clone, PartialEq, Eq, PartialOrd, Ord, Hash)]
pub struct Invariant(pub String);

impl Invariant {
    /// A copy of this value.
    pub fn copy(&self) -> (r: Self)
        ensures
            r == *self,
    {
        Invariant(self.0.clone())
    }

    pub fn new(s: &str) -> (r: Self)
        ensures
            r.0@ == s@,
    {
        Invariant(s.to_owned())
    }
}

impl Named for Invariant {
    open spec fn text(&self) -> Seq<char> {
        self.0@
    }

    fn as_text(&self) -> (r: &str) {
        self.0.as_str()
    }

    fn duplicate(&self) -> (r: Self) {
        Invariant(self.0.clone())
    }
}

/// A set of invariants, listed in name order.
#[derive(Debug, PartialEq, Eq)]
pub struct InvariantSet {
    set: Vec<Invariant>,
}

impl View for InvariantSet {
    type V = Seq<Seq<char>>;

    /// The invariant names, in increasing order, each once.
    closed spec fn view(&self) -> Seq<Seq<char>> {
        texts(self.set@)
    }
}

impl InvariantSet {
    #[verifier::type_invariant]
    closed spec fn sorted(&self) -> bool {
        sorted_strict(texts(self.set@))
    }

    /// The set holding exactly the given invariants.
    pub fn new(invariants: Vec<Invariant>) -> (r: Self)
        ensures
            r@.to_set() == texts(invariants@).to_set(),
            sorted_strict(r@),
    {
        let r = InvariantSet { set: sorted_from(invariants) };
        proof {
            use_type_invariant(&r);
        }
        r
    }

    pub fn contains(&self, i: &Invariant) -> (r: bool)
        ensures
            r == self@.contains(i.0@),
    {
        contains_text(&self.set, i.0.as_str())
    }

    pub fn len(&self) -> (r: usize)
        ensures
            r == self@.len(),
    {
        self.set.len()
    }

    pub fn is_empty(&self) -> (r: bool)
        ensures
            r == (self@.len() == 0),
    {
        self.set.len() == 0
    }

    /// The invariants, in name order.
    pub fn items(&self) -> (r: &Vec<Invariant>)
        ensures
            texts(r@) == self@,
            sorted_strict(self@),
    {
        proof {
            use_type_invariant(self);
        }
        &self.set
    }

    /// An iterator over the invariants, in name order.
    pub fn iter(&self) -> (r: std::slice::Iter<'_, Invariant>)
        ensures
            texts(IteratorSpec::remaining(&r).unref()) == self@,
            sorted_strict(texts(IteratorSpec::remaining(&r).unref())),
    {
        proof {
            broadcast use vstd::std_specs::slice::axiom_spec_slice_iter;
            use_type_invariant(self);
        }
        let s = self.set.as_slice();
        let r = s.iter();
        assert(IteratorSpec::remaining(&r).unref() =~= s@);
        r
    }

    /// The union of two invariant sets.
    pub fn unioned(&self, added: &InvariantSet) -> (r: InvariantSet)
        ensures
            r@.to_set() == self@.to_set().union(added@.to_set()),
    {
        proof {
            use_type_invariant(self);
        }
        InvariantSet { set: sorted_union(&self.set, &added.set) }
    }

    /// A copy of this set.
    pub fn duplicate(&self) -> (r: Self)
        ensures
            r@ == self@,
    {
        proof {
            use_type_invariant(self);
        }
        InvariantSet { set: crate::sset::duplicate_all(&self.set) }
    }
}

impl Default for InvariantSet {
    fn default() -> (r: Self)
        ensures
            r@.len() == 0,
    {
        InvariantSet { set: Vec::new() }
    }
}

impl Clone for InvariantSet {
    fn clone(&self) -> (r: Self)
        ensures
            r@ == self@,
    {
        self.duplicate()
    }
}

/// A caveat added by a hop.
#[derive(Debug, Clone, PartialEq, Eq)]
pub struct Caveat(pub String);

impl Named for Caveat {
    open spec fn text(&self) -> Seq<char> {
        self.0@
    }

    fn as_text(&self) -> (r: &str) {
        self.0.as_str()
    }

    fn duplicate(&self) -> (r: Self) {
        Caveat(self.0.clone())
    }
}

/// The signed root of a chain: who asked, on whose authority, for what.
#[derive(Debug, Clone, PartialEq, Eq)]
pub struct RootIntent {
    pub principal: SubjectId,
    pub dap: Dap,
    pub scope: IntentScope,
    pub invariants: InvariantSet,
    pub nonce: Nonce,
    pub expiry: Timestamp,
    pub signature: DualSignature,
}

/// One hop: who it is, the digest of what it received, the scope it emits.
#[derive(Debug, Clone, PartialEq, Eq)]
pub struct IntentChainEntry {
    pub hop_identity: Attestation,
    pub received_digest: Digest,
    pub emitted_scope: IntentScope,
    pub added_caveats: Vec<Caveat>,
    pub added_invariants: InvariantSet,
    pub signature: DualSignature,
}

/// Why a chain operation was refused.
#[derive(Debug, Clone, Copy, PartialEq, Eq, Structural)]
pub enum AttenuationError {
    WouldBroaden,
    Expired,
}

impl AttenuationError {
    /// The human-readable message of this error.
    pub open spec fn message(&self) -> Seq<char> {
        match self {
            AttenuationError::WouldBroaden => "emitted scope is not a subset of the received scope"@,
            AttenuationError::Expired => "the intent provenance chain has expired"@,
        }
    }

    /// The human-readable message of this error.
    pub fn to_string(&self) -> (s: String)
        ensures
            s@ == self.message(),
    {
        let m = match self {
            AttenuationError::WouldBroaden => "emitted scope is not a subset of the received scope",
            AttenuationError::Expired => "the intent provenance chain has expired",
        };
        m.to_owned()
    }
}

/// The scope in force before hop `i`: the root's for the first hop, else the scope the
/// previous hop emitted.
pub open spec fn prior_scope(root: RootIntent, entries: Seq<IntentChainEntry>, i: int) -> Set<
    Seq<char>,
> {
    if i == 0 {
        root.scope@.to_set()
    } else {
        entries[i - 1].emitted_scope@.to_set()
    }
}

/// Every hop emits a subset of the scope it received.
pub open spec fn attenuated(root: RootIntent, entries: Seq<IntentChainEntry>) -> bool {
    forall|i: int|
        0 <= i < entries.len() ==> (#[trigger] entries[i]).emitted_scope@.to_set().subset_of(
            prior_scope(root, entries, i),
        )
}

/// The scope in force at the end of a chain.
pub open spec fn scope_after(root: RootIntent, entries: Seq<IntentChainEntry>) -> IntentScope {
    if entries.len() == 0 {
        root.scope
    } else {
        entries.last().emitted_scope
    }
}

/// The invariants in force after the first `n` hops: the root's and every one a hop added.
pub open spec fn invariants_after(root: RootIntent, entries: Seq<IntentChainEntry>, n: int) -> Set<
    Seq<char>,
>
    decreases n,
{
    if n <= 0 {
        root.invariants@.to_set()
    } else {
        invariants_after(root, entries, n - 1).union(entries[n - 1].added_invariants@.to_set())
    }
}

/// Along an attenuated chain no hop's scope exceeds the root's.
pub proof fn lemma_attenuated_within_root(root: RootIntent, entries: Seq<IntentChainEntry>, i: int)
    requires
        attenuated(root, entries),
        0 <= i <= entries.len(),
    ensures
        prior_scope(root, entries, i).subset_of(root.scope@.to_set()),
    decreases i,
{
    if i > 0 {
        lemma_attenuated_within_root(root, entries, i - 1);
        assert(entries[i - 1].emitted_scope@.to_set().subset_of(prior_scope(root, entries, i - 1)));
    }
}

/// Authority never broadens along a chain: in an attenuated chain, every hop emits a
/// subset of the scope any earlier hop emitted.
pub proof fn lemma_attenuation_monotone(
    root: RootIntent,
    entries: Seq<IntentChainEntry>,
    i: int,
    j: int,
)
    requires
        attenuated(root, entries),
        0 <= i < j < entries.len(),
    ensures
        entries[j].emitted_scope@.to_set().subset_of(entries[i].emitted_scope@.to_set()),
    decreases j - i,
{
    assert(entries[j].emitted_scope@.to_set().subset_of(prior_scope(root, entries, j)));
    if j > i + 1 {
        lemma_attenuation_monotone(root, entries, i, j - 1);
    }
}

/// Invariants only accumulate: the root's invariants, and those of every hop already
/// passed, stay in force.
pub proof fn lemma_invariants_accumulate(
    root: RootIntent,
    entries: Seq<IntentChainEntry>,
    m: int,
    n: int,
)
    requires
        0 <= m <= n <= entries.len(),
    ensures
        invariants_after(root, entries, m).subset_of(invariants_after(root, entries, n)),
        root.invariants@.to_set().subset_of(invariants_after(root, entries, n)),
    decreases n,
{
    if n > m {
        lemma_invariants_accumulate(root, entries, m, n - 1);
    }
    if n > 0 {
        lemma_invariants_accumulate(root, entries, 0, n - 1);
    }
}

/// A root intent and the hops that attenuated it, each hop narrowing the scope it
/// received.
#[derive(Debug, Clone, PartialEq, Eq)]
pub struct IntentProvenanceChain {
    root: RootIntent,
    entries: Vec<IntentChainEntry>,
}

impl IntentProvenanceChain {
    /// Every hop narrowed the scope it received. Chains built by `new` and `extend`
    /// always are.
    pub open spec fn narrowing(&self) -> bool {
        attenuated(self.root_spec(), self.entries_spec())
    }

    /// The root intent.
    pub closed spec fn root_spec(&self) -> RootIntent {
        self.root
    }

    /// The hops, in order.
    pub closed spec fn entries_spec(&self) -> Seq<IntentChainEntry> {
        self.entries@
    }

    /// A chain of no hops.
    pub fn new(root: RootIntent) -> (r: Self)
        ensures
            r.root_spec() == root,
            r.entries_spec().len() == 0,
            r.narrowing(),
    {
        IntentProvenanceChain { root, entries: Vec::new() }
    }

    pub fn root(&self) -> (r: &RootIntent)
        ensures
            *r == self.root_spec(),
    {
        &self.root
    }

    pub fn entries(&self) -> (r: &[IntentChainEntry])
        ensures
            r@ == self.entries_spec(),
    {
        self.entries.as_slice()
    }

    /// The scope in force: the last hop's emitted scope, or the root's. It never exceeds
    /// the root's scope.
    pub fn current_scope(&self) -> (r: &IntentScope)
        ensures
            *r == scope_after(self.root_spec(), self.entries_spec()),
            self.narrowing() ==> r@.to_set().subset_of(self.root_spec().scope@.to_set()),
    {
        proof {
            if self.narrowing() {
                lemma_attenuated_within_root(self.root, self.entries@, self.entries@.len() as int);
            }
        }
        if self.entries.len() == 0 {
            &self.root.scope
        } else {
            &self.entries[self.entries.len() - 1].emitted_scope
        }
    }

    /// The invariants in force: the root's and every one a hop added.
    pub fn current_invariants(&self) -> (r: InvariantSet)
        ensures
            r@.to_set() == invariants_after(
                self.root_spec(),
                self.entries_spec(),
                self.entries_spec().len() as int,
            ),
    {
        let mut acc = self.root.invariants.duplicate();
        let mut i: usize = 0;
        while i < self.entries.len()
            invariant
                0 <= i <= self.entries@.len(),
                acc@.to_set() == invariants_after(self.root, self.entries@, i as int),
            decreases self.entries@.len() - i,
        {
            acc = acc.unioned(&self.entries[i].added_invariants);
            i = i + 1;
        }
        acc
    }

    /// Appends a hop. Refused with `WouldBroaden` unless the emitted scope is a subset of
    /// the scope in force; otherwise the chain gains exactly this hop.
    pub fn extend(
        self,
        hop_identity: Attestation,
        received_digest: Digest,
        emitted_scope: IntentScope,
        added_caveats: Vec<Caveat>,
        added_invariants: InvariantSet,
        signature: DualSignature,
    ) -> (r: Result<Self, AttenuationError>)
        ensures
            r is Ok <==> emitted_scope@.to_set().subset_of(
                scope_after(self.root_spec(), self.entries_spec())@.to_set(),
            ),
            r matches Err(e) ==> e == AttenuationError::WouldBroaden,
            r matches Ok(c) ==> (self.narrowing() ==> c.narrowing()),
            r matches Ok(c) ==> c.root_spec() == self.root_spec() && c.entries_spec()
                == self.entries_spec().push(
                IntentChainEntry {
                    hop_identity,
                    received_digest,
                    emitted_scope,
                    added_caveats,
                    added_invariants,
                    signature,
                },
            ),
    {
        if !emitted_scope.is_subset_of(self.current_scope()) {
            return Err(AttenuationError::WouldBroaden);
        }
        let ghost was_narrowing = self.narrowing();
        let IntentProvenanceChain { root, mut entries } = self;
        let ghost before = entries@;
        entries.push(
            IntentChainEntry {
                hop_identity,
                received_digest,
                emitted_scope,
                added_caveats,
                added_invariants,
                signature,
            },
        );
        proof {
            if was_narrowing {
            assert forall|i: int| 0 <= i < entries@.len() implies (
            #[trigger] entries@[i]).emitted_scope@.to_set().subset_of(
                prior_scope(root, entries@, i),
            ) by {
                if i < before.len() {
                    assert(entries@[i] == before[i]);
                    assert(prior_scope(root, entries@, i) == prior_scope(root, before, i));
                }
            }
            }
        }
        Ok(IntentProvenanceChain { root, entries })
    }
}

/// The attenuation seam: a chain operator narrows a chain by one hop.
pub trait IntentChain {
    fn attenuate(
        &self,
        current: IntentProvenanceChain,
        hop: Attestation,
        received_digest: Digest,
        emitted: IntentScope,
        added_caveats: Vec<Caveat>,
        added_invariants: InvariantSet,
        signature: DualSignature,
    ) -> (r: Result<IntentProvenanceChain, AttenuationError>)
        ensures
            r is Ok <==> emitted@.to_set().subset_of(
                scope_after(current.root_spec(), current.entries_spec())@.to_set(),
            ),
            r matches Err(e) ==> e == AttenuationError::WouldBroaden,
            r matches Ok(c) ==> c.root_spec() == current.root_spec() && c.entries_spec()
                == current.entries_spec().push(
                IntentChainEntry {
                    hop_identity: hop,
                    received_digest,
                    emitted_scope: emitted,
                    added_caveats,
                    added_invariants,
                    signature,
                },
            ),
    {
        current.extend(hop, received_digest, emitted, added_caveats, added_invariants, signature)
    }
}

} // verus!
