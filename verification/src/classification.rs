//! Data classification, TLS named groups, channel strength, and the effective
//! authorization of an endpoint over the channel it actually negotiated.
//!
//! No cryptography is performed here; these are the facts the barrier reasons over.
use vstd::prelude::*;

verus! {

/// Data sensitivity tier. Ordered ascending: `Public < Internal < Cui < Secret`.
#[derive(Debug, Clone, Copy, PartialEq, Eq, PartialOrd, Ord, Hash, Structural)]
pub enum Classification {
    Public,
    Internal,
    Cui,
    Secret,
}

/// The position of a tier in the ascending order.
pub open spec fn classification_rank(c: Classification) -> nat {
    match c {
        Classification::Public => 0,
        Classification::Internal => 1,
        Classification::Cui => 2,
        Classification::Secret => 3,
    }
}

/// The lesser of two tiers.
pub open spec fn classification_min(a: Classification, b: Classification) -> Classification {
    if classification_rank(a) <= classification_rank(b) {
        a
    } else {
        b
    }
}

/// The position of a tier in the ascending order, computed.
pub fn rank_of(c: Classification) -> (r: u8)
    ensures
        r == classification_rank(c),
{
    match c {
        Classification::Public => 0,
        Classification::Internal => 1,
        Classification::Cui => 2,
        Classification::Secret => 3,
    }
}

/// A TLS key-exchange named group. The codepoint is the IANA group number.
#[derive(Debug, Clone, Copy, PartialEq, Eq, Hash, Structural)]
pub enum NamedGroup {
    /// Classical X25519.
    X25519,
    /// Classical secp384r1.
    Secp384r1,
    /// PQC-hybrid, 768-class (group 4588).
    X25519MlKem768,
    /// PQC-hybrid, 1024-class (group 4589).
    Secp384r1MlKem1024,
}

pub open spec fn spec_code_point(g: NamedGroup) -> u16 {
    match g {
        NamedGroup::X25519 => 0x001d,
        NamedGroup::Secp384r1 => 0x0018,
        NamedGroup::X25519MlKem768 => 0x11ec,
        NamedGroup::Secp384r1MlKem1024 => 0x11ed,
    }
}

pub open spec fn spec_is_pqc_hybrid(g: NamedGroup) -> bool {
    g == NamedGroup::X25519MlKem768 || g == NamedGroup::Secp384r1MlKem1024
}

impl NamedGroup {
    /// The IANA codepoint for this group.
    pub fn code_point(&self) -> (r: u16)
        ensures
            r == spec_code_point(*self),
    {
        match self {
            NamedGroup::X25519 => 0x001d,
            NamedGroup::Secp384r1 => 0x0018,
            NamedGroup::X25519MlKem768 => 0x11ec,
            NamedGroup::Secp384r1MlKem1024 => 0x11ed,
        }
    }

    /// True iff this group carries a PQC key encapsulation (ML-KEM hybrid).
    pub fn is_pqc_hybrid(&self) -> (r: bool)
        ensures
            r == spec_is_pqc_hybrid(*self),
    {
        match self {
            NamedGroup::X25519MlKem768 | NamedGroup::Secp384r1MlKem1024 => true,
            _ => false,
        }
    }
}

/// Channel strength, derived from the actually negotiated group.
#[derive(Debug, Clone, Copy, PartialEq, Eq, Hash, Structural)]
pub enum ChannelStrength {
    /// Classical only (no ML-KEM): harvest-now-decrypt-later exposed above Public.
    Classical,
    /// PQC-hybrid, 768-class.
    PqcHybrid768,
    /// PQC-hybrid, 1024-class.
    PqcHybrid1024,
}

pub open spec fn spec_from_group(g: NamedGroup) -> ChannelStrength {
    match g {
        NamedGroup::X25519 | NamedGroup::Secp384r1 => ChannelStrength::Classical,
        NamedGroup::X25519MlKem768 => ChannelStrength::PqcHybrid768,
        NamedGroup::Secp384r1MlKem1024 => ChannelStrength::PqcHybrid1024,
    }
}

pub open spec fn spec_permits(c: ChannelStrength) -> Classification {
    match c {
        ChannelStrength::Classical => Classification::Public,
        _ => Classification::Secret,
    }
}

impl ChannelStrength {
    /// Derive channel strength from the negotiated named group.
    pub fn from_group(group: NamedGroup) -> (r: Self)
        ensures
            r == spec_from_group(group),
    {
        match group {
            NamedGroup::X25519 | NamedGroup::Secp384r1 => ChannelStrength::Classical,
            NamedGroup::X25519MlKem768 => ChannelStrength::PqcHybrid768,
            NamedGroup::Secp384r1MlKem1024 => ChannelStrength::PqcHybrid1024,
        }
    }

    /// The highest classification this channel may carry: a classical channel caps at
    /// Public; a PQC-hybrid channel may carry up to Secret.
    pub fn permits(&self) -> (r: Classification)
        ensures
            r == spec_permits(*self),
    {
        match self {
            ChannelStrength::Classical => Classification::Public,
            ChannelStrength::PqcHybrid768 => Classification::Secret,
            ChannelStrength::PqcHybrid1024 => Classification::Secret,
        }
    }
}

/// An endpoint's effective authorization: the lesser of its registry ceiling and what
/// its actually negotiated channel can carry.
pub fn effective_authorization(endpoint_max: Classification, channel: ChannelStrength) -> (r:
    Classification)
    ensures
        r == classification_min(endpoint_max, spec_permits(channel)),
{
    let cap = channel.permits();
    if rank_of(endpoint_max) <= rank_of(cap) {
        endpoint_max
    } else {
        cap
    }
}

/// The effective authorization never exceeds either bound, and a classical channel never
/// carries anything above Public, whatever the registry ceiling.
pub proof fn lemma_effective_authorization_bounded(endpoint_max: Classification, group: NamedGroup)
    ensures
        classification_rank(classification_min(endpoint_max, spec_permits(spec_from_group(group))))
            <= classification_rank(endpoint_max),
        !spec_is_pqc_hybrid(group) ==> classification_min(
            endpoint_max,
            spec_permits(spec_from_group(group)),
        ) == Classification::Public,
{
}

} // verus!
