//! The information barrier: custody records, boundary flows, verdicts, and the
//! deterministic identity of a finding.
use vstd::prelude::*;
use crate::classification::{ChannelStrength, Classification, NamedGroup};
use crate::crypto::DualSignature;
use crate::ids::{
    DatumRef, FindingId, Host, ModelEndpointId, OriginId, ResourcePath, RiskAcceptanceId, Timestamp,
};
use crate::personal_data::{Purpose, RetentionPeriod};
use crate::text::{decimal, push_decimal, push_lit, string_of};

verus! {

/// The condition a barrier finding reports.
#[derive(Debug, Clone, Copy, PartialEq, Eq, Structural)]
pub enum BarrierCondition {
    MissingCustodyRecord,
    DatumMismatch,
    SignatureInvalid,
    Expired,
    ClassificationMismatch,
    UnauthorizedDestination,
    ChannelStrengthCollapse,
    PersonalDataUndeclared,
}

/// A denial's finding: which datum, which condition, and context.
#[derive(Debug, Clone, PartialEq, Eq)]
pub struct BarrierFinding {
    pub datum: DatumRef,
    pub condition: BarrierCondition,
    pub classification: Classification,
    pub reason: String,
}

/// The stable tag of a condition.
pub open spec fn condition_tag_spec(c: BarrierCondition) -> Seq<char> {
    match c {
        BarrierCondition::MissingCustodyRecord => "missing-custody-record"@,
        BarrierCondition::DatumMismatch => "datum-mismatch"@,
        BarrierCondition::SignatureInvalid => "signature-invalid"@,
        BarrierCondition::Expired => "expired"@,
        BarrierCondition::ClassificationMismatch => "classification-mismatch"@,
        BarrierCondition::UnauthorizedDestination => "unauthorized-destination"@,
        BarrierCondition::ChannelStrengthCollapse => "channel-strength-collapse"@,
        BarrierCondition::PersonalDataUndeclared => "personal-data-undeclared"@,
    }
}

fn condition_tag(c: BarrierCondition) -> (r: &'static str)
    ensures
        r@ == condition_tag_spec(c),
{
    match c {
        BarrierCondition::MissingCustodyRecord => "missing-custody-record",
        BarrierCondition::DatumMismatch => "datum-mismatch",
        BarrierCondition::SignatureInvalid => "signature-invalid",
        BarrierCondition::Expired => "expired",
        BarrierCondition::ClassificationMismatch => "classification-mismatch",
        BarrierCondition::UnauthorizedDestination => "unauthorized-destination",
        BarrierCondition::ChannelStrengthCollapse => "channel-strength-collapse",
        BarrierCondition::PersonalDataUndeclared => "personal-data-undeclared",
    }
}

/// The identifier of a finding: the datum's byte length in decimal, the datum, and the
/// condition's tag, separated by colons.
pub open spec fn finding_id_spec(datum: Seq<char>, c: BarrierCondition) -> Seq<char> {
    decimal(crate::canon::utf8(datum).len()) + seq![':'] + datum + seq![':'] + condition_tag_spec(c)
}

impl BarrierFinding {
    /// The deterministic identity of this finding: it depends on the datum and the
    /// condition only, never on the classification or the reason.
    pub fn finding_id(&self) -> (r: FindingId)
        ensures
            r.0@ == finding_id_spec(self.datum.0@, self.condition),
    {
        let d = self.datum.as_str();
        let n = d.as_bytes().len();
        let mut out: Vec<char> = Vec::new();
        push_decimal(&mut out, n as u64);
        out.push(':');
        push_lit(&mut out, d);
        out.push(':');
        push_lit(&mut out, condition_tag(self.condition));
        assert(out@ =~= finding_id_spec(self.datum.0@, self.condition));
        FindingId(string_of(out.as_slice()))
    }
}

pub proof fn lemma_decimal_digits(n: nat)
    ensures
        !decimal(n).contains(':'),
    decreases n,
{
    if n >= 10 {
        lemma_decimal_digits(n / 10);
        assert forall|i: int| 0 <= i < decimal(n).len() implies decimal(n)[i] != ':' by {
            if i < decimal(n / 10).len() {
                assert(decimal(n)[i] == decimal(n / 10)[i]);
            }
        }
    }
}

/// Splitting at the first colon: two strings that each begin with a colon-free part
/// followed by a colon agree only if the parts and the rests agree.
proof fn lemma_first_colon(a: Seq<char>, x: Seq<char>, b: Seq<char>, y: Seq<char>)
    requires
        !a.contains(':'),
        !b.contains(':'),
        a + seq![':'] + x == b + seq![':'] + y,
    ensures
        a == b,
        x == y,
{
    let l = a + seq![':'] + x;
    let r = b + seq![':'] + y;
    if a.len() < b.len() {
        assert(l[a.len() as int] == ':');
        assert(r[a.len() as int] == b[a.len() as int]);
        assert(b.contains(':'));
    } else if b.len() < a.len() {
        assert(r[b.len() as int] == ':');
        assert(l[b.len() as int] == a[b.len() as int]);
        assert(a.contains(':'));
    } else {
        assert(a =~= l.subrange(0, a.len() as int));
        assert(b =~= r.subrange(0, b.len() as int));
        assert(x =~= l.subrange(a.len() as int + 1, l.len() as int));
        assert(y =~= r.subrange(b.len() as int + 1, r.len() as int));
    }
}

/// Splitting at the last colon: two strings that each end with a colon and a colon-free
/// part agree only if the parts and the beginnings agree.
proof fn lemma_last_colon(x: Seq<char>, a: Seq<char>, y: Seq<char>, b: Seq<char>)
    requires
        !a.contains(':'),
        !b.contains(':'),
        x + seq![':'] + a == y + seq![':'] + b,
    ensures
        a == b,
        x == y,
{
    let l = x + seq![':'] + a;
    let r = y + seq![':'] + b;
    if a.len() < b.len() {
        let k = l.len() - a.len() - 1;
        assert(l[k] == ':');
        assert(r[k] == b[k - y.len() - 1]);
        assert(b.contains(':'));
    } else if b.len() < a.len() {
        let k = r.len() - b.len() - 1;
        assert(r[k] == ':');
        assert(l[k] == a[k - x.len() - 1]);
        assert(a.contains(':'));
    } else {
        assert(x =~= l.subrange(0, x.len() as int));
        assert(y =~= r.subrange(0, y.len() as int));
        assert(a =~= l.subrange(x.len() as int + 1, l.len() as int));
        assert(b =~= r.subrange(y.len() as int + 1, r.len() as int));
    }
}

proof fn lemma_tags_colon_free(c: BarrierCondition)
    ensures
        !condition_tag_spec(c).contains(':'),
{
    reveal_strlit("missing-custody-record");
    reveal_strlit("datum-mismatch");
    reveal_strlit("signature-invalid");
    reveal_strlit("expired");
    reveal_strlit("classification-mismatch");
    reveal_strlit("unauthorized-destination");
    reveal_strlit("channel-strength-collapse");
    reveal_strlit("personal-data-undeclared");
}

/// Finding identities are injective over datum and condition: two findings share an
/// identity only when they concern the same datum under the same condition.
pub proof fn lemma_finding_id_injective(
    d1: Seq<char>,
    c1: BarrierCondition,
    d2: Seq<char>,
    c2: BarrierCondition,
)
    requires
        finding_id_spec(d1, c1) == finding_id_spec(d2, c2),
    ensures
        d1 == d2,
        c1 == c2,
{
    let n1 = decimal(crate::canon::utf8(d1).len());
    let n2 = decimal(crate::canon::utf8(d2).len());
    let t1 = condition_tag_spec(c1);
    let t2 = condition_tag_spec(c2);
    lemma_decimal_digits(crate::canon::utf8(d1).len());
    lemma_decimal_digits(crate::canon::utf8(d2).len());
    lemma_tags_colon_free(c1);
    lemma_tags_colon_free(c2);
    assert(finding_id_spec(d1, c1) =~= n1 + seq![':'] + (d1 + seq![':'] + t1));
    assert(finding_id_spec(d2, c2) =~= n2 + seq![':'] + (d2 + seq![':'] + t2));
    lemma_first_colon(n1, d1 + seq![':'] + t1, n2, d2 + seq![':'] + t2);
    lemma_last_colon(d1, t1, d2, t2);
    assert(t1.len() == t2.len());
    assert(t1[0] == t2[0]);
    reveal_strlit("missing-custody-record");
    reveal_strlit("datum-mismatch");
    reveal_strlit("signature-invalid");
    reveal_strlit("expired");
    reveal_strlit("classification-mismatch");
    reveal_strlit("unauthorized-destination");
    reveal_strlit("channel-strength-collapse");
    reveal_strlit("personal-data-undeclared");
}

/// The barrier's verdict on a flow.
#[derive(Debug, Clone, PartialEq, Eq)]
pub enum BarrierVerdict {
    Allow,
    Deny { finding: BarrierFinding },
    Quarantine { datum: DatumRef },
    AcceptedRisk { entry: RiskAcceptanceId },
}

/// Where a flow goes, with the channel it would use.
#[derive(Debug, Clone, PartialEq, Eq)]
pub enum Destination {
    LocalPath(ResourcePath),
    Network { host: Host, channel: ChannelStrength },
    Reasoner { endpoint: ModelEndpointId, negotiated: NamedGroup },
}

/// A destination as a custody record authorizes it (no channel).
#[derive(Debug, Clone, PartialEq, Eq)]
pub enum DestinationClass {
    LocalPath(ResourcePath),
    Network { host: Host },
    Reasoner { endpoint: ModelEndpointId },
}

#[derive(Debug, Clone, Copy, PartialEq, Eq, Structural)]
pub enum ContextClass {
    Privileged,
    NonPrivileged,
}

#[derive(Debug, Clone, PartialEq, Eq)]
pub struct PersonalDataTag {
    pub purpose: Purpose,
    pub retention: RetentionPeriod,
}

/// A signed record of a datum's custody: its classification, origin, authorized
/// destinations and validity window.
#[derive(Debug, Clone, PartialEq, Eq)]
pub struct BoundaryCustodyRecord {
    pub datum: DatumRef,
    pub classification: Classification,
    pub origin: OriginId,
    pub authorized: Vec<DestinationClass>,
    pub personal: Option<PersonalDataTag>,
    pub issued: Timestamp,
    pub expiry: Timestamp,
    pub signature: DualSignature,
}

/// A flow across the boundary.
#[derive(Debug, Clone, PartialEq, Eq)]
pub enum BoundaryFlow {
    Egress {
        datum: DatumRef,
        classification: Classification,
        personal: Option<PersonalDataTag>,
        destination: Destination,
        bcr: Option<BoundaryCustodyRecord>,
    },
    Ingress {
        datum: DatumRef,
        personal: Option<PersonalDataTag>,
        bcr: Option<BoundaryCustodyRecord>,
        context: ContextClass,
    },
}

/// Evaluates boundary flows at a call-site `now`.
pub trait Barrier {
    fn evaluate(&self, flow: &BoundaryFlow, now: Timestamp) -> BarrierVerdict;
}

} // verus!
