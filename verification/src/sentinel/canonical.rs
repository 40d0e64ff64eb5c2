//! Canonical encodings of the sentinel's signed objects: the Self Set corpus, tolerance
//! grants and signals, each under its own domain tag.
use vstd::prelude::*;
use crate::barrier::{
    BarrierCondition, BarrierFinding, BarrierVerdict, BoundaryCustodyRecord, BoundaryFlow,
    ContextClass, Destination, DestinationClass, PersonalDataTag,
};
use crate::canon::{Canon, be8, enc_each, enc_list, lemma_enc_each_step, lemma_tagged_apart, lps};
use crate::genome::{Genome, ToolGenome};
use crate::regin::canonical::{
    domain_genome, domain_tools, genome_content, lemma_genome_tagged, lemma_tools_tagged,
    tools_content,
};
use vstd::utf8::is_ascii_chars;
use crate::classification::{ChannelStrength, Classification};
use crate::durations::{duration_nanos, duration_secs, nanos_of, secs_of};
use crate::gate::{Action, AnergyReason};
use crate::ids::OrganId;
use crate::regin::canonical::{classification_code, group_code};
use crate::sentinel::observation::Observation;
use crate::signal::{PostureEffect, Severity, Signal, SignalClass};
use crate::skuld::canonical::{dual_enc, write_dual_signature};
use crate::tolerance::ToleranceGrant;

verus! {

pub open spec fn domain_corpus() -> Seq<char> {
    "brokkr-sentinel:corpus:v1"@
}

pub open spec fn domain_grant() -> Seq<char> {
    "brokkr-sentinel:tolerance-grant:v1"@
}

pub open spec fn domain_signal() -> Seq<char> {
    "brokkr-sentinel:signal:v1"@
}

pub open spec fn condition_code(c: BarrierCondition) -> u8 {
    match c {
        BarrierCondition::MissingCustodyRecord => 1,
        BarrierCondition::DatumMismatch => 2,
        BarrierCondition::SignatureInvalid => 3,
        BarrierCondition::Expired => 4,
        BarrierCondition::ClassificationMismatch => 5,
        BarrierCondition::UnauthorizedDestination => 6,
        BarrierCondition::ChannelStrengthCollapse => 7,
        BarrierCondition::PersonalDataUndeclared => 8,
    }
}

pub open spec fn channel_code(c: ChannelStrength) -> u8 {
    match c {
        ChannelStrength::Classical => 1,
        ChannelStrength::PqcHybrid768 => 2,
        ChannelStrength::PqcHybrid1024 => 3,
    }
}

pub open spec fn context_code(c: ContextClass) -> u8 {
    match c {
        ContextClass::Privileged => 1,
        ContextClass::NonPrivileged => 2,
    }
}

pub open spec fn organ_code(o: OrganId) -> u8 {
    match o {
        OrganId::Genome => 1,
        OrganId::Intent => 2,
        OrganId::Gate => 3,
        OrganId::Barrier => 4,
        OrganId::Sentinel => 5,
        OrganId::Resolution => 6,
        OrganId::Adapt => 7,
        OrganId::Audit => 8,
        OrganId::Bifrost => 9,
        OrganId::Reasoner => 10,
    }
}

pub open spec fn signal_class_code(c: SignalClass) -> u8 {
    match c {
        SignalClass::ThreatDetected => 1,
        SignalClass::PostureRaiseRequest => 2,
        SignalClass::StateChangeNotice => 3,
    }
}

pub open spec fn severity_code(s: Severity) -> u8 {
    match s {
        Severity::Info => 1,
        Severity::Low => 2,
        Severity::Medium => 3,
        Severity::High => 4,
        Severity::Critical => 5,
    }
}

pub open spec fn anergy_code(r: AnergyReason) -> u8 {
    match r {
        AnergyReason::IdentityUnverified => 1,
        AnergyReason::ChainInvalid => 2,
        AnergyReason::OutOfScope => 3,
        AnergyReason::InvariantViolated => 4,
        AnergyReason::ChainExpired => 5,
    }
}

fn condition_tag(c: BarrierCondition) -> (r: u8)
    ensures
        r == condition_code(c),
{
    match c {
        BarrierCondition::MissingCustodyRecord => 1,
        BarrierCondition::DatumMismatch => 2,
        BarrierCondition::SignatureInvalid => 3,
        BarrierCondition::Expired => 4,
        BarrierCondition::ClassificationMismatch => 5,
        BarrierCondition::UnauthorizedDestination => 6,
        BarrierCondition::ChannelStrengthCollapse => 7,
        BarrierCondition::PersonalDataUndeclared => 8,
    }
}

fn channel_tag(c: ChannelStrength) -> (r: u8)
    ensures
        r == channel_code(c),
{
    match c {
        ChannelStrength::Classical => 1,
        ChannelStrength::PqcHybrid768 => 2,
        ChannelStrength::PqcHybrid1024 => 3,
    }
}

fn context_tag(c: ContextClass) -> (r: u8)
    ensures
        r == context_code(c),
{
    match c {
        ContextClass::Privileged => 1,
        ContextClass::NonPrivileged => 2,
    }
}

fn organ_tag(o: OrganId) -> (r: u8)
    ensures
        r == organ_code(o),
{
    match o {
        OrganId::Genome => 1,
        OrganId::Intent => 2,
        OrganId::Gate => 3,
        OrganId::Barrier => 4,
        OrganId::Sentinel => 5,
        OrganId::Resolution => 6,
        OrganId::Adapt => 7,
        OrganId::Audit => 8,
        OrganId::Bifrost => 9,
        OrganId::Reasoner => 10,
    }
}

fn signal_class_tag(c: SignalClass) -> (r: u8)
    ensures
        r == signal_class_code(c),
{
    match c {
        SignalClass::ThreatDetected => 1,
        SignalClass::PostureRaiseRequest => 2,
        SignalClass::StateChangeNotice => 3,
    }
}

fn severity_tag(s: Severity) -> (r: u8)
    ensures
        r == severity_code(s),
{
    match s {
        Severity::Info => 1,
        Severity::Low => 2,
        Severity::Medium => 3,
        Severity::High => 4,
        Severity::Critical => 5,
    }
}

fn anergy_tag(r: AnergyReason) -> (t: u8)
    ensures
        t == anergy_code(r),
{
    match r {
        AnergyReason::IdentityUnverified => 1,
        AnergyReason::ChainInvalid => 2,
        AnergyReason::OutOfScope => 3,
        AnergyReason::InvariantViolated => 4,
        AnergyReason::ChainExpired => 5,
    }
}

fn class_tag(c: Classification) -> (r: u8)
    ensures
        r == classification_code(c),
{
    match c {
        Classification::Public => 1,
        Classification::Internal => 2,
        Classification::Cui => 3,
        Classification::Secret => 4,
    }
}

pub open spec fn personal_enc(p: Option<PersonalDataTag>) -> Seq<u8> {
    match p {
        None => seq![0u8],
        Some(tag) => seq![1u8] + lps(tag.purpose.description@) + be8(
            duration_secs(tag.retention.duration),
        ) + be8(duration_nanos(tag.retention.duration) as u64),
    }
}

pub open spec fn destination_class_enc(d: DestinationClass) -> Seq<u8> {
    match d {
        DestinationClass::LocalPath(path) => seq![1u8] + lps(path.0@),
        DestinationClass::Network { host } => seq![2u8] + lps(host.0@),
        DestinationClass::Reasoner { endpoint } => seq![3u8] + lps(endpoint.0@),
    }
}

pub open spec fn destination_class_fn() -> spec_fn(DestinationClass) -> Seq<u8> {
    |d: DestinationClass| destination_class_enc(d)
}

pub open spec fn destination_enc(d: Destination) -> Seq<u8> {
    match d {
        Destination::LocalPath(path) => seq![1u8] + lps(path.0@),
        Destination::Network { host, channel } => seq![2u8] + lps(host.0@) + seq![
            channel_code(channel),
        ],
        Destination::Reasoner { endpoint, negotiated } => seq![3u8] + lps(endpoint.0@) + seq![
            group_code(negotiated),
        ],
    }
}

pub open spec fn bcr_enc(b: BoundaryCustodyRecord) -> Seq<u8> {
    lps(b.datum.0@) + seq![classification_code(b.classification)] + lps(b.origin.0@) + enc_list(
        b.authorized@,
        destination_class_fn(),
    ) + personal_enc(b.personal) + be8(b.issued.0) + be8(b.expiry.0) + dual_enc(b.signature)
}

pub open spec fn opt_bcr_enc(b: Option<BoundaryCustodyRecord>) -> Seq<u8> {
    match b {
        None => seq![0u8],
        Some(r) => seq![1u8] + bcr_enc(r),
    }
}

pub open spec fn finding_enc(f: BarrierFinding) -> Seq<u8> {
    lps(f.datum.0@) + seq![condition_code(f.condition)] + seq![classification_code(f.classification)]
        + lps(f.reason@)
}

pub open spec fn verdict_enc(v: BarrierVerdict) -> Seq<u8> {
    match v {
        BarrierVerdict::Allow => seq![1u8],
        BarrierVerdict::Deny { finding } => seq![2u8] + finding_enc(finding),
        BarrierVerdict::Quarantine { datum } => seq![3u8] + lps(datum.0@),
        BarrierVerdict::AcceptedRisk { entry } => seq![4u8] + lps(entry.0@),
    }
}

pub open spec fn flow_enc(f: BoundaryFlow) -> Seq<u8> {
    match f {
        BoundaryFlow::Egress { datum, classification, personal, destination, bcr } => seq![1u8]
            + lps(datum.0@) + seq![classification_code(classification)] + personal_enc(personal)
            + destination_enc(destination) + opt_bcr_enc(bcr),
        BoundaryFlow::Ingress { datum, personal, bcr, context } => seq![2u8] + lps(datum.0@)
            + personal_enc(personal) + opt_bcr_enc(bcr) + seq![context_code(context)],
    }
}

pub open spec fn action_enc(a: Action) -> Seq<u8> {
    lps(a.tool.0@) + lps(a.detail@)
}

pub open spec fn signal_body_enc(s: Signal) -> Seq<u8> {
    seq![organ_code(s.source), signal_class_code(s.class), severity_code(s.severity)] + match s.effect {
        PostureEffect::Raise { detail } => seq![1u8] + lps(detail@),
    } + lps(s.scope.detail@) + be8(s.nonce.0) + be8(s.expiry.0)
}

pub open spec fn observation_enc(o: Observation) -> Seq<u8> {
    match o {
        Observation::Crossing { flow, verdict } => seq![1u8] + flow_enc(flow) + verdict_enc(verdict),
        Observation::Authorization { action, granted, anergy } => seq![2u8] + action_enc(action)
            + seq![if granted { 1u8 } else { 0u8 }] + match anergy {
            None => seq![0u8],
            Some(r) => seq![1u8, anergy_code(r)],
        },
        Observation::Signalled { signal } => seq![3u8] + signal_body_enc(signal) + dual_enc(
            signal.signature,
        ),
        Observation::Hop { authorized, executed } => seq![4u8] + action_enc(authorized) + match executed {
            None => seq![0u8],
            Some(a) => seq![1u8] + action_enc(a),
        },
    }
}

pub open spec fn observation_fn() -> spec_fn(Observation) -> Seq<u8> {
    |o: Observation| observation_enc(o)
}

/// The signed content of a Self Set corpus.
pub open spec fn corpus_content(obs: Seq<Observation>) -> Seq<u8> {
    lps(domain_corpus()) + enc_list(obs, observation_fn())
}

/// The signed content of a tolerance grant.
pub open spec fn grant_content(g: ToleranceGrant) -> Seq<u8> {
    lps(domain_grant()) + lps(g.target.0@) + lps(g.scope.detail@) + lps(g.dap.name@) + lps(g.dap.id@)
        + be8(g.issued.0) + be8(g.expiry.0)
}

/// The signed content of a signal.
pub open spec fn signal_content(s: Signal) -> Seq<u8> {
    lps(domain_signal()) + signal_body_enc(s)
}

fn write_personal(c: &mut Canon, p: &Option<PersonalDataTag>)
    ensures
        final(c).buf@ == old(c).buf@ + personal_enc(*p),
{
    match p {
        None => c.put_u8(0),
        Some(tag) => {
            c.put_u8(1);
            c.put_str(tag.purpose.description.as_str());
            c.put_u64(secs_of(&tag.retention.duration));
            c.put_u64(nanos_of(&tag.retention.duration) as u64);
        },
    }
    assert(final(c).buf@ =~= old(c).buf@ + personal_enc(*p));
}

fn write_destination_class(c: &mut Canon, d: &DestinationClass)
    ensures
        final(c).buf@ == old(c).buf@ + destination_class_enc(*d),
{
    match d {
        DestinationClass::LocalPath(path) => {
            c.put_u8(1);
            c.put_str(path.as_str());
        },
        DestinationClass::Network { host } => {
            c.put_u8(2);
            c.put_str(host.as_str());
        },
        DestinationClass::Reasoner { endpoint } => {
            c.put_u8(3);
            c.put_str(endpoint.as_str());
        },
    }
    assert(final(c).buf@ =~= old(c).buf@ + destination_class_enc(*d));
}

fn write_destination(c: &mut Canon, d: &Destination)
    ensures
        final(c).buf@ == old(c).buf@ + destination_enc(*d),
{
    match d {
        Destination::LocalPath(path) => {
            c.put_u8(1);
            c.put_str(path.as_str());
        },
        Destination::Network { host, channel } => {
            c.put_u8(2);
            c.put_str(host.as_str());
            c.put_u8(channel_tag(*channel));
        },
        Destination::Reasoner { endpoint, negotiated } => {
            c.put_u8(3);
            c.put_str(endpoint.as_str());
            c.put_u8(group_tag_of(*negotiated));
        },
    }
    assert(final(c).buf@ =~= old(c).buf@ + destination_enc(*d));
}

fn group_tag_of(g: crate::classification::NamedGroup) -> (r: u8)
    ensures
        r == group_code(g),
{
    match g {
        crate::classification::NamedGroup::X25519 => 1,
        crate::classification::NamedGroup::Secp384r1 => 2,
        crate::classification::NamedGroup::X25519MlKem768 => 3,
        crate::classification::NamedGroup::Secp384r1MlKem1024 => 4,
    }
}

fn write_bcr(c: &mut Canon, b: &BoundaryCustodyRecord)
    ensures
        final(c).buf@ == old(c).buf@ + bcr_enc(*b),
{
    let ghost start = c.buf@;
    c.put_str(b.datum.as_str());
    c.put_u8(class_tag(b.classification));
    c.put_str(b.origin.as_str());
    let ghost mid = c.buf@;
    c.put_u64(b.authorized.len() as u64);
    let mut i: usize = 0;
    while i < b.authorized.len()
        invariant
            0 <= i <= b.authorized@.len(),
            c.buf@ == mid + be8(b.authorized@.len() as u64) + enc_each(
                b.authorized@.subrange(0, i as int),
                destination_class_fn(),
            ),
        decreases b.authorized@.len() - i,
    {
        write_destination_class(c, &b.authorized[i]);
        proof {
            lemma_enc_each_step(b.authorized@, destination_class_fn(), i as int);
        }
        assert(destination_class_fn()(b.authorized@[i as int]) == destination_class_enc(
            b.authorized@[i as int],
        ));
        assert(c.buf@ =~= mid + be8(b.authorized@.len() as u64) + enc_each(
            b.authorized@.subrange(0, i + 1),
            destination_class_fn(),
        ));
        i = i + 1;
    }
    assert(b.authorized@.subrange(0, b.authorized@.len() as int) =~= b.authorized@);
    write_personal(c, &b.personal);
    c.put_u64(b.issued.0);
    c.put_u64(b.expiry.0);
    write_dual_signature(c, &b.signature);
    assert(c.buf@ =~= start + bcr_enc(*b));
}

fn write_opt_bcr(c: &mut Canon, b: &Option<BoundaryCustodyRecord>)
    ensures
        final(c).buf@ == old(c).buf@ + opt_bcr_enc(*b),
{
    match b {
        None => c.put_u8(0),
        Some(r) => {
            c.put_u8(1);
            write_bcr(c, r);
        },
    }
    assert(final(c).buf@ =~= old(c).buf@ + opt_bcr_enc(*b));
}

fn write_verdict(c: &mut Canon, v: &BarrierVerdict)
    ensures
        final(c).buf@ == old(c).buf@ + verdict_enc(*v),
{
    match v {
        BarrierVerdict::Allow => c.put_u8(1),
        BarrierVerdict::Deny { finding } => {
            c.put_u8(2);
            c.put_str(finding.datum.as_str());
            c.put_u8(condition_tag(finding.condition));
            c.put_u8(class_tag(finding.classification));
            c.put_str(finding.reason.as_str());
        },
        BarrierVerdict::Quarantine { datum } => {
            c.put_u8(3);
            c.put_str(datum.as_str());
        },
        BarrierVerdict::AcceptedRisk { entry } => {
            c.put_u8(4);
            c.put_str(entry.as_str());
        },
    }
    assert(final(c).buf@ =~= old(c).buf@ + verdict_enc(*v));
}

#[verifier::spinoff_prover]
fn write_flow(c: &mut Canon, f: &BoundaryFlow)
    ensures
        final(c).buf@ == old(c).buf@ + flow_enc(*f),
{
    let ghost start = c.buf@;
    match f {
        BoundaryFlow::Egress { datum, classification, personal, destination, bcr } => {
            c.put_u8(1);
            c.put_str(datum.as_str());
            c.put_u8(class_tag(*classification));
            write_personal(c, personal);
            write_destination(c, destination);
            write_opt_bcr(c, bcr);
            assert(c.buf@ =~= start + flow_enc(*f));
        },
        BoundaryFlow::Ingress { datum, personal, bcr, context } => {
            c.put_u8(2);
            c.put_str(datum.as_str());
            write_personal(c, personal);
            write_opt_bcr(c, bcr);
            c.put_u8(context_tag(*context));
            assert(c.buf@ =~= start + flow_enc(*f));
        },
    }
}

fn write_action(c: &mut Canon, a: &Action)
    ensures
        final(c).buf@ == old(c).buf@ + action_enc(*a),
{
    c.put_str(a.tool.as_str());
    c.put_str(a.detail.as_str());
    assert(final(c).buf@ =~= old(c).buf@ + action_enc(*a));
}

fn write_signal_body(c: &mut Canon, s: &Signal)
    ensures
        final(c).buf@ == old(c).buf@ + signal_body_enc(*s),
{
    c.put_u8(organ_tag(s.source));
    c.put_u8(signal_class_tag(s.class));
    c.put_u8(severity_tag(s.severity));
    match &s.effect {
        PostureEffect::Raise { detail } => {
            c.put_u8(1);
            c.put_str(detail.as_str());
        },
    }
    c.put_str(s.scope.detail.as_str());
    c.put_u64(s.nonce.0);
    c.put_u64(s.expiry.0);
    assert(final(c).buf@ =~= old(c).buf@ + signal_body_enc(*s));
}

fn write_observation(c: &mut Canon, o: &Observation)
    ensures
        final(c).buf@ == old(c).buf@ + observation_enc(*o),
{
    match o {
        Observation::Crossing { flow, verdict } => {
            c.put_u8(1);
            write_flow(c, flow);
            write_verdict(c, verdict);
        },
        Observation::Authorization { action, granted, anergy } => {
            c.put_u8(2);
            write_action(c, action);
            c.put_u8(
                if *granted {
                    1
                } else {
                    0
                },
            );
            match anergy {
                None => c.put_u8(0),
                Some(r) => {
                    c.put_u8(1);
                    c.put_u8(anergy_tag(*r));
                },
            }
        },
        Observation::Signalled { signal } => {
            c.put_u8(3);
            write_signal_body(c, signal);
            write_dual_signature(c, &signal.signature);
        },
        Observation::Hop { authorized, executed } => {
            c.put_u8(4);
            write_action(c, authorized);
            match executed {
                None => c.put_u8(0),
                Some(a) => {
                    c.put_u8(1);
                    write_action(c, a);
                },
            }
        },
    }
    assert(final(c).buf@ =~= old(c).buf@ + observation_enc(*o));
}

/// Domain separation across organs: a Self Set corpus's signed content is never the signed
/// content of a tool register or of a genome, whatever either holds, so a DAP signature over
/// one can never be presented as a signature over another.
pub proof fn lemma_corpus_domain_separated(obs: Seq<Observation>, t: ToolGenome, g: Genome)
    ensures
        corpus_content(obs) != tools_content(t),
        corpus_content(obs) != genome_content(g),
{
    reveal_strlit("brokkr-sentinel:corpus:v1");
    reveal_strlit("brokkr-genome:tools:v1");
    reveal_strlit("brokkr-genome:genome:v1");
    assert(is_ascii_chars(domain_corpus()));
    assert(is_ascii_chars(domain_tools()));
    assert(is_ascii_chars(domain_genome()));
    assert(domain_corpus()[7] != domain_tools()[7]);
    assert(domain_corpus()[7] != domain_genome()[7]);
    assert(corpus_content(obs).subrange(0, lps(domain_corpus()).len() as int) =~= lps(domain_corpus()));
    lemma_tools_tagged(t);
    lemma_genome_tagged(g);
    lemma_tagged_apart(domain_corpus(), domain_tools(), corpus_content(obs), tools_content(t));
    lemma_tagged_apart(domain_corpus(), domain_genome(), corpus_content(obs), genome_content(g));
}

/// The signed content of a Self Set corpus: the domain tag, then the counted list of
/// observations.
pub fn corpus_signed_content(observations: &[Observation]) -> (out: Vec<u8>)
    ensures
        out@ == corpus_content(observations@),
{
    let mut c = Canon::new();
    c.put_str("brokkr-sentinel:corpus:v1");
    let ghost mid = c.buf@;
    c.put_u64(observations.len() as u64);
    let mut i: usize = 0;
    while i < observations.len()
        invariant
            0 <= i <= observations@.len(),
            c.buf@ == mid + be8(observations@.len() as u64) + enc_each(
                observations@.subrange(0, i as int),
                observation_fn(),
            ),
        decreases observations@.len() - i,
    {
        write_observation(&mut c, &observations[i]);
        proof {
            lemma_enc_each_step(observations@, observation_fn(), i as int);
        }
        assert(observation_fn()(observations@[i as int]) == observation_enc(observations@[i as int]));
        assert(c.buf@ =~= mid + be8(observations@.len() as u64) + enc_each(
            observations@.subrange(0, i + 1),
            observation_fn(),
        ));
        i = i + 1;
    }
    assert(observations@.subrange(0, observations@.len() as int) =~= observations@);
    assert(c.buf@ =~= corpus_content(observations@));
    c.finish()
}

/// The signed content of a tolerance grant.
pub fn grant_signed_content(g: &ToleranceGrant) -> (out: Vec<u8>)
    ensures
        out@ == grant_content(*g),
{
    let mut c = Canon::new();
    c.put_str("brokkr-sentinel:tolerance-grant:v1");
    c.put_str(g.target.as_str());
    c.put_str(g.scope.detail.as_str());
    c.put_str(g.dap.name.as_str());
    c.put_str(g.dap.id.as_str());
    c.put_u64(g.issued.0);
    c.put_u64(g.expiry.0);
    assert(c.buf@ =~= grant_content(*g));
    c.finish()
}

/// The signed content of a signal: the domain tag, then its body (without signature).
pub fn signal_signed_content(s: &Signal) -> (out: Vec<u8>)
    ensures
        out@ == signal_content(*s),
{
    let mut c = Canon::new();
    c.put_str("brokkr-sentinel:signal:v1");
    write_signal_body(&mut c, s);
    assert(c.buf@ =~= signal_content(*s));
    c.finish()
}

} // verus!
