//! The promotion gate. Every predicate is evaluated and every finding reported: the
//! registers' and the genome's signatures under the DAP key, disallowed algorithms,
//! trust-score freshness, the capability vocabulary of tools and invariants, key custody
//! against the declared tier, and evidence behind measured factors.
use vstd::prelude::*;
use crate::backend::primitives::{MLDSA65_PUBLIC_LEN, SLH192S_PUBLIC_LEN};
use crate::backend::sign::{DualPublicKey, dual_verdict, verify_dual_under};
use crate::capability::ConformanceTier;
use crate::crypto::DualSignature;
use crate::genome::{
    AlgorithmId, DualControl, Genome, InvariantEntry, KeyCustody, ModelEndpoint, ToolEntry,
    quorum_verdict,
};
use crate::ids::Timestamp;
use crate::intent::Capability;
use crate::regin::canonical::{
    aibom_content, aibom_signed_content, cbom_content, cbom_signed_content, endpoints_content,
    endpoints_signed_content, genome_content, genome_signed_content, policy_content,
    policy_signed_content, roots_content, roots_signed_content, tools_content, tools_signed_content,
};
use crate::regin::verdict::{CustodyShortfall, Finding, PromotionVerdict, Register};
use crate::sset::{contains_text, texts};

verus! {

/// Ninety days in milliseconds: the oldest a trust-score review may be.
pub const NINETY_DAYS_MS: u64 = 7_776_000_000;

/// One year in milliseconds: the oldest a custody rehearsal may be.
pub const ONE_YEAR_MS: u64 = 31_536_000_000;

/// Whether a signature over `content` verifies under the DAP key.
pub open spec fn signed_ok(key: (Seq<u8>, Seq<u8>), content: Seq<u8>, sig: DualSignature) -> bool {
    dual_verdict(key.0, key.1, content, sig) is Ok
}

pub open spec fn when(c: bool, f: Finding) -> Seq<Finding> {
    if c {
        seq![f]
    } else {
        Seq::empty()
    }
}

/// Predicate 2, for the `k`-th signature checked: the tool, CBOM, AIBOM, endpoint, roots
/// and policy registers, then the genome.
pub open spec fn signature_check(g: Genome, key: (Seq<u8>, Seq<u8>), k: int) -> Seq<Finding> {
    if k == 0 {
        when(
            !signed_ok(key, tools_content(g.tools), g.tools.signature),
            Finding::RegisterSignatureInvalid { register: Register::Tools },
        )
    } else if k == 1 {
        when(
            !signed_ok(key, cbom_content(g.cbom), g.cbom.signature),
            Finding::RegisterSignatureInvalid { register: Register::Cbom },
        )
    } else if k == 2 {
        when(
            !signed_ok(key, aibom_content(g.aibom), g.aibom.signature),
            Finding::RegisterSignatureInvalid { register: Register::Aibom },
        )
    } else if k == 3 {
        when(
            !signed_ok(key, endpoints_content(g.endpoints), g.endpoints.signature),
            Finding::RegisterSignatureInvalid { register: Register::Endpoints },
        )
    } else if k == 4 {
        when(
            !signed_ok(key, roots_content(g.roots), g.roots.signature),
            Finding::RegisterSignatureInvalid { register: Register::Roots },
        )
    } else if k == 5 {
        when(
            !signed_ok(key, policy_content(g.policy), g.policy.signature),
            Finding::RegisterSignatureInvalid { register: Register::Policy },
        )
    } else {
        when(!signed_ok(key, genome_content(g), g.signature), Finding::GenomeSignatureInvalid)
    }
}

/// The findings of the first `n` signature checks.
pub open spec fn signature_prefix(g: Genome, key: (Seq<u8>, Seq<u8>), n: int) -> Seq<Finding>
    decreases n,
{
    if n <= 0 {
        Seq::empty()
    } else {
        signature_prefix(g, key, n - 1) + signature_check(g, key, n - 1)
    }
}

/// Predicate 2: each register's signature, then the genome's.
pub open spec fn signature_findings(g: Genome, key: (Seq<u8>, Seq<u8>)) -> Seq<Finding> {
    signature_prefix(g, key, 7)
}

proof fn lemma_signature_prefix_empty(g: Genome, key: (Seq<u8>, Seq<u8>), n: int)
    requires
        signature_prefix(g, key, n).len() == 0,
        n >= 0,
    ensures
        forall|k: int| 0 <= k < n ==> (#[trigger] signature_check(g, key, k)).len() == 0,
    decreases n,
{
    if n > 0 {
        lemma_signature_prefix_empty(g, key, n - 1);
    }
}

/// Predicate 3: each declared algorithm the policy disallows, in declaration order.
pub open spec fn disallowed_findings(algs: Seq<AlgorithmId>, disallowed: Seq<AlgorithmId>) -> Seq<
    Finding,
>
    decreases algs.len(),
{
    if algs.len() == 0 {
        Seq::empty()
    } else {
        disallowed_findings(algs.drop_last(), disallowed) + when(
            disallowed.contains(algs.last()),
            Finding::DisallowedAlgorithm { algorithm: algs.last() },
        )
    }
}

/// Predicate 4 for one endpoint: reviewed in the future, or more than ninety days ago.
pub open spec fn trust_finding(ep: ModelEndpoint, now: Timestamp) -> Seq<Finding> {
    if ep.trust_score.reviewed.0 > now.0 {
        seq![Finding::FutureTrustScore { endpoint: ep.id }]
    } else if now.0 - ep.trust_score.reviewed.0 > NINETY_DAYS_MS {
        seq![Finding::StaleTrustScore { endpoint: ep.id }]
    } else {
        Seq::empty()
    }
}

pub open spec fn trust_findings(eps: Seq<ModelEndpoint>, now: Timestamp) -> Seq<Finding>
    decreases eps.len(),
{
    if eps.len() == 0 {
        Seq::empty()
    } else {
        trust_findings(eps.drop_last(), now) + trust_finding(eps.last(), now)
    }
}

/// Predicate 5 for one tool: each required capability outside the vocabulary.
pub open spec fn tool_cap_findings(tool: ToolEntry, caps: Seq<Capability>, vocab: Seq<Seq<char>>) -> Seq<
    Finding,
>
    decreases caps.len(),
{
    if caps.len() == 0 {
        Seq::empty()
    } else {
        tool_cap_findings(tool, caps.drop_last(), vocab) + when(
            !vocab.contains(caps.last().0@),
            Finding::ToolCapabilityNotInVocabulary { tool: tool.id, capability: caps.last() },
        )
    }
}

pub open spec fn tools_findings(tools: Seq<ToolEntry>, vocab: Seq<Seq<char>>) -> Seq<Finding>
    decreases tools.len(),
{
    if tools.len() == 0 {
        Seq::empty()
    } else {
        tools_findings(tools.drop_last(), vocab) + tool_cap_findings(
            tools.last(),
            tools.last().required_capabilities@,
            vocab,
        )
    }
}

/// Predicate 6 for one invariant: each forbidden capability outside the vocabulary.
pub open spec fn inv_cap_findings(inv: InvariantEntry, caps: Seq<Capability>, vocab: Seq<Seq<char>>) -> Seq<
    Finding,
>
    decreases caps.len(),
{
    if caps.len() == 0 {
        Seq::empty()
    } else {
        inv_cap_findings(inv, caps.drop_last(), vocab) + when(
            !vocab.contains(caps.last().0@),
            Finding::InvariantForbidsUnknownCapability {
                invariant: inv.invariant,
                capability: caps.last(),
            },
        )
    }
}

/// Predicate 6 for one invariant: its unknown capabilities, then whether it forbids
/// nothing at all.
pub open spec fn invariant_finding(inv: InvariantEntry, vocab: Seq<Seq<char>>) -> Seq<Finding> {
    inv_cap_findings(inv, inv.forbids_capabilities@, vocab) + when(
        inv.forbids_capabilities@.len() == 0 && inv.forbids_privilege@.len() == 0,
        Finding::InvariantForbidsNothing { invariant: inv.invariant },
    )
}

pub open spec fn invariants_findings(invs: Seq<InvariantEntry>, vocab: Seq<Seq<char>>) -> Seq<Finding>
    decreases invs.len(),
{
    if invs.len() == 0 {
        Seq::empty()
    } else {
        invariants_findings(invs.drop_last(), vocab) + invariant_finding(invs.last(), vocab)
    }
}

/// The Enhanced-tier custody requirement: a hardware boundary under two-party control.
pub open spec fn r62_shortfall(k: KeyCustody) -> Option<CustodyShortfall> {
    match k {
        KeyCustody::SoftwareInProcess { .. } => Some(CustodyShortfall::NoHardwareBoundary),
        KeyCustody::HardwareBacked { dual_control, .. } => match dual_control {
            DualControl::SingleOperator => Some(CustodyShortfall::NoDualControl),
            DualControl::TwoParty { .. } => None,
        },
        KeyCustody::Threshold { dual_control, .. } => match dual_control {
            DualControl::SingleOperator => Some(CustodyShortfall::NoDualControl),
            DualControl::TwoParty { .. } => None,
        },
    }
}

/// What a declared custody lacks for a tier. Baseline accepts any custody; Enhanced needs
/// the hardware-and-dual-control element; High Assurance needs that, then threshold
/// custody whose quorum passes its floor, with at least `k` independent custodians and a
/// rehearsal within the past year (not in the future).
pub open spec fn custody_shortfall_spec(k: KeyCustody, tier: ConformanceTier, now: Timestamp) -> Option<
    CustodyShortfall,
> {
    match tier {
        ConformanceTier::Baseline => None,
        ConformanceTier::Enhanced => r62_shortfall(k),
        ConformanceTier::HighAssurance => if r62_shortfall(k) is Some {
            r62_shortfall(k)
        } else {
            match k {
                KeyCustody::Threshold { quorum, custodians, last_rehearsal, .. } => if quorum_verdict(
                    quorum,
                ) is Err {
                    Some(CustodyShortfall::QuorumBelowFloor)
                } else if custodians.independent_parties < quorum.k {
                    Some(CustodyShortfall::InsufficientCustodialSeparation)
                } else if last_rehearsal.0 > now.0 || now.0 - last_rehearsal.0 > ONE_YEAR_MS {
                    Some(CustodyShortfall::RehearsalStale)
                } else {
                    None
                },
                _ => Some(CustodyShortfall::NoThresholdCustody),
            }
        },
    }
}

/// Predicate 7.
pub open spec fn custody_findings(g: Genome, now: Timestamp) -> Seq<Finding> {
    match custody_shortfall_spec(g.cbom.custody, g.tier, now) {
        Some(element) => seq![Finding::KeyCustodyBelowTier { tier: g.tier, element }],
        None => Seq::empty(),
    }
}

/// Predicate 8 for one endpoint: a non-zero measured score with no observations.
pub open spec fn evidence_finding(ep: ModelEndpoint) -> Seq<Finding> {
    when(
        ep.trust_score.reconciliation_pass_rate.0 != 0 && ep.trust_score.evidence.observations == 0,
        Finding::MeasuredFactorWithoutEvidence {
            endpoint: ep.id,
            claimed: ep.trust_score.reconciliation_pass_rate,
        },
    )
}

pub open spec fn evidence_findings(eps: Seq<ModelEndpoint>) -> Seq<Finding>
    decreases eps.len(),
{
    if eps.len() == 0 {
        Seq::empty()
    } else {
        evidence_findings(eps.drop_last()) + evidence_finding(eps.last())
    }
}

/// Every finding the promotion check reports for a genome, in predicate order.
pub open spec fn promotion_findings(g: Genome, key: (Seq<u8>, Seq<u8>), now: Timestamp) -> Seq<
    Finding,
> {
    signature_findings(g, key) + disallowed_findings(g.cbom.algorithms@, g.policy.disallowed@)
        + trust_findings(g.endpoints.endpoints@, now) + tools_findings(
        g.tools.entries@,
        texts(g.policy.capabilities@),
    ) + invariants_findings(g.policy.invariants@, texts(g.policy.capabilities@)) + custody_findings(
        g,
        now,
    ) + evidence_findings(g.endpoints.endpoints@)
}

fn check_one(
    km: &[u8],
    ks: &[u8],
    content: &[u8],
    sig: &DualSignature,
    finding: Finding,
    findings: &mut Vec<Finding>,
)
    requires
        km@.len() == MLDSA65_PUBLIC_LEN,
        ks@.len() == SLH192S_PUBLIC_LEN,
    ensures
        final(findings)@ == old(findings)@ + when(!signed_ok((km@, ks@), content@, *sig), finding),
{
    if verify_dual_under(km, ks, content, sig).is_err() {
        findings.push(finding);
    }
    assert(final(findings)@ =~= old(findings)@ + when(!signed_ok((km@, ks@), content@, *sig), finding));
}

#[verifier::rlimit(60)]
fn check_signatures(g: &Genome, km: &[u8], ks: &[u8], findings: &mut Vec<Finding>)
    requires
        km@.len() == MLDSA65_PUBLIC_LEN,
        ks@.len() == SLH192S_PUBLIC_LEN,
    ensures
        final(findings)@ == old(findings)@ + signature_findings(*g, (km@, ks@)),
{
    let ghost start = findings@;
    assert(findings@ =~= start + signature_prefix(*g, (km@, ks@), 0));
    check_one(km, ks, tools_signed_content(&g.tools).as_slice(), &g.tools.signature, Finding::RegisterSignatureInvalid { register: Register::Tools }, findings);
    assert(findings@ =~= start + signature_prefix(*g, (km@, ks@), 1));
    check_one(km, ks, cbom_signed_content(&g.cbom).as_slice(), &g.cbom.signature, Finding::RegisterSignatureInvalid { register: Register::Cbom }, findings);
    assert(findings@ =~= start + signature_prefix(*g, (km@, ks@), 2));
    check_one(km, ks, aibom_signed_content(&g.aibom).as_slice(), &g.aibom.signature, Finding::RegisterSignatureInvalid { register: Register::Aibom }, findings);
    assert(findings@ =~= start + signature_prefix(*g, (km@, ks@), 3));
    check_one(km, ks, endpoints_signed_content(&g.endpoints).as_slice(), &g.endpoints.signature, Finding::RegisterSignatureInvalid { register: Register::Endpoints }, findings);
    assert(findings@ =~= start + signature_prefix(*g, (km@, ks@), 4));
    check_one(km, ks, roots_signed_content(&g.roots).as_slice(), &g.roots.signature, Finding::RegisterSignatureInvalid { register: Register::Roots }, findings);
    assert(findings@ =~= start + signature_prefix(*g, (km@, ks@), 5));
    check_one(km, ks, policy_signed_content(&g.policy).as_slice(), &g.policy.signature, Finding::RegisterSignatureInvalid { register: Register::Policy }, findings);
    assert(findings@ =~= start + signature_prefix(*g, (km@, ks@), 6));
    check_one(km, ks, genome_signed_content(g).as_slice(), &g.signature, Finding::GenomeSignatureInvalid, findings);
    assert(findings@ =~= start + signature_prefix(*g, (km@, ks@), 7));
}

fn alg_in(a: &AlgorithmId, v: &Vec<AlgorithmId>) -> (r: bool)
    ensures
        r == v@.contains(*a),
{
    let mut i: usize = 0;
    while i < v.len()
        invariant
            0 <= i <= v@.len(),
            forall|k: int| 0 <= k < i ==> v@[k] != *a,
        decreases v@.len() - i,
    {
        if v[i] == *a {
            assert(v@[i as int] == *a);
            return true;
        }
        i = i + 1;
    }
    false
}

fn check_disallowed_algorithms(g: &Genome, findings: &mut Vec<Finding>)
    ensures
        final(findings)@ == old(findings)@ + disallowed_findings(
            g.cbom.algorithms@,
            g.policy.disallowed@,
        ),
{
    let ghost start = findings@;
    let mut i: usize = 0;
    while i < g.cbom.algorithms.len()
        invariant
            0 <= i <= g.cbom.algorithms@.len(),
            findings@ == start + disallowed_findings(
                g.cbom.algorithms@.subrange(0, i as int),
                g.policy.disallowed@,
            ),
        decreases g.cbom.algorithms@.len() - i,
    {
        let alg = g.cbom.algorithms[i];
        assert(g.cbom.algorithms@.subrange(0, i + 1).drop_last() =~= g.cbom.algorithms@.subrange(
            0,
            i as int,
        ));
        if alg_in(&alg, &g.policy.disallowed) {
            findings.push(Finding::DisallowedAlgorithm { algorithm: alg });
        }
        assert(findings@ =~= start + disallowed_findings(
            g.cbom.algorithms@.subrange(0, i + 1),
            g.policy.disallowed@,
        ));
        i = i + 1;
    }
    assert(g.cbom.algorithms@.subrange(0, g.cbom.algorithms@.len() as int) =~= g.cbom.algorithms@);
}

fn check_trust_score_staleness(g: &Genome, now: Timestamp, findings: &mut Vec<Finding>)
    ensures
        final(findings)@ == old(findings)@ + trust_findings(g.endpoints.endpoints@, now),
{
    let ghost start = findings@;
    let mut i: usize = 0;
    while i < g.endpoints.endpoints.len()
        invariant
            0 <= i <= g.endpoints.endpoints@.len(),
            findings@ == start + trust_findings(g.endpoints.endpoints@.subrange(0, i as int), now),
        decreases g.endpoints.endpoints@.len() - i,
    {
        let ep = &g.endpoints.endpoints[i];
        assert(g.endpoints.endpoints@.subrange(0, i + 1).drop_last()
            =~= g.endpoints.endpoints@.subrange(0, i as int));
        let reviewed = ep.trust_score.reviewed.0;
        if reviewed > now.0 {
            findings.push(Finding::FutureTrustScore { endpoint: ep.id.copy() });
        } else if now.0 - reviewed > NINETY_DAYS_MS {
            findings.push(Finding::StaleTrustScore { endpoint: ep.id.copy() });
        }
        assert(findings@ =~= start + trust_findings(g.endpoints.endpoints@.subrange(0, i + 1), now));
        i = i + 1;
    }
    assert(g.endpoints.endpoints@.subrange(0, g.endpoints.endpoints@.len() as int)
        =~= g.endpoints.endpoints@);
}

fn check_tool(tool: &ToolEntry, vocab: &Vec<Capability>, findings: &mut Vec<Finding>)
    ensures
        final(findings)@ == old(findings)@ + tool_cap_findings(
            *tool,
            tool.required_capabilities@,
            texts(vocab@),
        ),
{
    let ghost start = findings@;
    let mut j: usize = 0;
    while j < tool.required_capabilities.len()
        invariant
            0 <= j <= tool.required_capabilities@.len(),
            findings@ == start + tool_cap_findings(
                *tool,
                tool.required_capabilities@.subrange(0, j as int),
                texts(vocab@),
            ),
        decreases tool.required_capabilities@.len() - j,
    {
        let cap = &tool.required_capabilities[j];
        assert(tool.required_capabilities@.subrange(0, j + 1).drop_last()
            =~= tool.required_capabilities@.subrange(0, j as int));
        if !contains_text(vocab, cap.0.as_str()) {
            findings.push(
                Finding::ToolCapabilityNotInVocabulary { tool: tool.id.copy(), capability: cap.copy() },
            );
        }
        assert(findings@ =~= start + tool_cap_findings(
            *tool,
            tool.required_capabilities@.subrange(0, j + 1),
            texts(vocab@),
        ));
        j = j + 1;
    }
    assert(tool.required_capabilities@.subrange(0, tool.required_capabilities@.len() as int)
        =~= tool.required_capabilities@);
}

fn check_tool_capabilities(g: &Genome, findings: &mut Vec<Finding>)
    ensures
        final(findings)@ == old(findings)@ + tools_findings(
            g.tools.entries@,
            texts(g.policy.capabilities@),
        ),
{
    let ghost start = findings@;
    let mut i: usize = 0;
    while i < g.tools.entries.len()
        invariant
            0 <= i <= g.tools.entries@.len(),
            findings@ == start + tools_findings(
                g.tools.entries@.subrange(0, i as int),
                texts(g.policy.capabilities@),
            ),
        decreases g.tools.entries@.len() - i,
    {
        assert(g.tools.entries@.subrange(0, i + 1).drop_last() =~= g.tools.entries@.subrange(
            0,
            i as int,
        ));
        check_tool(&g.tools.entries[i], &g.policy.capabilities, findings);
        assert(findings@ =~= start + tools_findings(
            g.tools.entries@.subrange(0, i + 1),
            texts(g.policy.capabilities@),
        ));
        i = i + 1;
    }
    assert(g.tools.entries@.subrange(0, g.tools.entries@.len() as int) =~= g.tools.entries@);
}

fn check_invariant(inv: &InvariantEntry, vocab: &Vec<Capability>, findings: &mut Vec<Finding>)
    ensures
        final(findings)@ == old(findings)@ + invariant_finding(*inv, texts(vocab@)),
{
    let ghost start = findings@;
    let mut j: usize = 0;
    while j < inv.forbids_capabilities.len()
        invariant
            0 <= j <= inv.forbids_capabilities@.len(),
            findings@ == start + inv_cap_findings(
                *inv,
                inv.forbids_capabilities@.subrange(0, j as int),
                texts(vocab@),
            ),
        decreases inv.forbids_capabilities@.len() - j,
    {
        let cap = &inv.forbids_capabilities[j];
        assert(inv.forbids_capabilities@.subrange(0, j + 1).drop_last()
            =~= inv.forbids_capabilities@.subrange(0, j as int));
        if !contains_text(vocab, cap.0.as_str()) {
            findings.push(
                Finding::InvariantForbidsUnknownCapability {
                    invariant: inv.invariant.copy(),
                    capability: cap.copy(),
                },
            );
        }
        assert(findings@ =~= start + inv_cap_findings(
            *inv,
            inv.forbids_capabilities@.subrange(0, j + 1),
            texts(vocab@),
        ));
        j = j + 1;
    }
    assert(inv.forbids_capabilities@.subrange(0, inv.forbids_capabilities@.len() as int)
        =~= inv.forbids_capabilities@);
    if inv.forbids_capabilities.len() == 0 && inv.forbids_privilege.len() == 0 {
        findings.push(Finding::InvariantForbidsNothing { invariant: inv.invariant.copy() });
    }
    assert(findings@ =~= start + invariant_finding(*inv, texts(vocab@)));
}

fn check_invariant_wellformedness(g: &Genome, findings: &mut Vec<Finding>)
    ensures
        final(findings)@ == old(findings)@ + invariants_findings(
            g.policy.invariants@,
            texts(g.policy.capabilities@),
        ),
{
    let ghost start = findings@;
    let mut i: usize = 0;
    while i < g.policy.invariants.len()
        invariant
            0 <= i <= g.policy.invariants@.len(),
            findings@ == start + invariants_findings(
                g.policy.invariants@.subrange(0, i as int),
                texts(g.policy.capabilities@),
            ),
        decreases g.policy.invariants@.len() - i,
    {
        assert(g.policy.invariants@.subrange(0, i + 1).drop_last() =~= g.policy.invariants@.subrange(
            0,
            i as int,
        ));
        check_invariant(&g.policy.invariants[i], &g.policy.capabilities, findings);
        assert(findings@ =~= start + invariants_findings(
            g.policy.invariants@.subrange(0, i + 1),
            texts(g.policy.capabilities@),
        ));
        i = i + 1;
    }
    assert(g.policy.invariants@.subrange(0, g.policy.invariants@.len() as int)
        =~= g.policy.invariants@);
}

fn custody_meets_r62(custody: &KeyCustody) -> (r: Option<CustodyShortfall>)
    ensures
        r == r62_shortfall(*custody),
{
    let dual_control = match custody {
        KeyCustody::SoftwareInProcess { .. } => {
            return Some(CustodyShortfall::NoHardwareBoundary);
        },
        KeyCustody::HardwareBacked { dual_control, .. } => dual_control,
        KeyCustody::Threshold { dual_control, .. } => dual_control,
    };
    match dual_control {
        DualControl::SingleOperator => Some(CustodyShortfall::NoDualControl),
        DualControl::TwoParty { .. } => None,
    }
}

fn custody_shortfall(custody: &KeyCustody, tier: ConformanceTier, now: Timestamp) -> (r: Option<
    CustodyShortfall,
>)
    ensures
        r == custody_shortfall_spec(*custody, tier, now),
{
    match tier {
        ConformanceTier::Baseline => None,
        ConformanceTier::Enhanced => custody_meets_r62(custody),
        ConformanceTier::HighAssurance => {
            let r62 = custody_meets_r62(custody);
            if r62.is_some() {
                return r62;
            }
            match custody {
                KeyCustody::Threshold { quorum, custodians, last_rehearsal, .. } => {
                    if quorum.validate().is_err() {
                        return Some(CustodyShortfall::QuorumBelowFloor);
                    }
                    if custodians.independent_parties < quorum.k {
                        return Some(CustodyShortfall::InsufficientCustodialSeparation);
                    }
                    if last_rehearsal.0 > now.0 || now.0 - last_rehearsal.0 > ONE_YEAR_MS {
                        return Some(CustodyShortfall::RehearsalStale);
                    }
                    None
                },
                _ => Some(CustodyShortfall::NoThresholdCustody),
            }
        },
    }
}

fn check_key_custody_tier(g: &Genome, now: Timestamp, findings: &mut Vec<Finding>)
    ensures
        final(findings)@ == old(findings)@ + custody_findings(*g, now),
{
    let ghost start = findings@;
    let tier = g.tier;
    match custody_shortfall(&g.cbom.custody, tier, now) {
        Some(element) => findings.push(Finding::KeyCustodyBelowTier { tier, element }),
        None => {},
    }
    assert(findings@ =~= start + custody_findings(*g, now));
}

fn check_factor_evidence(g: &Genome, findings: &mut Vec<Finding>)
    ensures
        final(findings)@ == old(findings)@ + evidence_findings(g.endpoints.endpoints@),
{
    let ghost start = findings@;
    let mut i: usize = 0;
    while i < g.endpoints.endpoints.len()
        invariant
            0 <= i <= g.endpoints.endpoints@.len(),
            findings@ == start + evidence_findings(g.endpoints.endpoints@.subrange(0, i as int)),
        decreases g.endpoints.endpoints@.len() - i,
    {
        let ep = &g.endpoints.endpoints[i];
        assert(g.endpoints.endpoints@.subrange(0, i + 1).drop_last()
            =~= g.endpoints.endpoints@.subrange(0, i as int));
        if ep.trust_score.reconciliation_pass_rate.0 != 0 && ep.trust_score.evidence.observations == 0 {
            findings.push(
                Finding::MeasuredFactorWithoutEvidence {
                    endpoint: ep.id.copy(),
                    claimed: ep.trust_score.reconciliation_pass_rate,
                },
            );
        }
        assert(findings@ =~= start + evidence_findings(g.endpoints.endpoints@.subrange(0, i + 1)));
        i = i + 1;
    }
    assert(g.endpoints.endpoints@.subrange(0, g.endpoints.endpoints@.len() as int)
        =~= g.endpoints.endpoints@);
}

/// Evaluates every predicate and reports every finding. `Promoted` exactly when there is
/// none; a promoted genome has every register signature and its own verified under the
/// DAP key.
pub fn promote(genome: &Genome, dap_key: &DualPublicKey, now: Timestamp) -> (r: PromotionVerdict)
    ensures
        r is Promoted <==> promotion_findings(
            *genome,
            (dap_key.mldsa_view(), dap_key.slh_view()),
            now,
        ).len() == 0,
        r matches PromotionVerdict::Blocked { findings } ==> findings@ == promotion_findings(
            *genome,
            (dap_key.mldsa_view(), dap_key.slh_view()),
            now,
        ),
        r is Promoted ==> signature_findings(*genome, (dap_key.mldsa_view(), dap_key.slh_view())).len()
            == 0,
{
    let mut findings: Vec<Finding> = Vec::new();
    let km = dap_key.mldsa_bytes();
    let ks = dap_key.slh_bytes();
    check_signatures(genome, km, ks, &mut findings);
    check_disallowed_algorithms(genome, &mut findings);
    check_trust_score_staleness(genome, now, &mut findings);
    check_tool_capabilities(genome, &mut findings);
    check_invariant_wellformedness(genome, &mut findings);
    check_key_custody_tier(genome, now, &mut findings);
    check_factor_evidence(genome, &mut findings);
    assert(findings@ =~= promotion_findings(*genome, (km@, ks@), now));
    if findings.len() == 0 {
        PromotionVerdict::Promoted
    } else {
        PromotionVerdict::Blocked { findings }
    }
}

/// A promoted genome's registers, and the genome itself, are each signed under the DAP
/// key.
pub proof fn lemma_promoted_is_signed(g: Genome, key: (Seq<u8>, Seq<u8>), now: Timestamp)
    requires
        promotion_findings(g, key, now).len() == 0,
    ensures
        signed_ok(key, tools_content(g.tools), g.tools.signature),
        signed_ok(key, cbom_content(g.cbom), g.cbom.signature),
        signed_ok(key, aibom_content(g.aibom), g.aibom.signature),
        signed_ok(key, endpoints_content(g.endpoints), g.endpoints.signature),
        signed_ok(key, roots_content(g.roots), g.roots.signature),
        signed_ok(key, policy_content(g.policy), g.policy.signature),
        signed_ok(key, genome_content(g), g.signature),
{
    assert(signature_findings(g, key).len() == 0);
    lemma_signature_prefix_empty(g, key, 7);
    assert(signature_check(g, key, 0).len() == 0);
    assert(signature_check(g, key, 1).len() == 0);
    assert(signature_check(g, key, 2).len() == 0);
    assert(signature_check(g, key, 3).len() == 0);
    assert(signature_check(g, key, 4).len() == 0);
    assert(signature_check(g, key, 5).len() == 0);
    assert(signature_check(g, key, 6).len() == 0);
}


/// No finding of the sequence reports an invariant that forbids nothing.
pub open spec fn no_forbids_nothing(fs: Seq<Finding>) -> bool {
    forall|j: int| 0 <= j < fs.len() ==> !(#[trigger] fs[j] is InvariantForbidsNothing)
}

proof fn lemma_no_forbids_nothing_concat(a: Seq<Finding>, b: Seq<Finding>)
    requires
        no_forbids_nothing(a),
        no_forbids_nothing(b),
    ensures
        no_forbids_nothing(a + b),
{
    assert forall|j: int| 0 <= j < (a + b).len() implies !(#[trigger] (a + b)[j] is InvariantForbidsNothing) by {
        if j < a.len() {
            assert((a + b)[j] == a[j]);
        } else {
            assert((a + b)[j] == b[j - a.len()]);
        }
    }
}

proof fn lemma_when_other(c: bool, f: Finding)
    requires
        !(f is InvariantForbidsNothing),
    ensures
        no_forbids_nothing(when(c, f)),
{
}

proof fn lemma_signature_prefix_other(g: Genome, key: (Seq<u8>, Seq<u8>), n: int)
    ensures
        no_forbids_nothing(signature_prefix(g, key, n)),
    decreases n,
{
    if n > 0 {
        lemma_signature_prefix_other(g, key, n - 1);
        assert(no_forbids_nothing(signature_check(g, key, n - 1)));
        lemma_no_forbids_nothing_concat(signature_prefix(g, key, n - 1), signature_check(g, key, n - 1));
    }
}

proof fn lemma_disallowed_other(algs: Seq<AlgorithmId>, disallowed: Seq<AlgorithmId>)
    ensures
        no_forbids_nothing(disallowed_findings(algs, disallowed)),
    decreases algs.len(),
{
    if algs.len() > 0 {
        lemma_disallowed_other(algs.drop_last(), disallowed);
        lemma_when_other(disallowed.contains(algs.last()), Finding::DisallowedAlgorithm { algorithm: algs.last() });
        lemma_no_forbids_nothing_concat(
            disallowed_findings(algs.drop_last(), disallowed),
            when(disallowed.contains(algs.last()), Finding::DisallowedAlgorithm { algorithm: algs.last() }),
        );
    }
}

proof fn lemma_trust_other(eps: Seq<ModelEndpoint>, now: Timestamp)
    ensures
        no_forbids_nothing(trust_findings(eps, now)),
    decreases eps.len(),
{
    if eps.len() > 0 {
        lemma_trust_other(eps.drop_last(), now);
        assert(no_forbids_nothing(trust_finding(eps.last(), now)));
        lemma_no_forbids_nothing_concat(trust_findings(eps.drop_last(), now), trust_finding(eps.last(), now));
    }
}

proof fn lemma_tool_caps_other(tool: ToolEntry, caps: Seq<Capability>, vocab: Seq<Seq<char>>)
    ensures
        no_forbids_nothing(tool_cap_findings(tool, caps, vocab)),
    decreases caps.len(),
{
    if caps.len() > 0 {
        let f = Finding::ToolCapabilityNotInVocabulary { tool: tool.id, capability: caps.last() };
        lemma_tool_caps_other(tool, caps.drop_last(), vocab);
        lemma_when_other(!vocab.contains(caps.last().0@), f);
        lemma_no_forbids_nothing_concat(
            tool_cap_findings(tool, caps.drop_last(), vocab),
            when(!vocab.contains(caps.last().0@), f),
        );
    }
}

proof fn lemma_tools_other(tools: Seq<ToolEntry>, vocab: Seq<Seq<char>>)
    ensures
        no_forbids_nothing(tools_findings(tools, vocab)),
    decreases tools.len(),
{
    if tools.len() > 0 {
        lemma_tools_other(tools.drop_last(), vocab);
        lemma_tool_caps_other(tools.last(), tools.last().required_capabilities@, vocab);
        lemma_no_forbids_nothing_concat(
            tools_findings(tools.drop_last(), vocab),
            tool_cap_findings(tools.last(), tools.last().required_capabilities@, vocab),
        );
    }
}

proof fn lemma_evidence_other(eps: Seq<ModelEndpoint>)
    ensures
        no_forbids_nothing(evidence_findings(eps)),
    decreases eps.len(),
{
    if eps.len() > 0 {
        lemma_evidence_other(eps.drop_last());
        assert(no_forbids_nothing(evidence_finding(eps.last())));
        lemma_no_forbids_nothing_concat(evidence_findings(eps.drop_last()), evidence_finding(eps.last()));
    }
}

proof fn lemma_inv_caps_other(inv: InvariantEntry, caps: Seq<Capability>, vocab: Seq<Seq<char>>)
    ensures
        no_forbids_nothing(inv_cap_findings(inv, caps, vocab)),
    decreases caps.len(),
{
    if caps.len() > 0 {
        let f = Finding::InvariantForbidsUnknownCapability { invariant: inv.invariant, capability: caps.last() };
        lemma_inv_caps_other(inv, caps.drop_last(), vocab);
        lemma_when_other(!vocab.contains(caps.last().0@), f);
        lemma_no_forbids_nothing_concat(
            inv_cap_findings(inv, caps.drop_last(), vocab),
            when(!vocab.contains(caps.last().0@), f),
        );
    }
}

/// An invariant is reported as forbidding nothing exactly when it forbids no capability
/// and no privilege: one that forbids a privilege, or a capability, is never so reported,
/// and the report names the invariant itself.
pub proof fn lemma_forbids_nothing_iff_empty(inv: InvariantEntry, vocab: Seq<Seq<char>>)
    ensures
        (exists|j: int|
            0 <= j < invariant_finding(inv, vocab).len() && (#[trigger] invariant_finding(
                inv,
                vocab,
            )[j] is InvariantForbidsNothing)) <==> (inv.forbids_capabilities@.len() == 0
            && inv.forbids_privilege@.len() == 0),
        forall|j: int|
            0 <= j < invariant_finding(inv, vocab).len() && (#[trigger] invariant_finding(
                inv,
                vocab,
            )[j] is InvariantForbidsNothing) ==> invariant_finding(inv, vocab)[j]
                == (Finding::InvariantForbidsNothing { invariant: inv.invariant }),
{
    let caps = inv_cap_findings(inv, inv.forbids_capabilities@, vocab);
    let empty = inv.forbids_capabilities@.len() == 0 && inv.forbids_privilege@.len() == 0;
    let f = Finding::InvariantForbidsNothing { invariant: inv.invariant };
    let all = invariant_finding(inv, vocab);
    lemma_inv_caps_other(inv, inv.forbids_capabilities@, vocab);
    assert(all == caps + when(empty, f));
    assert forall|j: int| 0 <= j < all.len() && (#[trigger] all[j] is InvariantForbidsNothing) implies all[j] == f && empty by {
        if j < caps.len() {
            assert(all[j] == caps[j]);
        } else {
            assert(all[j] == when(empty, f)[j - caps.len()]);
        }
    }
    if empty {
        assert(all[caps.len() as int] == f);
    }
}

/// Across a policy's invariants, each forbids-nothing finding names an invariant of the
/// policy that forbids no capability and no privilege, and each such invariant is named by
/// one.
pub proof fn lemma_forbids_nothing_findings(invs: Seq<InvariantEntry>, vocab: Seq<Seq<char>>)
    ensures
        forall|j: int|
            0 <= j < invariants_findings(invs, vocab).len() && (#[trigger] invariants_findings(
                invs,
                vocab,
            )[j] is InvariantForbidsNothing) ==> exists|k: int|
                0 <= k < invs.len() && invariants_findings(invs, vocab)[j]
                    == (Finding::InvariantForbidsNothing { invariant: (#[trigger] invs[k]).invariant })
                    && invs[k].forbids_capabilities@.len() == 0 && invs[k].forbids_privilege@.len()
                    == 0,
        forall|k: int|
            0 <= k < invs.len() && (#[trigger] invs[k]).forbids_capabilities@.len() == 0
                && invs[k].forbids_privilege@.len() == 0 ==> invariants_findings(invs, vocab).contains(
                (Finding::InvariantForbidsNothing { invariant: invs[k].invariant }),
            ),
    decreases invs.len(),
{
    if invs.len() > 0 {
        let init = invs.drop_last();
        let a = invariants_findings(init, vocab);
        let b = invariant_finding(invs.last(), vocab);
        let all = invariants_findings(invs, vocab);
        lemma_forbids_nothing_findings(init, vocab);
        lemma_forbids_nothing_iff_empty(invs.last(), vocab);
        assert(all == a + b);
        assert forall|j: int|
            0 <= j < all.len() && (#[trigger] all[j] is InvariantForbidsNothing) implies exists|k: int|
                0 <= k < invs.len() && all[j] == Finding::InvariantForbidsNothing {
                    invariant: (#[trigger] invs[k]).invariant,
                } && invs[k].forbids_capabilities@.len() == 0 && invs[k].forbids_privilege@.len()
                == 0 by {
            if j < a.len() {
                assert(all[j] == a[j]);
                assert(a[j] is InvariantForbidsNothing);
                let k = choose|k: int|
                    0 <= k < init.len() && a[j] == Finding::InvariantForbidsNothing {
                        invariant: (#[trigger] init[k]).invariant,
                    } && init[k].forbids_capabilities@.len() == 0 && init[k].forbids_privilege@.len()
                        == 0;
                assert(invs[k] == init[k]);
            } else {
                assert(all[j] == b[j - a.len()]);
                assert(b[j - a.len()] is InvariantForbidsNothing);
                assert(invs[invs.len() - 1] == invs.last());
            }
        }
        assert forall|k: int|
            0 <= k < invs.len() && (#[trigger] invs[k]).forbids_capabilities@.len() == 0
                && invs[k].forbids_privilege@.len() == 0 implies all.contains(
            Finding::InvariantForbidsNothing { invariant: invs[k].invariant },
        ) by {
            let f = Finding::InvariantForbidsNothing { invariant: invs[k].invariant };
            if k < init.len() {
                assert(init[k] == invs[k]);
                assert(a.contains(f));
                let j = choose|j: int| 0 <= j < a.len() && a[j] == f;
                assert(all[j] == a[j]);
            } else {
                assert(invs[k] == invs.last());
                let j = choose|j: int| 0 <= j < b.len() && #[trigger] b[j] is InvariantForbidsNothing;
                assert(all[a.len() + j] == b[j]);
            }
        }
    }
}

/// What the promotion gate reports as forbidding nothing is exactly the policy's
/// invariants that forbid no capability and no privilege: every such finding names one of
/// them, and each of them is named. In particular an invariant that forbids a privilege
/// never blocks promotion for forbidding nothing.
pub proof fn lemma_promotion_forbids_nothing(g: Genome, key: (Seq<u8>, Seq<u8>), now: Timestamp)
    ensures
        forall|j: int|
            0 <= j < promotion_findings(g, key, now).len() && (#[trigger] promotion_findings(
                g,
                key,
                now,
            )[j] is InvariantForbidsNothing) ==> exists|k: int|
                0 <= k < g.policy.invariants@.len() && promotion_findings(g, key, now)[j]
                    == (Finding::InvariantForbidsNothing {
                    invariant: (#[trigger] g.policy.invariants@[k]).invariant,
                }) && g.policy.invariants@[k].forbids_capabilities@.len() == 0
                    && g.policy.invariants@[k].forbids_privilege@.len() == 0,
        forall|k: int|
            0 <= k < g.policy.invariants@.len() && (#[trigger] g.policy.invariants@[
                k
            ]).forbids_capabilities@.len() == 0 && g.policy.invariants@[k].forbids_privilege@.len()
                == 0 ==> promotion_findings(g, key, now).contains(
                (Finding::InvariantForbidsNothing { invariant: g.policy.invariants@[k].invariant }),
            ),
{
    let vocab = texts(g.policy.capabilities@);
    let invs = g.policy.invariants@;
    let p1 = signature_findings(g, key);
    let p2 = disallowed_findings(g.cbom.algorithms@, g.policy.disallowed@);
    let p3 = trust_findings(g.endpoints.endpoints@, now);
    let p4 = tools_findings(g.tools.entries@, vocab);
    let mid = invariants_findings(invs, vocab);
    let p6 = custody_findings(g, now);
    let p7 = evidence_findings(g.endpoints.endpoints@);
    lemma_signature_prefix_other(g, key, 7);
    lemma_disallowed_other(g.cbom.algorithms@, g.policy.disallowed@);
    lemma_trust_other(g.endpoints.endpoints@, now);
    lemma_tools_other(g.tools.entries@, vocab);
    lemma_evidence_other(g.endpoints.endpoints@);
    assert(no_forbids_nothing(p6));
    lemma_no_forbids_nothing_concat(p1, p2);
    lemma_no_forbids_nothing_concat(p1 + p2, p3);
    lemma_no_forbids_nothing_concat(p1 + p2 + p3, p4);
    lemma_no_forbids_nothing_concat(p6, p7);
    lemma_forbids_nothing_findings(invs, vocab);
    let pre = p1 + p2 + p3 + p4;
    let post = p6 + p7;
    let all = promotion_findings(g, key, now);
    assert(all == pre + mid + post);
    assert forall|j: int| 0 <= j < all.len() && (#[trigger] all[j] is InvariantForbidsNothing) implies exists|k: int|
        0 <= k < invs.len() && all[j] == Finding::InvariantForbidsNothing {
            invariant: (#[trigger] invs[k]).invariant,
        } && invs[k].forbids_capabilities@.len() == 0 && invs[k].forbids_privilege@.len() == 0 by {
        if j < pre.len() {
            assert(all[j] == pre[j]);
        } else if j < pre.len() + mid.len() {
            assert(all[j] == mid[j - pre.len()]);
            assert(mid[j - pre.len()] is InvariantForbidsNothing);
        } else {
            assert(all[j] == post[j - pre.len() - mid.len()]);
        }
    }
    assert forall|k: int|
        0 <= k < invs.len() && (#[trigger] invs[k]).forbids_capabilities@.len() == 0
            && invs[k].forbids_privilege@.len() == 0 implies all.contains(
        Finding::InvariantForbidsNothing { invariant: invs[k].invariant },
    ) by {
        let f = Finding::InvariantForbidsNothing { invariant: invs[k].invariant };
        assert(mid.contains(f));
        let j = choose|j: int| 0 <= j < mid.len() && mid[j] == f;
        assert(all[pre.len() + j] == mid[j]);
    }
}

} // verus!
