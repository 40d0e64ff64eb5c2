//! Canonical byte encodings of the genome registers.
//!
//! Each register's signed content begins with its own domain tag, so no register's
//! signature can stand for another's. The genome's signed content binds the version,
//! tier, corpus digest and owner together with every register's signed content and
//! signature.
use vstd::prelude::*;
use crate::canon::{
    Canon, be8, enc_each, enc_list, fits, hashalg_code, hashalg_tag, lemma_be8_prefix,
    all_fit, lemma_enc_each_front, lemma_enc_each_step, lemma_lp_prefix, lemma_lps_list_prefix,
    lemma_lps_prefix, lemma_u8_prefix,
    lemma_same_prefix, lemma_tagged_apart, lp, lps, lps_list, sigalg_code, sigalg_tag, utf8,
};
use vstd::utf8::is_ascii_chars;
use crate::capability::ConformanceTier;
use crate::classification::{Classification, NamedGroup};
use crate::crypto::KemAlg;
use crate::genome::{
    Aibom, AlgorithmId, BoundaryInterface, Cbom, CustodianSeparation, DualControl, EndpointRegistry,
    ExtractionProtection, FipsValidation, Genome, HardwareBoundary, InvariantEntry, KeyCustody,
    ModelEndpoint, PolicyRegister, PrivilegeClass, ProcedureRef, RootOfTrustEntry, RootsOfTrust,
    ToolEntry, ToolGenome, VendorTrustScore,
};
use crate::ids::ModelIdentity;
use crate::skuld::canonical::{digest_enc, dual_enc, write_digest, write_dual_signature};
use crate::sset::texts;
use crate::tolerance::ResponseClass;

verus! {

pub open spec fn domain_tools() -> Seq<char> {
    "brokkr-genome:tools:v1"@
}

pub open spec fn domain_cbom() -> Seq<char> {
    "brokkr-genome:cbom:v1"@
}

pub open spec fn domain_aibom() -> Seq<char> {
    "brokkr-genome:aibom:v1"@
}

pub open spec fn domain_endpoints() -> Seq<char> {
    "brokkr-genome:endpoints:v1"@
}

pub open spec fn domain_roots() -> Seq<char> {
    "brokkr-genome:roots:v1"@
}

pub open spec fn domain_policy() -> Seq<char> {
    "brokkr-genome:policy:v1"@
}

pub open spec fn domain_genome() -> Seq<char> {
    "brokkr-genome:genome:v1"@
}

pub open spec fn tier_code(t: ConformanceTier) -> u8 {
    match t {
        ConformanceTier::Baseline => 1,
        ConformanceTier::Enhanced => 2,
        ConformanceTier::HighAssurance => 3,
    }
}

pub open spec fn privilege_code(p: PrivilegeClass) -> u8 {
    match p {
        PrivilegeClass::Unprivileged => 1,
        PrivilegeClass::Privileged => 2,
        PrivilegeClass::SelfModifying => 3,
    }
}

pub open spec fn response_code(r: ResponseClass) -> u8 {
    match r {
        ResponseClass::Deterministic => 1,
        ResponseClass::Heuristic => 2,
    }
}

pub open spec fn classification_code(c: Classification) -> u8 {
    match c {
        Classification::Public => 1,
        Classification::Internal => 2,
        Classification::Cui => 3,
        Classification::Secret => 4,
    }
}

pub open spec fn group_code(g: NamedGroup) -> u8 {
    match g {
        NamedGroup::X25519 => 1,
        NamedGroup::Secp384r1 => 2,
        NamedGroup::X25519MlKem768 => 3,
        NamedGroup::Secp384r1MlKem1024 => 4,
    }
}

pub open spec fn kem_code(k: KemAlg) -> u8 {
    match k {
        KemAlg::MlKem512 => 1,
        KemAlg::MlKem768 => 2,
        KemAlg::MlKem1024 => 3,
    }
}

fn tier_tag(t: ConformanceTier) -> (r: u8)
    ensures
        r == tier_code(t),
{
    match t {
        ConformanceTier::Baseline => 1,
        ConformanceTier::Enhanced => 2,
        ConformanceTier::HighAssurance => 3,
    }
}

fn privilege_tag(p: PrivilegeClass) -> (r: u8)
    ensures
        r == privilege_code(p),
{
    match p {
        PrivilegeClass::Unprivileged => 1,
        PrivilegeClass::Privileged => 2,
        PrivilegeClass::SelfModifying => 3,
    }
}

fn response_tag(r: ResponseClass) -> (t: u8)
    ensures
        t == response_code(r),
{
    match r {
        ResponseClass::Deterministic => 1,
        ResponseClass::Heuristic => 2,
    }
}

fn classification_tag(c: Classification) -> (r: u8)
    ensures
        r == classification_code(c),
{
    match c {
        Classification::Public => 1,
        Classification::Internal => 2,
        Classification::Cui => 3,
        Classification::Secret => 4,
    }
}

fn group_tag(g: NamedGroup) -> (r: u8)
    ensures
        r == group_code(g),
{
    match g {
        NamedGroup::X25519 => 1,
        NamedGroup::Secp384r1 => 2,
        NamedGroup::X25519MlKem768 => 3,
        NamedGroup::Secp384r1MlKem1024 => 4,
    }
}

fn kem_tag(k: KemAlg) -> (r: u8)
    ensures
        r == kem_code(k),
{
    match k {
        KemAlg::MlKem512 => 1,
        KemAlg::MlKem768 => 2,
        KemAlg::MlKem1024 => 3,
    }
}

pub open spec fn tool_entry_enc(e: ToolEntry) -> Seq<u8> {
    lps(e.id.0@) + lps(e.schema.detail@) + seq![privilege_code(e.privilege)] + seq![
        response_code(e.response_class),
    ] + lps_list(texts(e.required_capabilities@))
}

/// Two tool entries agree on everything their encoding covers.
pub open spec fn same_tool_entry(a: ToolEntry, b: ToolEntry) -> bool {
    &&& a.id.0@ == b.id.0@
    &&& a.schema.detail@ == b.schema.detail@
    &&& a.privilege == b.privilege
    &&& a.response_class == b.response_class
    &&& texts(a.required_capabilities@) == texts(b.required_capabilities@)
}

/// Every part of a tool entry can be written with length prefixes.
pub open spec fn tool_entry_fits(e: ToolEntry) -> bool {
    &&& fits(utf8(e.id.0@))
    &&& fits(utf8(e.schema.detail@))
    &&& all_fit(texts(e.required_capabilities@))
}

/// The register and each of its entries can be written with length prefixes.
pub open spec fn tools_fit(t: ToolGenome) -> bool {
    &&& t.entries@.len() <= u64::MAX
    &&& forall|i: int| 0 <= i < t.entries@.len() ==> tool_entry_fits(#[trigger] t.entries@[i])
}

/// The signed content of the tool register.
pub closed spec fn tools_content(t: ToolGenome) -> Seq<u8> {
    lps(domain_tools()) + enc_list(t.entries@, tool_entry_fn())
}

pub open spec fn procedure_enc(p: ProcedureRef) -> Seq<u8> {
    lps(p.document@) + digest_enc(p.digest)
}

pub open spec fn extraction_enc(p: ExtractionProtection) -> Seq<u8> {
    match p {
        ExtractionProtection::ProcessIsolationOnly => seq![1u8],
        ExtractionProtection::EncryptedAtRest => seq![2u8],
        ExtractionProtection::Other { description } => seq![3u8] + lps(description@),
    }
}

pub open spec fn fips_enc(f: FipsValidation) -> Seq<u8> {
    match f {
        FipsValidation::NotValidated => seq![1u8],
        FipsValidation::Level { level, certificate } => seq![2u8] + seq![level] + lps(certificate@),
    }
}

pub open spec fn interface_enc(i: BoundaryInterface) -> Seq<u8> {
    match i {
        BoundaryInterface::Pkcs11 => seq![1u8],
        BoundaryInterface::CloudKms => seq![2u8],
        BoundaryInterface::Tpm => seq![3u8],
        BoundaryInterface::SecureEnclave => seq![4u8],
        BoundaryInterface::Other { description } => seq![5u8] + lps(description@),
    }
}

pub open spec fn boundary_enc(b: HardwareBoundary) -> Seq<u8> {
    lps(b.module@) + interface_enc(b.interface) + fips_enc(b.fips)
}

pub open spec fn dual_control_enc(d: DualControl) -> Seq<u8> {
    match d {
        DualControl::SingleOperator => seq![1u8],
        DualControl::TwoParty { procedure } => seq![2u8] + procedure_enc(procedure),
    }
}

pub open spec fn custodians_enc(s: CustodianSeparation) -> Seq<u8> {
    seq![s.independent_parties] + procedure_enc(s.separation_of_duty)
}

/// The encoding of a key custody declaration: its kind, then every element it declares.
pub open spec fn custody_enc(k: KeyCustody) -> Seq<u8> {
    match k {
        KeyCustody::SoftwareInProcess { protection } => seq![1u8] + extraction_enc(protection),
        KeyCustody::HardwareBacked { boundary, dual_control } => seq![2u8] + boundary_enc(boundary)
            + dual_control_enc(dual_control),
        KeyCustody::Threshold {
            boundary,
            dual_control,
            quorum,
            custodians,
            ceremony,
            recovery,
            rotation,
            last_rehearsal,
        } => seq![3u8] + boundary_enc(boundary) + dual_control_enc(dual_control) + seq![quorum.k]
            + seq![quorum.n] + custodians_enc(custodians) + procedure_enc(ceremony) + procedure_enc(
            recovery,
        ) + procedure_enc(rotation) + be8(last_rehearsal.0),
    }
}

pub open spec fn algorithm_enc(a: AlgorithmId) -> Seq<u8> {
    match a {
        AlgorithmId::Signature(s) => seq![1u8, sigalg_code(s)],
        AlgorithmId::Hash(h) => seq![2u8, hashalg_code(h)],
        AlgorithmId::Kem(k) => seq![3u8, kem_code(k)],
    }
}

/// The signed content of the cryptographic bill of materials (custody included).
pub closed spec fn cbom_content(b: Cbom) -> Seq<u8> {
    lps(domain_cbom()) + lps(b.cyclonedx@) + enc_list(b.algorithms@, algorithm_fn())
        + custody_enc(b.custody)
}

/// The signed content of the AI bill of materials.
pub closed spec fn aibom_content(b: Aibom) -> Seq<u8> {
    lps(domain_aibom()) + lps(b.cyclonedx@)
}

pub open spec fn trust_enc(v: VendorTrustScore) -> Seq<u8> {
    seq![v.attestation_capability.0, v.fips_validation.0, v.breach_history.0, v.jurisdictional_exposure.0, v.data_handling.0, v.reconciliation_pass_rate.0]
        + be8(v.evidence.observations) + be8(v.evidence.measured.0) + be8(v.reviewed.0) + lps(
        v.reviewer.name@,
    ) + lps(v.reviewer.id@)
}

pub open spec fn model_identity_enc(m: ModelIdentity) -> Seq<u8> {
    lps(m.name@) + lps(m.version@) + lps(m.provider@)
}

pub open spec fn endpoint_enc(e: ModelEndpoint) -> Seq<u8> {
    lps(e.id.0@) + model_identity_enc(e.model) + lps(e.client_cert.0@) + lps(e.server_trust.0@)
        + seq![group_code(e.min_group)] + seq![classification_code(e.max_classification)]
        + trust_enc(e.trust_score)
}

/// The signed content of the endpoint registry (trust scores included).
pub closed spec fn endpoints_content(r: EndpointRegistry) -> Seq<u8> {
    lps(domain_endpoints()) + enc_list(r.endpoints@, endpoint_fn())
}

pub open spec fn root_entry_enc(e: RootOfTrustEntry) -> Seq<u8> {
    lps(e.subject.0@) + lp(e.ml_dsa_public@) + lp(e.slh_dsa_public@)
}

/// The signed content of the roots of trust.
pub closed spec fn roots_content(r: RootsOfTrust) -> Seq<u8> {
    lps(domain_roots()) + enc_list(r.entries@, root_entry_fn())
}

/// Two root-of-trust entries agree on everything their encoding covers.
pub open spec fn same_root_entry(a: RootOfTrustEntry, b: RootOfTrustEntry) -> bool {
    &&& a.subject.0@ == b.subject.0@
    &&& a.ml_dsa_public@ == b.ml_dsa_public@
    &&& a.slh_dsa_public@ == b.slh_dsa_public@
}

/// Every part of a root-of-trust entry can be written with a length prefix.
pub open spec fn root_entry_fits(e: RootOfTrustEntry) -> bool {
    &&& fits(utf8(e.subject.0@))
    &&& fits(e.ml_dsa_public@)
    &&& fits(e.slh_dsa_public@)
}

/// The register and each of its entries can be written with length prefixes.
pub open spec fn roots_fit(r: RootsOfTrust) -> bool {
    &&& r.entries@.len() <= u64::MAX
    &&& forall|i: int| 0 <= i < r.entries@.len() ==> root_entry_fits(#[trigger] r.entries@[i])
}

proof fn lemma_root_entries_prefix(
    a: Seq<RootOfTrustEntry>,
    b: Seq<RootOfTrustEntry>,
    x: Seq<u8>,
    y: Seq<u8>,
)
    requires
        a.len() == b.len(),
        forall|i: int| 0 <= i < a.len() ==> root_entry_fits(#[trigger] a[i]),
        forall|i: int| 0 <= i < b.len() ==> root_entry_fits(#[trigger] b[i]),
        enc_each(a, root_entry_fn()) + x == enc_each(b, root_entry_fn()) + y,
    ensures
        forall|i: int| 0 <= i < a.len() ==> same_root_entry(#[trigger] a[i], b[i]),
        x == y,
    decreases a.len(),
{
    let f = root_entry_fn();
    if a.len() == 0 {
        assert(enc_each(a, f) + x =~= x);
        assert(enc_each(b, f) + y =~= y);
    } else {
        lemma_enc_each_front(a, f);
        lemma_enc_each_front(b, f);
        let a0 = a[0];
        let b0 = b[0];
        let a1 = a.drop_first();
        let b1 = b.drop_first();
        let ra = enc_each(a1, f) + x;
        let rb = enc_each(b1, f) + y;
        assert(enc_each(a, f) + x =~= lps(a0.subject.0@) + (lp(a0.ml_dsa_public@) + (lp(
            a0.slh_dsa_public@,
        ) + ra)));
        assert(enc_each(b, f) + y =~= lps(b0.subject.0@) + (lp(b0.ml_dsa_public@) + (lp(
            b0.slh_dsa_public@,
        ) + rb)));
        assert(root_entry_fits(a0));
        assert(root_entry_fits(b0));
        lemma_lps_prefix(
            a0.subject.0@,
            b0.subject.0@,
            lp(a0.ml_dsa_public@) + (lp(a0.slh_dsa_public@) + ra),
            lp(b0.ml_dsa_public@) + (lp(b0.slh_dsa_public@) + rb),
        );
        lemma_lp_prefix(
            a0.ml_dsa_public@,
            b0.ml_dsa_public@,
            lp(a0.slh_dsa_public@) + ra,
            lp(b0.slh_dsa_public@) + rb,
        );
        lemma_lp_prefix(a0.slh_dsa_public@, b0.slh_dsa_public@, ra, rb);
        assert forall|i: int| 0 <= i < a1.len() implies root_entry_fits(#[trigger] a1[i]) by {
            assert(a1[i] == a[i + 1]);
        }
        assert forall|i: int| 0 <= i < b1.len() implies root_entry_fits(#[trigger] b1[i]) by {
            assert(b1[i] == b[i + 1]);
        }
        lemma_root_entries_prefix(a1, b1, x, y);
        assert forall|i: int| 0 <= i < a.len() implies same_root_entry(#[trigger] a[i], b[i]) by {
            if i > 0 {
                assert(a[i] == a1[i - 1]);
                assert(b[i] == b1[i - 1]);
            }
        }
    }
}

#[verifier::rlimit(60)]
proof fn lemma_tool_entry_prefix(a0: ToolEntry, b0: ToolEntry, ra: Seq<u8>, rb: Seq<u8>)
    requires
        tool_entry_fits(a0),
        tool_entry_fits(b0),
        tool_entry_enc(a0) + ra == tool_entry_enc(b0) + rb,
    ensures
        same_tool_entry(a0, b0),
        ra == rb,
{
    let ca = texts(a0.required_capabilities@);
    let cb = texts(b0.required_capabilities@);
    let pa = privilege_code(a0.privilege);
    let pb = privilege_code(b0.privilege);
    let qa = response_code(a0.response_class);
    let qb = response_code(b0.response_class);
    let ta = lps_list(ca) + ra;
    let tb = lps_list(cb) + rb;
    assert(tool_entry_enc(a0) + ra =~= lps(a0.id.0@) + (lps(a0.schema.detail@) + (seq![pa] + (
    seq![qa] + ta))));
    assert(tool_entry_enc(b0) + rb =~= lps(b0.id.0@) + (lps(b0.schema.detail@) + (seq![pb] + (
    seq![qb] + tb))));
    lemma_lps_prefix(
        a0.id.0@,
        b0.id.0@,
        lps(a0.schema.detail@) + (seq![pa] + (seq![qa] + ta)),
        lps(b0.schema.detail@) + (seq![pb] + (seq![qb] + tb)),
    );
    lemma_lps_prefix(
        a0.schema.detail@,
        b0.schema.detail@,
        seq![pa] + (seq![qa] + ta),
        seq![pb] + (seq![qb] + tb),
    );
    lemma_u8_prefix(pa, pb, seq![qa] + ta, seq![qb] + tb);
    lemma_u8_prefix(qa, qb, ta, tb);
    lemma_lps_list_prefix(ca, cb, ra, rb);
}

#[verifier::rlimit(60)]
proof fn lemma_tool_entries_prefix(a: Seq<ToolEntry>, b: Seq<ToolEntry>, x: Seq<u8>, y: Seq<u8>)
    requires
        a.len() == b.len(),
        forall|i: int| 0 <= i < a.len() ==> tool_entry_fits(#[trigger] a[i]),
        forall|i: int| 0 <= i < b.len() ==> tool_entry_fits(#[trigger] b[i]),
        enc_each(a, tool_entry_fn()) + x == enc_each(b, tool_entry_fn()) + y,
    ensures
        forall|i: int| 0 <= i < a.len() ==> same_tool_entry(#[trigger] a[i], b[i]),
        x == y,
    decreases a.len(),
{
    let f = tool_entry_fn();
    if a.len() == 0 {
        assert(enc_each(a, f) + x =~= x);
        assert(enc_each(b, f) + y =~= y);
    } else {
        lemma_enc_each_front(a, f);
        lemma_enc_each_front(b, f);
        let a1 = a.drop_first();
        let b1 = b.drop_first();
        let ra = enc_each(a1, f) + x;
        let rb = enc_each(b1, f) + y;
        assert(enc_each(a, f) + x =~= tool_entry_enc(a[0]) + ra);
        assert(enc_each(b, f) + y =~= tool_entry_enc(b[0]) + rb);
        assert(tool_entry_fits(a[0]));
        assert(tool_entry_fits(b[0]));
        lemma_tool_entry_prefix(a[0], b[0], ra, rb);
        assert forall|i: int| 0 <= i < a1.len() implies tool_entry_fits(#[trigger] a1[i]) by {
            assert(a1[i] == a[i + 1]);
        }
        assert forall|i: int| 0 <= i < b1.len() implies tool_entry_fits(#[trigger] b1[i]) by {
            assert(b1[i] == b[i + 1]);
        }
        lemma_tool_entries_prefix(a1, b1, x, y);
        assert forall|i: int| 0 <= i < a.len() implies same_tool_entry(#[trigger] a[i], b[i]) by {
            if i > 0 {
                assert(a[i] == a1[i - 1]);
                assert(b[i] == b1[i - 1]);
            }
        }
    }
}

/// The tool register's encoding is unambiguous: two registers with the same signed content
/// hold the same entries, in the same order, each with the same identifier, schema,
/// privilege class, response class and required capabilities.
pub proof fn lemma_tools_content_injective(a: ToolGenome, b: ToolGenome)
    requires
        tools_fit(a),
        tools_fit(b),
        tools_content(a) == tools_content(b),
    ensures
        a.entries@.len() == b.entries@.len(),
        forall|i: int|
            0 <= i < a.entries@.len() ==> same_tool_entry(#[trigger] a.entries@[i], b.entries@[i]),
{
    let f = tool_entry_fn();
    let ea = a.entries@;
    let eb = b.entries@;
    let e = Seq::<u8>::empty();
    assert(tools_content(a) =~= lps(domain_tools()) + (be8(ea.len() as u64) + (enc_each(ea, f) + e)));
    assert(tools_content(b) =~= lps(domain_tools()) + (be8(eb.len() as u64) + (enc_each(eb, f) + e)));
    lemma_same_prefix(
        lps(domain_tools()),
        be8(ea.len() as u64) + (enc_each(ea, f) + e),
        be8(eb.len() as u64) + (enc_each(eb, f) + e),
    );
    lemma_be8_prefix(ea.len() as u64, eb.len() as u64, enc_each(ea, f) + e, enc_each(eb, f) + e);
    lemma_tool_entries_prefix(ea, eb, e, e);
}

/// The roots-of-trust encoding is unambiguous: two registers with the same signed content
/// hold the same entries, in the same order, each with the same subject and the same two
/// public keys.
pub proof fn lemma_roots_content_injective(a: RootsOfTrust, b: RootsOfTrust)
    requires
        roots_fit(a),
        roots_fit(b),
        roots_content(a) == roots_content(b),
    ensures
        a.entries@.len() == b.entries@.len(),
        forall|i: int|
            0 <= i < a.entries@.len() ==> same_root_entry(#[trigger] a.entries@[i], b.entries@[i]),
{
    let f = root_entry_fn();
    let ea = a.entries@;
    let eb = b.entries@;
    assert(roots_content(a) =~= lps(domain_roots()) + (be8(ea.len() as u64) + (enc_each(ea, f)
        + Seq::<u8>::empty())));
    assert(roots_content(b) =~= lps(domain_roots()) + (be8(eb.len() as u64) + (enc_each(eb, f)
        + Seq::<u8>::empty())));
    lemma_same_prefix(
        lps(domain_roots()),
        be8(ea.len() as u64) + (enc_each(ea, f) + Seq::<u8>::empty()),
        be8(eb.len() as u64) + (enc_each(eb, f) + Seq::<u8>::empty()),
    );
    lemma_be8_prefix(
        ea.len() as u64,
        eb.len() as u64,
        enc_each(ea, f) + Seq::<u8>::empty(),
        enc_each(eb, f) + Seq::<u8>::empty(),
    );
    lemma_root_entries_prefix(ea, eb, Seq::<u8>::empty(), Seq::<u8>::empty());
}

pub open spec fn invariant_entry_enc(e: InvariantEntry) -> Seq<u8> {
    lps(e.invariant.0@) + lps_list(texts(e.forbids_capabilities@)) + enc_list(
        e.forbids_privilege@,
        privilege_fn(),
    )
}

/// The signed content of the policy register.
pub closed spec fn policy_content(p: PolicyRegister) -> Seq<u8> {
    lps(domain_policy()) + lps_list(texts(p.capabilities@)) + enc_list(
        p.invariants@,
        invariant_entry_fn(),
    ) + enc_list(p.disallowed@, algorithm_fn())
}

/// The signed content of the whole genome: its own fields, then each register's signed
/// content followed by that register's signature.
pub closed spec fn genome_content(g: Genome) -> Seq<u8> {
    lps(domain_genome()) + genome_body(g)
}

/// What the genome's signed content holds after its domain tag.
pub closed spec fn genome_body(g: Genome) -> Seq<u8> {
    lps(g.version.0@) + seq![tier_code(g.tier)] + digest_enc(g.corpus_digest)
        + lps(g.owner.name@) + lps(g.owner.id@) + tools_content(g.tools) + dual_enc(g.tools.signature)
        + cbom_content(g.cbom) + dual_enc(g.cbom.signature) + aibom_content(g.aibom) + dual_enc(
        g.aibom.signature,
    ) + endpoints_content(g.endpoints) + dual_enc(g.endpoints.signature) + roots_content(g.roots)
        + dual_enc(g.roots.signature) + policy_content(g.policy) + dual_enc(g.policy.signature)
}

pub(crate) proof fn lemma_tools_tagged(t: ToolGenome)
    ensures
        lps(domain_tools()).len() <= tools_content(t).len(),
        tools_content(t).subrange(0, lps(domain_tools()).len() as int) == lps(domain_tools()),
{
    assert(tools_content(t).subrange(0, lps(domain_tools()).len() as int) =~= lps(domain_tools()));
}

proof fn lemma_cbom_tagged(b: Cbom)
    ensures
        lps(domain_cbom()).len() <= cbom_content(b).len(),
        cbom_content(b).subrange(0, lps(domain_cbom()).len() as int) == lps(domain_cbom()),
{
    assert(cbom_content(b).subrange(0, lps(domain_cbom()).len() as int) =~= lps(domain_cbom()));
}

proof fn lemma_aibom_tagged(a: Aibom)
    ensures
        lps(domain_aibom()).len() <= aibom_content(a).len(),
        aibom_content(a).subrange(0, lps(domain_aibom()).len() as int) == lps(domain_aibom()),
{
    assert(aibom_content(a).subrange(0, lps(domain_aibom()).len() as int) =~= lps(domain_aibom()));
}

proof fn lemma_endpoints_tagged(e: EndpointRegistry)
    ensures
        lps(domain_endpoints()).len() <= endpoints_content(e).len(),
        endpoints_content(e).subrange(0, lps(domain_endpoints()).len() as int) == lps(domain_endpoints()),
{
    assert(endpoints_content(e).subrange(0, lps(domain_endpoints()).len() as int) =~= lps(domain_endpoints()));
}

pub(crate) proof fn lemma_roots_tagged(r: RootsOfTrust)
    ensures
        lps(domain_roots()).len() <= roots_content(r).len(),
        roots_content(r).subrange(0, lps(domain_roots()).len() as int) == lps(domain_roots()),
{
    assert(roots_content(r).subrange(0, lps(domain_roots()).len() as int) =~= lps(domain_roots()));
}

proof fn lemma_policy_tagged(p: PolicyRegister)
    ensures
        lps(domain_policy()).len() <= policy_content(p).len(),
        policy_content(p).subrange(0, lps(domain_policy()).len() as int) == lps(domain_policy()),
{
    assert(policy_content(p).subrange(0, lps(domain_policy()).len() as int) =~= lps(domain_policy()));
}

pub(crate) proof fn lemma_genome_tagged(g: Genome)
    ensures
        lps(domain_genome()).len() <= genome_content(g).len(),
        genome_content(g).subrange(0, lps(domain_genome()).len() as int) == lps(domain_genome()),
{
    assert(genome_content(g).subrange(0, lps(domain_genome()).len() as int) =~= lps(domain_genome()));
}

proof fn lemma_genome_domains()
    ensures
        is_ascii_chars(domain_tools()),
        domain_tools().len() <= u64::MAX,
        is_ascii_chars(domain_cbom()),
        domain_cbom().len() <= u64::MAX,
        is_ascii_chars(domain_aibom()),
        domain_aibom().len() <= u64::MAX,
        is_ascii_chars(domain_endpoints()),
        domain_endpoints().len() <= u64::MAX,
        is_ascii_chars(domain_roots()),
        domain_roots().len() <= u64::MAX,
        is_ascii_chars(domain_policy()),
        domain_policy().len() <= u64::MAX,
        is_ascii_chars(domain_genome()),
        domain_genome().len() <= u64::MAX,
        domain_tools() != domain_cbom(),
        domain_tools() != domain_aibom(),
        domain_tools() != domain_endpoints(),
        domain_tools() != domain_roots(),
        domain_tools() != domain_policy(),
        domain_tools() != domain_genome(),
        domain_cbom() != domain_aibom(),
        domain_cbom() != domain_endpoints(),
        domain_cbom() != domain_roots(),
        domain_cbom() != domain_policy(),
        domain_cbom() != domain_genome(),
        domain_aibom() != domain_endpoints(),
        domain_aibom() != domain_roots(),
        domain_aibom() != domain_policy(),
        domain_aibom() != domain_genome(),
        domain_endpoints() != domain_roots(),
        domain_endpoints() != domain_policy(),
        domain_endpoints() != domain_genome(),
        domain_roots() != domain_policy(),
        domain_roots() != domain_genome(),
        domain_policy() != domain_genome(),
{
    reveal_strlit("brokkr-genome:tools:v1");
    reveal_strlit("brokkr-genome:cbom:v1");
    reveal_strlit("brokkr-genome:aibom:v1");
    reveal_strlit("brokkr-genome:endpoints:v1");
    reveal_strlit("brokkr-genome:roots:v1");
    reveal_strlit("brokkr-genome:policy:v1");
    reveal_strlit("brokkr-genome:genome:v1");
    assert(domain_tools()[14] != domain_cbom()[14]);
    assert(domain_tools()[14] != domain_aibom()[14]);
    assert(domain_tools()[14] != domain_endpoints()[14]);
    assert(domain_tools()[14] != domain_roots()[14]);
    assert(domain_tools()[14] != domain_policy()[14]);
    assert(domain_tools()[14] != domain_genome()[14]);
    assert(domain_cbom()[14] != domain_aibom()[14]);
    assert(domain_cbom()[14] != domain_endpoints()[14]);
    assert(domain_cbom()[14] != domain_roots()[14]);
    assert(domain_cbom()[14] != domain_policy()[14]);
    assert(domain_cbom()[14] != domain_genome()[14]);
    assert(domain_aibom()[14] != domain_endpoints()[14]);
    assert(domain_aibom()[14] != domain_roots()[14]);
    assert(domain_aibom()[14] != domain_policy()[14]);
    assert(domain_aibom()[14] != domain_genome()[14]);
    assert(domain_endpoints()[14] != domain_roots()[14]);
    assert(domain_endpoints()[14] != domain_policy()[14]);
    assert(domain_endpoints()[14] != domain_genome()[14]);
    assert(domain_roots()[14] != domain_policy()[14]);
    assert(domain_roots()[14] != domain_genome()[14]);
    assert(domain_policy()[14] != domain_genome()[14]);
}

/// Domain separation: the signed contents of two different kinds of genome record never
/// coincide, because each begins with its own length-prefixed domain tag. A signature over
/// one kind of register can never stand for another.
#[verifier::rlimit(40)]
pub proof fn lemma_registers_domain_separated(t: ToolGenome, b: Cbom, a: Aibom, e: EndpointRegistry, r: RootsOfTrust, p: PolicyRegister, g: Genome)
    ensures
        tools_content(t) != cbom_content(b),
        tools_content(t) != aibom_content(a),
        tools_content(t) != endpoints_content(e),
        tools_content(t) != roots_content(r),
        tools_content(t) != policy_content(p),
        tools_content(t) != genome_content(g),
        cbom_content(b) != aibom_content(a),
        cbom_content(b) != endpoints_content(e),
        cbom_content(b) != roots_content(r),
        cbom_content(b) != policy_content(p),
        cbom_content(b) != genome_content(g),
        aibom_content(a) != endpoints_content(e),
        aibom_content(a) != roots_content(r),
        aibom_content(a) != policy_content(p),
        aibom_content(a) != genome_content(g),
        endpoints_content(e) != roots_content(r),
        endpoints_content(e) != policy_content(p),
        endpoints_content(e) != genome_content(g),
        roots_content(r) != policy_content(p),
        roots_content(r) != genome_content(g),
        policy_content(p) != genome_content(g),
{
    lemma_genome_domains();
    lemma_tools_tagged(t);
    lemma_cbom_tagged(b);
    lemma_aibom_tagged(a);
    lemma_endpoints_tagged(e);
    lemma_roots_tagged(r);
    lemma_policy_tagged(p);
    lemma_genome_tagged(g);
    lemma_tagged_apart(domain_tools(), domain_cbom(), tools_content(t), cbom_content(b));
    lemma_tagged_apart(domain_tools(), domain_aibom(), tools_content(t), aibom_content(a));
    lemma_tagged_apart(domain_tools(), domain_endpoints(), tools_content(t), endpoints_content(e));
    lemma_tagged_apart(domain_tools(), domain_roots(), tools_content(t), roots_content(r));
    lemma_tagged_apart(domain_tools(), domain_policy(), tools_content(t), policy_content(p));
    lemma_tagged_apart(domain_tools(), domain_genome(), tools_content(t), genome_content(g));
    lemma_tagged_apart(domain_cbom(), domain_aibom(), cbom_content(b), aibom_content(a));
    lemma_tagged_apart(domain_cbom(), domain_endpoints(), cbom_content(b), endpoints_content(e));
    lemma_tagged_apart(domain_cbom(), domain_roots(), cbom_content(b), roots_content(r));
    lemma_tagged_apart(domain_cbom(), domain_policy(), cbom_content(b), policy_content(p));
    lemma_tagged_apart(domain_cbom(), domain_genome(), cbom_content(b), genome_content(g));
    lemma_tagged_apart(domain_aibom(), domain_endpoints(), aibom_content(a), endpoints_content(e));
    lemma_tagged_apart(domain_aibom(), domain_roots(), aibom_content(a), roots_content(r));
    lemma_tagged_apart(domain_aibom(), domain_policy(), aibom_content(a), policy_content(p));
    lemma_tagged_apart(domain_aibom(), domain_genome(), aibom_content(a), genome_content(g));
    lemma_tagged_apart(domain_endpoints(), domain_roots(), endpoints_content(e), roots_content(r));
    lemma_tagged_apart(domain_endpoints(), domain_policy(), endpoints_content(e), policy_content(p));
    lemma_tagged_apart(domain_endpoints(), domain_genome(), endpoints_content(e), genome_content(g));
    lemma_tagged_apart(domain_roots(), domain_policy(), roots_content(r), policy_content(p));
    lemma_tagged_apart(domain_roots(), domain_genome(), roots_content(r), genome_content(g));
    lemma_tagged_apart(domain_policy(), domain_genome(), policy_content(p), genome_content(g));
}

pub open spec fn tool_entry_fn() -> spec_fn(ToolEntry) -> Seq<u8> {
    |e: ToolEntry| tool_entry_enc(e)
}

pub open spec fn algorithm_fn() -> spec_fn(AlgorithmId) -> Seq<u8> {
    |a: AlgorithmId| algorithm_enc(a)
}

pub open spec fn endpoint_fn() -> spec_fn(ModelEndpoint) -> Seq<u8> {
    |e: ModelEndpoint| endpoint_enc(e)
}

pub open spec fn root_entry_fn() -> spec_fn(RootOfTrustEntry) -> Seq<u8> {
    |e: RootOfTrustEntry| root_entry_enc(e)
}

pub open spec fn privilege_fn() -> spec_fn(PrivilegeClass) -> Seq<u8> {
    |p: PrivilegeClass| seq![privilege_code(p)]
}

pub open spec fn invariant_entry_fn() -> spec_fn(InvariantEntry) -> Seq<u8> {
    |e: InvariantEntry| invariant_entry_enc(e)
}

fn write_tool_entry(c: &mut Canon, e: &ToolEntry)
    ensures
        final(c).buf@ == old(c).buf@ + tool_entry_enc(*e),
{
    c.put_str(e.id.as_str());
    c.put_str(e.schema.detail.as_str());
    c.put_u8(privilege_tag(e.privilege));
    c.put_u8(response_tag(e.response_class));
    c.put_str_list(&e.required_capabilities);
    assert(final(c).buf@ =~= old(c).buf@ + tool_entry_enc(*e));
}

fn write_tools(c: &mut Canon, t: &ToolGenome)
    ensures
        final(c).buf@ == old(c).buf@ + tools_content(*t),
{
    let ghost start = c.buf@;
    c.put_str("brokkr-genome:tools:v1");
    c.put_u64(t.entries.len() as u64);
    let mut i: usize = 0;
    while i < t.entries.len()
        invariant
            0 <= i <= t.entries@.len(),
            c.buf@ == start + lps(domain_tools()) + be8(t.entries@.len() as u64) + enc_each(
                t.entries@.subrange(0, i as int), tool_entry_fn(),
            ),
        decreases t.entries@.len() - i,
    {
        write_tool_entry(c, &t.entries[i]);
        proof {
            lemma_enc_each_step(t.entries@, tool_entry_fn(), i as int);
        }
        assert(tool_entry_fn()(t.entries@[i as int]) == tool_entry_enc(t.entries@[i as int]));
        assert(c.buf@ =~= start + lps(domain_tools()) + be8(t.entries@.len() as u64) + enc_each(
                t.entries@.subrange(0, i + 1), tool_entry_fn(),
            ));
        i = i + 1;
    }
    assert(t.entries@.subrange(0, t.entries@.len() as int) =~= t.entries@);
    assert(c.buf@ =~= start + tools_content(*t));
}

fn write_procedure(c: &mut Canon, p: &ProcedureRef)
    ensures
        final(c).buf@ == old(c).buf@ + procedure_enc(*p),
{
    c.put_str(p.document.as_str());
    write_digest(c, &p.digest);
    assert(final(c).buf@ =~= old(c).buf@ + procedure_enc(*p));
}

fn write_extraction(c: &mut Canon, p: &ExtractionProtection)
    ensures
        final(c).buf@ == old(c).buf@ + extraction_enc(*p),
{
    match p {
        ExtractionProtection::ProcessIsolationOnly => c.put_u8(1),
        ExtractionProtection::EncryptedAtRest => c.put_u8(2),
        ExtractionProtection::Other { description } => {
            c.put_u8(3);
            c.put_str(description.as_str());
        },
    }
    assert(final(c).buf@ =~= old(c).buf@ + extraction_enc(*p));
}

fn write_fips(c: &mut Canon, f: &FipsValidation)
    ensures
        final(c).buf@ == old(c).buf@ + fips_enc(*f),
{
    match f {
        FipsValidation::NotValidated => c.put_u8(1),
        FipsValidation::Level { level, certificate } => {
            c.put_u8(2);
            c.put_u8(*level);
            c.put_str(certificate.as_str());
        },
    }
    assert(final(c).buf@ =~= old(c).buf@ + fips_enc(*f));
}

fn write_interface(c: &mut Canon, i: &BoundaryInterface)
    ensures
        final(c).buf@ == old(c).buf@ + interface_enc(*i),
{
    match i {
        BoundaryInterface::Pkcs11 => c.put_u8(1),
        BoundaryInterface::CloudKms => c.put_u8(2),
        BoundaryInterface::Tpm => c.put_u8(3),
        BoundaryInterface::SecureEnclave => c.put_u8(4),
        BoundaryInterface::Other { description } => {
            c.put_u8(5);
            c.put_str(description.as_str());
        },
    }
    assert(final(c).buf@ =~= old(c).buf@ + interface_enc(*i));
}

fn write_boundary(c: &mut Canon, b: &HardwareBoundary)
    ensures
        final(c).buf@ == old(c).buf@ + boundary_enc(*b),
{
    c.put_str(b.module.as_str());
    write_interface(c, &b.interface);
    write_fips(c, &b.fips);
    assert(final(c).buf@ =~= old(c).buf@ + boundary_enc(*b));
}

fn write_dual_control(c: &mut Canon, d: &DualControl)
    ensures
        final(c).buf@ == old(c).buf@ + dual_control_enc(*d),
{
    match d {
        DualControl::SingleOperator => c.put_u8(1),
        DualControl::TwoParty { procedure } => {
            c.put_u8(2);
            write_procedure(c, procedure);
        },
    }
    assert(final(c).buf@ =~= old(c).buf@ + dual_control_enc(*d));
}

fn write_custodians(c: &mut Canon, s: &CustodianSeparation)
    ensures
        final(c).buf@ == old(c).buf@ + custodians_enc(*s),
{
    c.put_u8(s.independent_parties);
    write_procedure(c, &s.separation_of_duty);
    assert(final(c).buf@ =~= old(c).buf@ + custodians_enc(*s));
}

fn write_custody(c: &mut Canon, k: &KeyCustody)
    ensures
        final(c).buf@ == old(c).buf@ + custody_enc(*k),
{
    match k {
        KeyCustody::SoftwareInProcess { protection } => {
            c.put_u8(1);
            write_extraction(c, protection);
        },
        KeyCustody::HardwareBacked { boundary, dual_control } => {
            c.put_u8(2);
            write_boundary(c, boundary);
            write_dual_control(c, dual_control);
        },
        KeyCustody::Threshold {
            boundary,
            dual_control,
            quorum,
            custodians,
            ceremony,
            recovery,
            rotation,
            last_rehearsal,
        } => {
            c.put_u8(3);
            write_boundary(c, boundary);
            write_dual_control(c, dual_control);
            c.put_u8(quorum.k);
            c.put_u8(quorum.n);
            write_custodians(c, custodians);
            write_procedure(c, ceremony);
            write_procedure(c, recovery);
            write_procedure(c, rotation);
            c.put_u64(last_rehearsal.0);
        },
    }
    assert(final(c).buf@ =~= old(c).buf@ + custody_enc(*k));
}

fn write_algorithm(c: &mut Canon, a: &AlgorithmId)
    ensures
        final(c).buf@ == old(c).buf@ + algorithm_enc(*a),
{
    match a {
        AlgorithmId::Signature(s) => {
            c.put_u8(1);
            c.put_u8(sigalg_tag(*s));
        },
        AlgorithmId::Hash(h) => {
            c.put_u8(2);
            c.put_u8(hashalg_tag(*h));
        },
        AlgorithmId::Kem(k) => {
            c.put_u8(3);
            c.put_u8(kem_tag(*k));
        },
    }
    assert(final(c).buf@ =~= old(c).buf@ + algorithm_enc(*a));
}

fn write_algorithms(c: &mut Canon, v: &Vec<AlgorithmId>)
    ensures
        final(c).buf@ == old(c).buf@ + enc_list(v@, algorithm_fn()),
{
    let ghost start = c.buf@;
    c.put_u64(v.len() as u64);
    let mut i: usize = 0;
    while i < v.len()
        invariant
            0 <= i <= v@.len(),
            c.buf@ == start + be8(v@.len() as u64) + enc_each(v@.subrange(0, i as int), algorithm_fn()),
        decreases v@.len() - i,
    {
        write_algorithm(c, &v[i]);
        proof {
            lemma_enc_each_step(v@, algorithm_fn(), i as int);
        }
        assert(algorithm_fn()(v@[i as int]) == algorithm_enc(v@[i as int]));
        assert(c.buf@ =~= start + be8(v@.len() as u64) + enc_each(v@.subrange(0, i + 1), algorithm_fn()));
        i = i + 1;
    }
    assert(v@.subrange(0, v@.len() as int) =~= v@);
    assert(c.buf@ =~= start + enc_list(v@, algorithm_fn()));
}

fn write_cbom(c: &mut Canon, b: &Cbom)
    ensures
        final(c).buf@ == old(c).buf@ + cbom_content(*b),
{
    c.put_str("brokkr-genome:cbom:v1");
    c.put_str(b.cyclonedx.as_str());
    write_algorithms(c, &b.algorithms);
    write_custody(c, &b.custody);
    assert(final(c).buf@ =~= old(c).buf@ + cbom_content(*b));
}

fn write_aibom(c: &mut Canon, b: &Aibom)
    ensures
        final(c).buf@ == old(c).buf@ + aibom_content(*b),
{
    c.put_str("brokkr-genome:aibom:v1");
    c.put_str(b.cyclonedx.as_str());
    assert(final(c).buf@ =~= old(c).buf@ + aibom_content(*b));
}

fn write_trust(c: &mut Canon, v: &VendorTrustScore)
    ensures
        final(c).buf@ == old(c).buf@ + trust_enc(*v),
{
    c.put_u8(v.attestation_capability.0);
    c.put_u8(v.fips_validation.0);
    c.put_u8(v.breach_history.0);
    c.put_u8(v.jurisdictional_exposure.0);
    c.put_u8(v.data_handling.0);
    c.put_u8(v.reconciliation_pass_rate.0);
    c.put_u64(v.evidence.observations);
    c.put_u64(v.evidence.measured.0);
    c.put_u64(v.reviewed.0);
    c.put_str(v.reviewer.name.as_str());
    c.put_str(v.reviewer.id.as_str());
    assert(final(c).buf@ =~= old(c).buf@ + trust_enc(*v));
}

fn write_endpoint(c: &mut Canon, e: &ModelEndpoint)
    ensures
        final(c).buf@ == old(c).buf@ + endpoint_enc(*e),
{
    c.put_str(e.id.as_str());
    c.put_str(e.model.name.as_str());
    c.put_str(e.model.version.as_str());
    c.put_str(e.model.provider.as_str());
    c.put_str(e.client_cert.as_str());
    c.put_str(e.server_trust.as_str());
    c.put_u8(group_tag(e.min_group));
    c.put_u8(classification_tag(e.max_classification));
    write_trust(c, &e.trust_score);
    assert(final(c).buf@ =~= old(c).buf@ + endpoint_enc(*e));
}

fn write_endpoints(c: &mut Canon, r: &EndpointRegistry)
    ensures
        final(c).buf@ == old(c).buf@ + endpoints_content(*r),
{
    let ghost start = c.buf@;
    c.put_str("brokkr-genome:endpoints:v1");
    c.put_u64(r.endpoints.len() as u64);
    let mut i: usize = 0;
    while i < r.endpoints.len()
        invariant
            0 <= i <= r.endpoints@.len(),
            c.buf@ == start + lps(domain_endpoints()) + be8(r.endpoints@.len() as u64) + enc_each(
                r.endpoints@.subrange(0, i as int), endpoint_fn(),
            ),
        decreases r.endpoints@.len() - i,
    {
        write_endpoint(c, &r.endpoints[i]);
        proof {
            lemma_enc_each_step(r.endpoints@, endpoint_fn(), i as int);
        }
        assert(endpoint_fn()(r.endpoints@[i as int]) == endpoint_enc(r.endpoints@[i as int]));
        assert(c.buf@ =~= start + lps(domain_endpoints()) + be8(r.endpoints@.len() as u64) + enc_each(
                r.endpoints@.subrange(0, i + 1), endpoint_fn(),
            ));
        i = i + 1;
    }
    assert(r.endpoints@.subrange(0, r.endpoints@.len() as int) =~= r.endpoints@);
    assert(c.buf@ =~= start + endpoints_content(*r));
}

fn write_root_entry(c: &mut Canon, e: &RootOfTrustEntry)
    ensures
        final(c).buf@ == old(c).buf@ + root_entry_enc(*e),
{
    c.put_str(e.subject.as_str());
    c.put_bytes(e.ml_dsa_public.as_slice());
    c.put_bytes(e.slh_dsa_public.as_slice());
    assert(final(c).buf@ =~= old(c).buf@ + root_entry_enc(*e));
}

fn write_roots(c: &mut Canon, r: &RootsOfTrust)
    ensures
        final(c).buf@ == old(c).buf@ + roots_content(*r),
{
    let ghost start = c.buf@;
    c.put_str("brokkr-genome:roots:v1");
    c.put_u64(r.entries.len() as u64);
    let mut i: usize = 0;
    while i < r.entries.len()
        invariant
            0 <= i <= r.entries@.len(),
            c.buf@ == start + lps(domain_roots()) + be8(r.entries@.len() as u64) + enc_each(
                r.entries@.subrange(0, i as int), root_entry_fn(),
            ),
        decreases r.entries@.len() - i,
    {
        write_root_entry(c, &r.entries[i]);
        proof {
            lemma_enc_each_step(r.entries@, root_entry_fn(), i as int);
        }
        assert(root_entry_fn()(r.entries@[i as int]) == root_entry_enc(r.entries@[i as int]));
        assert(c.buf@ =~= start + lps(domain_roots()) + be8(r.entries@.len() as u64) + enc_each(
                r.entries@.subrange(0, i + 1), root_entry_fn(),
            ));
        i = i + 1;
    }
    assert(r.entries@.subrange(0, r.entries@.len() as int) =~= r.entries@);
    assert(c.buf@ =~= start + roots_content(*r));
}

fn write_privileges(c: &mut Canon, v: &Vec<PrivilegeClass>)
    ensures
        final(c).buf@ == old(c).buf@ + enc_list(v@, privilege_fn()),
{
    let ghost start = c.buf@;
    c.put_u64(v.len() as u64);
    let mut i: usize = 0;
    while i < v.len()
        invariant
            0 <= i <= v@.len(),
            c.buf@ == start + be8(v@.len() as u64) + enc_each(v@.subrange(0, i as int), privilege_fn()),
        decreases v@.len() - i,
    {
        c.put_u8(privilege_tag(v[i]));
        proof {
            lemma_enc_each_step(v@, privilege_fn(), i as int);
        }
        assert(privilege_fn()(v@[i as int]) == seq![privilege_code(v@[i as int])]);
        assert(c.buf@ =~= start + be8(v@.len() as u64) + enc_each(v@.subrange(0, i + 1), privilege_fn()));
        i = i + 1;
    }
    assert(v@.subrange(0, v@.len() as int) =~= v@);
    assert(c.buf@ =~= start + enc_list(v@, privilege_fn()));
}

fn write_invariant_entry(c: &mut Canon, e: &InvariantEntry)
    ensures
        final(c).buf@ == old(c).buf@ + invariant_entry_enc(*e),
{
    c.put_str(e.invariant.0.as_str());
    c.put_str_list(&e.forbids_capabilities);
    write_privileges(c, &e.forbids_privilege);
    assert(final(c).buf@ =~= old(c).buf@ + invariant_entry_enc(*e));
}

fn write_policy(c: &mut Canon, p: &PolicyRegister)
    ensures
        final(c).buf@ == old(c).buf@ + policy_content(*p),
{
    let ghost start = c.buf@;
    c.put_str("brokkr-genome:policy:v1");
    c.put_str_list(&p.capabilities);
    let ghost mid = c.buf@;
    c.put_u64(p.invariants.len() as u64);
    let mut i: usize = 0;
    while i < p.invariants.len()
        invariant
            0 <= i <= p.invariants@.len(),
            c.buf@ == mid + be8(p.invariants@.len() as u64) + enc_each(
                p.invariants@.subrange(0, i as int), invariant_entry_fn(),
            ),
        decreases p.invariants@.len() - i,
    {
        write_invariant_entry(c, &p.invariants[i]);
        proof {
            lemma_enc_each_step(p.invariants@, invariant_entry_fn(), i as int);
        }
        assert(invariant_entry_fn()(p.invariants@[i as int]) == invariant_entry_enc(p.invariants@[i as int]));
        assert(c.buf@ =~= mid + be8(p.invariants@.len() as u64) + enc_each(
                p.invariants@.subrange(0, i + 1), invariant_entry_fn(),
            ));
        i = i + 1;
    }
    assert(p.invariants@.subrange(0, p.invariants@.len() as int) =~= p.invariants@);
    write_algorithms(c, &p.disallowed);
    assert(c.buf@ =~= start + policy_content(*p));
}

/// The signed content of the tool register.
pub fn tools_signed_content(t: &ToolGenome) -> (out: Vec<u8>)
    ensures
        out@ == tools_content(*t),
{
    let mut c = Canon::new();
    write_tools(&mut c, t);
    assert(c.buf@ =~= tools_content(*t));
    c.finish()
}

/// The signed content of the cryptographic bill of materials.
pub fn cbom_signed_content(b: &Cbom) -> (out: Vec<u8>)
    ensures
        out@ == cbom_content(*b),
{
    let mut c = Canon::new();
    write_cbom(&mut c, b);
    assert(c.buf@ =~= cbom_content(*b));
    c.finish()
}

/// The signed content of the AI bill of materials.
pub fn aibom_signed_content(b: &Aibom) -> (out: Vec<u8>)
    ensures
        out@ == aibom_content(*b),
{
    let mut c = Canon::new();
    write_aibom(&mut c, b);
    assert(c.buf@ =~= aibom_content(*b));
    c.finish()
}

/// The signed content of the endpoint registry.
pub fn endpoints_signed_content(r: &EndpointRegistry) -> (out: Vec<u8>)
    ensures
        out@ == endpoints_content(*r),
{
    let mut c = Canon::new();
    write_endpoints(&mut c, r);
    assert(c.buf@ =~= endpoints_content(*r));
    c.finish()
}

/// The signed content of the roots of trust.
pub fn roots_signed_content(r: &RootsOfTrust) -> (out: Vec<u8>)
    ensures
        out@ == roots_content(*r),
{
    let mut c = Canon::new();
    write_roots(&mut c, r);
    assert(c.buf@ =~= roots_content(*r));
    c.finish()
}

/// The signed content of the policy register.
pub fn policy_signed_content(p: &PolicyRegister) -> (out: Vec<u8>)
    ensures
        out@ == policy_content(*p),
{
    let mut c = Canon::new();
    write_policy(&mut c, p);
    assert(c.buf@ =~= policy_content(*p));
    c.finish()
}

proof fn lemma_assoc3(a: Seq<u8>, b: Seq<u8>, c: Seq<u8>)
    ensures
        (a + b) + c == a + (b + c),
{
    assert((a + b) + c =~= a + (b + c));
}

#[verifier::rlimit(40)]
fn write_genome_body(c: &mut Canon, g: &Genome)
    ensures
        final(c).buf@ == old(c).buf@ + genome_body(*g),
{
    let ghost start = c.buf@;
    let ghost mut acc = Seq::<u8>::empty();
    c.put_str(g.version.as_str());
    proof {
        lemma_assoc3(start, acc, lps(g.version.0@));
        acc = acc + lps(g.version.0@);
    }
    assert(c.buf@ == start + acc);
    c.put_u8(tier_tag(g.tier));
    proof {
        lemma_assoc3(start, acc, seq![tier_code(g.tier)]);
        acc = acc + seq![tier_code(g.tier)];
    }
    assert(c.buf@ == start + acc);
    write_digest(c, &g.corpus_digest);
    proof {
        lemma_assoc3(start, acc, digest_enc(g.corpus_digest));
        acc = acc + digest_enc(g.corpus_digest);
    }
    assert(c.buf@ == start + acc);
    c.put_str(g.owner.name.as_str());
    proof {
        lemma_assoc3(start, acc, lps(g.owner.name@));
        acc = acc + lps(g.owner.name@);
    }
    assert(c.buf@ == start + acc);
    c.put_str(g.owner.id.as_str());
    proof {
        lemma_assoc3(start, acc, lps(g.owner.id@));
        acc = acc + lps(g.owner.id@);
    }
    assert(c.buf@ == start + acc);
    write_tools(c, &g.tools);
    proof {
        lemma_assoc3(start, acc, tools_content(g.tools));
        acc = acc + tools_content(g.tools);
    }
    assert(c.buf@ == start + acc);
    write_dual_signature(c, &g.tools.signature);
    proof {
        lemma_assoc3(start, acc, dual_enc(g.tools.signature));
        acc = acc + dual_enc(g.tools.signature);
    }
    assert(c.buf@ == start + acc);
    write_cbom(c, &g.cbom);
    proof {
        lemma_assoc3(start, acc, cbom_content(g.cbom));
        acc = acc + cbom_content(g.cbom);
    }
    assert(c.buf@ == start + acc);
    write_dual_signature(c, &g.cbom.signature);
    proof {
        lemma_assoc3(start, acc, dual_enc(g.cbom.signature));
        acc = acc + dual_enc(g.cbom.signature);
    }
    assert(c.buf@ == start + acc);
    write_aibom(c, &g.aibom);
    proof {
        lemma_assoc3(start, acc, aibom_content(g.aibom));
        acc = acc + aibom_content(g.aibom);
    }
    assert(c.buf@ == start + acc);
    write_dual_signature(c, &g.aibom.signature);
    proof {
        lemma_assoc3(start, acc, dual_enc(g.aibom.signature));
        acc = acc + dual_enc(g.aibom.signature);
    }
    assert(c.buf@ == start + acc);
    write_endpoints(c, &g.endpoints);
    proof {
        lemma_assoc3(start, acc, endpoints_content(g.endpoints));
        acc = acc + endpoints_content(g.endpoints);
    }
    assert(c.buf@ == start + acc);
    write_dual_signature(c, &g.endpoints.signature);
    proof {
        lemma_assoc3(start, acc, dual_enc(g.endpoints.signature));
        acc = acc + dual_enc(g.endpoints.signature);
    }
    assert(c.buf@ == start + acc);
    write_roots(c, &g.roots);
    proof {
        lemma_assoc3(start, acc, roots_content(g.roots));
        acc = acc + roots_content(g.roots);
    }
    assert(c.buf@ == start + acc);
    write_dual_signature(c, &g.roots.signature);
    proof {
        lemma_assoc3(start, acc, dual_enc(g.roots.signature));
        acc = acc + dual_enc(g.roots.signature);
    }
    assert(c.buf@ == start + acc);
    write_policy(c, &g.policy);
    proof {
        lemma_assoc3(start, acc, policy_content(g.policy));
        acc = acc + policy_content(g.policy);
    }
    assert(c.buf@ == start + acc);
    write_dual_signature(c, &g.policy.signature);
    proof {
        lemma_assoc3(start, acc, dual_enc(g.policy.signature));
        acc = acc + dual_enc(g.policy.signature);
    }
    assert(c.buf@ == start + acc);
    assert(acc == genome_body(*g));
}

/// The signed content of the whole genome.
pub fn genome_signed_content(g: &Genome) -> (out: Vec<u8>)
    ensures
        out@ == genome_content(*g),
{
    let mut c = Canon::new();
    c.put_str("brokkr-genome:genome:v1");
    write_genome_body(&mut c, g);
    assert(c.buf@ =~= genome_content(*g));
    c.finish()
}

} // verus!
