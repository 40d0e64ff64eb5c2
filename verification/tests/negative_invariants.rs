use core::time::Duration;

use brokkr::adapt::{
    AdaptError, DetectorDelta, DetectorProvenance, DetectorSpecBase, EvaluationCorpus,
    MaturationPipeline, PriorGeneration, RefinedDetector, SeedingIncident, SelectionPass,
};
use brokkr::barrier::{BarrierCondition, BarrierFinding, BarrierVerdict, Destination};
use brokkr::classification::{ChannelStrength, Classification, NamedGroup, effective_authorization};
use brokkr::crypto::{
    Attestation, CryptoError, Digest, DualSignature, HashAlg, Hasher, Signature, SignatureAlg,
    Signer, Verifier,
};
use brokkr::gate::{Action, AnergyReason, AuthorizationDecision, CostimulationGate};
use brokkr::genome::{FactorEvidence, ModelEndpoint, VendorTrustScore};
use brokkr::ids::{
    ClientCertRef, CorpusVersion, Dap, DatumRef, DetectorId, EscalationId, GrantId, IncidentId,
    ModelEndpointId, ModelIdentity, Nonce, Score, SelfSetVersion, SubjectId, Timestamp, ToolId,
    TrustAnchor,
};
use brokkr::intent::{
    AttenuationError, Capability, IntentProvenanceChain, IntentScope, Invariant, InvariantSet,
    RootIntent,
};
use brokkr::reasoner::{Context, ContextClearance};
use brokkr::resolution::{
    BaselinePosture, EscalationType, ClearCondition, ClearEvidence, ResolutionDecision, ResolutionEngine, ResolutionVerdict,
    ResolveError, ReturnedToBaseline,
};
use brokkr::tolerance::{
    DetectorSpec, ResponseClass, ScreenPass, SelfSet, SuppressionScope, ToleranceController,
    ToleranceError, ToleranceGrant,
};

/// A signer that returns the message as its signature: no cryptography.
struct MockSigner {
    alg: SignatureAlg,
}

impl Signer for MockSigner {
    fn signing_alg(&self) -> SignatureAlg {
        self.alg
    }
    fn algorithm(&self) -> SignatureAlg {
        self.alg
    }
    fn sign(&self, msg: &[u8]) -> Result<Signature, CryptoError> {
        Ok(Signature {
            alg: self.alg,
            bytes: msg.to_vec(),
        })
    }
}

/// Accepts a signature iff its bytes equal the message.
struct MockVerifier {
    alg: SignatureAlg,
}

impl Verifier for MockVerifier {
    fn verifying_alg(&self) -> SignatureAlg {
        self.alg
    }
    fn algorithm(&self) -> SignatureAlg {
        self.alg
    }
    fn verify(&self, msg: &[u8], sig: &Signature) -> Result<(), CryptoError> {
        if sig.alg == self.alg && sig.bytes == msg {
            Ok(())
        } else {
            Err(CryptoError::VerificationFailed)
        }
    }
}

struct MockHasher;

impl Hasher for MockHasher {
    fn algorithm(&self) -> HashAlg {
        HashAlg::Sha384
    }
    fn hash(&self, msg: &[u8]) -> Digest {
        Digest {
            alg: HashAlg::Sha384,
            bytes: msg.to_vec(),
        }
    }
}

fn dual_sig() -> DualSignature {
    DualSignature {
        lattice: Signature {
            alg: SignatureAlg::MlDsa65,
            bytes: vec![1, 2, 3],
        },
        hash_based: Signature {
            alg: SignatureAlg::SlhDsaShake192s,
            bytes: vec![4, 5, 6],
        },
    }
}

fn digest() -> Digest {
    Digest {
        alg: HashAlg::Sha384,
        bytes: vec![0; 48],
    }
}

fn dap() -> Dap {
    Dap::new("Jeremy Rose", "dap-1")
}

fn attestation() -> Attestation {
    Attestation {
        subject: SubjectId::new("hop-0"),
        measurements: digest(),
        freshness: Nonce(1),
        signatures: dual_sig(),
    }
}

#[test]
fn test_crypto_seam_usable_with_mock_no_ffi() {
    let signer = MockSigner {
        alg: SignatureAlg::MlDsa87,
    };
    let verifier = MockVerifier {
        alg: SignatureAlg::MlDsa87,
    };
    let hasher = MockHasher;

    let msg = b"governed action";
    let sig = signer.sign(msg).unwrap();
    assert_eq!(signer.algorithm(), SignatureAlg::MlDsa87);
    assert!(verifier.verify(msg, &sig).is_ok());
    assert!(verifier.verify(b"tampered", &sig).is_err());

    let d = hasher.hash(msg);
    assert_eq!(d.alg, HashAlg::Sha384);
}

fn root_intent(scope: IntentScope) -> RootIntent {
    RootIntent {
        principal: SubjectId::new("principal"),
        dap: dap(),
        scope,
        invariants: InvariantSet::new(vec![Invariant::new("no-network-egress")]),
        nonce: Nonce(1),
        expiry: Timestamp(10_000),
        signature: dual_sig(),
    }
}

fn chain_with_scope(caps: &[&str]) -> IntentProvenanceChain {
    let scope = IntentScope::new(caps.iter().map(|c| Capability::new(c)).collect());
    IntentProvenanceChain::new(root_intent(scope))
}

fn action() -> Action {
    Action {
        tool: ToolId::new("write_file"),
        detail: "./src/main.rs".into(),
    }
}

/// The evaluation time every call site supplies; well before the fixtures' expiry.
const NOW: Timestamp = Timestamp(1_000);

struct GrantingGate;
impl CostimulationGate for GrantingGate {
    fn verdict(
        &self,
        _identity: Attestation,
        _chain: IntentProvenanceChain,
        _action: Action,
        _now: Timestamp,
    ) -> Result<(), AnergyReason> {
        Ok(())
    }
    fn evaluate(
        &self,
        _identity: &Attestation,
        _chain: &IntentProvenanceChain,
        _action: &Action,
        _now: Timestamp,
    ) -> Result<(), AnergyReason> {
        Ok(())
    }
}

struct DenyingGate;
impl CostimulationGate for DenyingGate {
    fn verdict(
        &self,
        _identity: Attestation,
        _chain: IntentProvenanceChain,
        _action: Action,
        _now: Timestamp,
    ) -> Result<(), AnergyReason> {
        Err(AnergyReason::OutOfScope)
    }
    fn evaluate(
        &self,
        _identity: &Attestation,
        _chain: &IntentProvenanceChain,
        _action: &Action,
        _now: Timestamp,
    ) -> Result<(), AnergyReason> {
        Err(AnergyReason::OutOfScope)
    }
}

#[test]
fn test_i1_authorized_action_minted_only_by_gate() {
    match GrantingGate.authorize(&attestation(), &chain_with_scope(&["write"]), action(), NOW) {
        AuthorizationDecision::Granted(authorized) => {
            assert_eq!(authorized.action(), &action());
        }
        AuthorizationDecision::Anergy { .. } => panic!("expected a grant from the granting gate"),
    }
    match DenyingGate.authorize(&attestation(), &chain_with_scope(&["write"]), action(), NOW) {
        AuthorizationDecision::Anergy { reason } => assert_eq!(reason, AnergyReason::OutOfScope),
        AuthorizationDecision::Granted(_) => panic!("a denying gate must not grant"),
    }
}

#[test]
fn test_i1_authorize_is_sole_construction_path() {
    let decision =
        GrantingGate.authorize(&attestation(), &chain_with_scope(&["write"]), action(), NOW);
    let authorized = match decision {
        AuthorizationDecision::Granted(a) => a,
        AuthorizationDecision::Anergy { .. } => panic!("granting gate must yield a grant"),
    };
    assert_eq!(authorized.action(), &action());

    assert!(matches!(
        DenyingGate.authorize(&attestation(), &chain_with_scope(&["write"]), action(), NOW),
        AuthorizationDecision::Anergy { .. }
    ));
}

#[test]
fn test_i2_deny_is_distinct_and_has_no_path_to_allow() {
    let deny = BarrierVerdict::Deny {
        finding: BarrierFinding {
            datum: DatumRef::new("d-1"),
            condition: BarrierCondition::UnauthorizedDestination,
            classification: Classification::Secret,
            reason: "secret to unauthorized destination".into(),
        },
    };
    let allow = BarrierVerdict::Allow;
    let accepted = BarrierVerdict::AcceptedRisk {
        entry: brokkr::ids::RiskAcceptanceId::new("ra-1"),
    };

    // An accepted risk is its own variant, not Allow.
    assert_ne!(accepted, allow);
    assert_ne!(deny, allow);

    match &deny {
        BarrierVerdict::Deny { finding } => {
            assert_eq!(finding.classification, Classification::Secret);
        }
        _ => panic!("expected Deny"),
    }
}

#[test]
fn negative_invariants_test_i3_attenuate_rejects_broadening() {
    let chain = chain_with_scope(&["read", "write"]);

    // Narrowing {read, write} -> {read} is allowed.
    let narrowed = chain.clone().extend(
        attestation(),
        digest(),
        IntentScope::new(vec![Capability::new("read")]),
        vec![],
        InvariantSet::default(),
        dual_sig(),
    );
    assert!(narrowed.is_ok(), "narrowing must be allowed");

    // Broadening {read, write} -> {read, write, exec} is refused.
    let broadened = chain.extend(
        attestation(),
        digest(),
        IntentScope::new(vec![
            Capability::new("read"),
            Capability::new("write"),
            Capability::new("exec"),
        ]),
        vec![],
        InvariantSet::default(),
        dual_sig(),
    );
    assert_eq!(broadened, Err(AttenuationError::WouldBroaden));
}

#[test]
fn test_i3_invariants_only_accumulate() {
    let chain = chain_with_scope(&["read"]);
    assert!(chain.current_invariants().contains(&Invariant::new("no-network-egress")));

    let extended = chain
        .extend(
            attestation(),
            digest(),
            IntentScope::new(vec![Capability::new("read")]),
            vec![],
            InvariantSet::new(vec![Invariant::new("read-only-outside-src")]),
            dual_sig(),
        )
        .unwrap();

    let inv = extended.current_invariants();
    assert!(inv.contains(&Invariant::new("no-network-egress")));
    assert!(inv.contains(&Invariant::new("read-only-outside-src")));
    assert_eq!(inv.len(), 2);
}

struct MockController;
impl ToleranceController for MockController {
    fn heuristic_verdict(&self, _grant: ToleranceGrant) -> Result<(), ToleranceError> {
        Ok(())
    }
    fn grant_heuristic(&self, _grant: ToleranceGrant) -> Result<GrantId, ToleranceError> {
        Ok(GrantId::new("grant-1"))
    }
    fn screen(
        &self,
        _detector: &DetectorSpec,
        _self_set: &SelfSet,
        now: Timestamp,
    ) -> Result<ScreenPass, ToleranceError> {
        Ok(ScreenPass {
            version: SelfSetVersion::new("selfset-1"),
            produced_at: now,
        })
    }
}

fn tolerance_grant() -> ToleranceGrant {
    ToleranceGrant {
        target: DetectorId::new("detector-1"),
        scope: SuppressionScope {
            detail: "one pattern".into(),
        },
        dap: dap(),
        issued: Timestamp(1),
        expiry: Timestamp(2),
        signature: dual_sig(),
    }
}

#[test]
fn test_i4_tolerance_grant_on_deterministic_gate_is_refused() {
    assert_eq!(
        MockController.grant(tolerance_grant(), ResponseClass::Deterministic),
        Err(ToleranceError::NonSuppressibleGate)
    );
    assert!(MockController.grant(tolerance_grant(), ResponseClass::Heuristic).is_ok());
}

struct MockResolutionEngine;
impl ResolutionEngine for MockResolutionEngine {
    fn may_resolve(&self, _e: &EscalationId, _now: Timestamp) -> ResolutionVerdict {
        // Above baseline: needs a DAP.
        ResolutionVerdict::Eligible { needs_dap: true }
    }
    fn resolve(
        &mut self,
        _d: ResolutionDecision,
        _now: Timestamp,
    ) -> Result<ReturnedToBaseline, ResolveError> {
        Ok(ReturnedToBaseline {
            escalation: EscalationId::new("esc-1"),
        })
    }
    fn scan_chronic(&self, _now: Timestamp) -> Vec<brokkr::resolution::ChronicEscalation> {
        vec![]
    }
}

#[test]
fn test_i8_escalation_needs_resolution_path_and_dap_confirmed_resolution() {
    let esc = EscalationType::new(
        EscalationId::new("esc-1"),
        ClearCondition {
            detail: "threat cleared".into(),
        },
        BaselinePosture {
            detail: "nominal".into(),
        },
        Duration::from_secs(60),
        Duration::from_secs(30),
        Duration::from_secs(3600),
    );
    assert_eq!(esc.id, EscalationId::new("esc-1"));

    let mut engine = MockResolutionEngine;
    match engine.may_resolve(&EscalationId::new("esc-1"), NOW) {
        ResolutionVerdict::Eligible { needs_dap } => assert!(needs_dap),
        _ => panic!("expected eligibility needing a DAP"),
    }

    let decision = ResolutionDecision::new(
        EscalationId::new("esc-1"),
        ClearEvidence {
            detail: "sensors nominal for hold window".into(),
        },
        dap(),
        Timestamp(5),
        Nonce(1),
        Timestamp(1000),
        dual_sig(),
    );
    assert_eq!(decision.dap, dap());
    assert!(engine.resolve(decision, NOW).is_ok());
}

struct MockPipeline {
    fails_tolerance: bool,
}
impl MaturationPipeline for MockPipeline {
    fn generate(&self, _seed: &SeedingIncident) -> Result<RefinedDetector, AdaptError> {
        Ok(RefinedDetector::new(
            DetectorSpecBase {
                id: DetectorId::new("detector-1"),
            },
            DetectorDelta {
                detail: "tighter pattern".into(),
            },
            1,
        ))
    }
    fn select(
        &self,
        _candidate: &RefinedDetector,
        _corpus: &EvaluationCorpus,
        _now: Timestamp,
    ) -> Result<SelectionPass, AdaptError> {
        Ok(SelectionPass {
            version: CorpusVersion::new("corpus-1"),
            produced_at: Timestamp(20),
        })
    }
    fn activate(
        &self,
        _candidate: RefinedDetector,
        _provenance: DetectorProvenance,
        _now: Timestamp,
    ) -> Result<PriorGeneration, AdaptError> {
        if self.fails_tolerance {
            Err(AdaptError::FailsTolerance)
        } else {
            Err(AdaptError::NeedsApproval)
        }
    }
}

fn provenance() -> DetectorProvenance {
    DetectorProvenance {
        seeding: IncidentId::new("incident-1"),
        corpus_version: CorpusVersion::new("corpus-1"),
        screen_result: ScreenPass {
            version: SelfSetVersion::new("selfset-1"),
            produced_at: Timestamp(10),
        },
        approver: dap(),
        signature: dual_sig(),
    }
}

#[test]
fn test_i9_refined_detector_is_heuristic_and_activation_is_gated() {
    let detector = RefinedDetector::new(
        DetectorSpecBase {
            id: DetectorId::new("detector-1"),
        },
        DetectorDelta {
            detail: "tighter".into(),
        },
        1,
    );
    // A refined detector is always heuristic.
    assert_eq!(detector.response_class(), ResponseClass::Heuristic);

    assert_eq!(
        MockPipeline {
            fails_tolerance: true
        }
        .activate(detector.clone(), provenance(), Timestamp(30)),
        Err(AdaptError::FailsTolerance)
    );
    assert_eq!(
        MockPipeline {
            fails_tolerance: false
        }
        .activate(detector, provenance(), Timestamp(30)),
        Err(AdaptError::NeedsApproval)
    );
}

#[test]
fn test_oqgf_p_6_2_corpus_validity_errors_name_the_evidence_not_the_candidate() {
    let substituted = AdaptError::SubstitutedCorpus.to_string();
    let stale = AdaptError::StaleCorpus.to_string();

    // Each names what happened to the corpus ...
    assert!(substituted.contains("corpus") && substituted.contains("digest"));
    assert!(stale.contains("corpus") && stale.contains("current version"));
    // ... and says nothing about the candidate.
    assert!(!substituted.contains("candidate"));
    assert!(!stale.contains("candidate"));

    assert_ne!(AdaptError::SubstitutedCorpus, AdaptError::StaleCorpus);
    assert_ne!(substituted, AdaptError::Overfit.to_string());
    assert_ne!(stale, AdaptError::CoverageRegression.to_string());
}

fn trust_score() -> VendorTrustScore {
    VendorTrustScore {
        attestation_capability: Score(80),
        fips_validation: Score(0),
        breach_history: Score(90),
        jurisdictional_exposure: Score(50),
        data_handling: Score(60),
        // Unmeasured: a zero score paired with zero observations.
        reconciliation_pass_rate: Score(0),
        evidence: FactorEvidence {
            observations: 0,
            measured: Timestamp(0),
        },
        reviewed: Timestamp(1),
        reviewer: dap(),
    }
}

#[test]
fn test_i11_endpoint_carries_a_required_client_cert() {
    let endpoint = ModelEndpoint::new(
        ModelEndpointId::new("mimir-1"),
        ModelIdentity {
            name: "mimir".into(),
            version: "1".into(),
            provider: "local".into(),
        },
        ClientCertRef::new("client-cert-fingerprint"),
        TrustAnchor::new("pinned-anchor"),
        NamedGroup::X25519MlKem768,
        Classification::Internal,
        trust_score(),
    );
    assert_eq!(endpoint.client_cert.as_str(), "client-cert-fingerprint");
}

struct AllowClearance;
impl ContextClearance for AllowClearance {
    fn verdict(&self, _ctx: Context, _dest: Destination, _now: Timestamp) -> BarrierVerdict {
        BarrierVerdict::Allow
    }
    fn evaluate_context(&self, _ctx: &Context, _dest: &Destination, _now: Timestamp) -> BarrierVerdict {
        BarrierVerdict::Allow
    }
}

struct DenyClearance;
impl ContextClearance for DenyClearance {
    fn verdict(&self, ctx: Context, dest: Destination, now: Timestamp) -> BarrierVerdict {
        self.evaluate_context(&ctx, &dest, now)
    }
    fn evaluate_context(&self, _ctx: &Context, _dest: &Destination, _now: Timestamp) -> BarrierVerdict {
        BarrierVerdict::Deny {
            finding: BarrierFinding {
                datum: DatumRef::new("d-2"),
                condition: BarrierCondition::ChannelStrengthCollapse,
                classification: Classification::Secret,
                reason: "secret to reasoner over insufficient channel".into(),
            },
        }
    }
}

#[test]
fn test_i12_cleared_context_minted_only_via_clearance() {
    let dest = Destination::Reasoner {
        endpoint: ModelEndpointId::new("mimir-1"),
        negotiated: NamedGroup::X25519MlKem768,
    };

    let cleared = AllowClearance.clear(
        Context {
            payload: "fn main() {}".into(),
            datum: DatumRef::new("ctx-1"),
            classification: Classification::Public,
            personal: None,
            bcr: None,
        },
        &dest,
        NOW,
    );
    assert!(cleared.is_ok());
    assert_eq!(cleared.unwrap().get().payload, "fn main() {}");

    let blocked = DenyClearance.clear(
        Context {
            payload: "SECRET".into(),
            datum: DatumRef::new("ctx-2"),
            classification: Classification::Secret,
            personal: None,
            bcr: None,
        },
        &dest,
        NOW,
    );
    assert!(matches!(blocked, Err(BarrierVerdict::Deny { .. })));
}

#[test]
fn test_i13_now_is_a_call_site_parameter() {
    let dest = Destination::Reasoner {
        endpoint: ModelEndpointId::new("mimir-1"),
        negotiated: NamedGroup::X25519MlKem768,
    };
    let ctx = Context {
        payload: "fn main() {}".into(),
        datum: DatumRef::new("ctx-i13"),
        classification: Classification::Public,
        personal: None,
        bcr: None,
    };

    assert!(
        GrantingGate
            .evaluate(&attestation(), &chain_with_scope(&["write"]), &action(), NOW)
            .is_ok()
    );
    assert!(matches!(
        GrantingGate.authorize(&attestation(), &chain_with_scope(&["write"]), action(), NOW),
        AuthorizationDecision::Granted(_)
    ));
    assert_eq!(AllowClearance.evaluate_context(&ctx, &dest, NOW), BarrierVerdict::Allow);
    assert!(AllowClearance.clear(ctx, &dest, NOW).is_ok());
}

#[test]
fn test_effective_authorization_collapses_over_classical_channel() {
    // An Internal ceiling over a classical handshake collapses to Public.
    assert_eq!(
        effective_authorization(Classification::Internal, ChannelStrength::Classical),
        Classification::Public
    );
    // Over a hybrid post-quantum channel, the ceiling stands.
    assert_eq!(
        effective_authorization(Classification::Internal, ChannelStrength::PqcHybrid768),
        Classification::Internal
    );
    assert_eq!(
        effective_authorization(Classification::Secret, ChannelStrength::PqcHybrid1024),
        Classification::Secret
    );
    assert_eq!(ChannelStrength::from_group(NamedGroup::X25519), ChannelStrength::Classical);
    assert!(NamedGroup::X25519MlKem768.is_pqc_hybrid());
    assert_eq!(NamedGroup::X25519MlKem768.code_point(), 4588);
    assert_eq!(NamedGroup::Secp384r1MlKem1024.code_point(), 4589);
}

fn finding(
    datum: &str,
    condition: BarrierCondition,
    classification: Classification,
    reason: &str,
) -> BarrierFinding {
    BarrierFinding {
        datum: DatumRef::new(datum),
        condition,
        classification,
        reason: reason.into(),
    }
}

#[test]
fn test_oqgf_p_9_2_finding_id_is_deterministic() {
    let f = finding("dep-42", BarrierCondition::SignatureInvalid, Classification::Secret, "bad sig");
    assert_eq!(f.finding_id(), f.finding_id());
}

#[test]
fn test_oqgf_p_9_2_finding_id_injective_over_datum_and_condition() {
    let f = |d, c| finding(d, c, Classification::Secret, "r");
    assert_ne!(
        f("a", BarrierCondition::Expired).finding_id(),
        f("b", BarrierCondition::Expired).finding_id(),
    );
    assert_ne!(
        f("a", BarrierCondition::Expired).finding_id(),
        f("a", BarrierCondition::DatumMismatch).finding_id(),
    );
    // A datum holding the separator and a tag's text does not collide with a shorter one.
    assert_ne!(
        f("a", BarrierCondition::Expired).finding_id(),
        f("a:expired", BarrierCondition::Expired).finding_id(),
    );
}

#[test]
fn test_oqgf_p_9_2_finding_id_ignores_classification_and_reason() {
    let a = finding(
        "d",
        BarrierCondition::UnauthorizedDestination,
        Classification::Public,
        "one wording",
    );
    let b = finding(
        "d",
        BarrierCondition::UnauthorizedDestination,
        Classification::Secret,
        "a completely different wording",
    );
    assert_eq!(a.finding_id(), b.finding_id());
}
