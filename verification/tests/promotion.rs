use brokkr::capability::ConformanceTier;
use brokkr::classification::{Classification, NamedGroup};
use brokkr::crypto::{Digest, DualSignature, HashAlg, Signature, SignatureAlg};
use brokkr::genome::{
    Aibom, AlgorithmId, BoundaryInterface, Cbom, CustodianSeparation, DualControl, EndpointRegistry, ExtractionProtection, FactorEvidence, FipsValidation, Genome, HardwareBoundary, InvariantEntry, KeyCustody, ModelEndpoint, PolicyRegister, PrivilegeClass, ProcedureRef, Quorum, RootOfTrustEntry, RootsOfTrust, ToolEntry, ToolGenome, ToolSchema, VendorTrustScore};
use brokkr::ids::{
    ClientCertRef, Dap, GenomeVersion, ModelEndpointId, ModelIdentity, Score, SubjectId, Timestamp,
    ToolId, TrustAnchor,
};
use brokkr::intent::{Capability, Invariant};
use brokkr::tolerance::ResponseClass;
use brokkr::backend::sign::DualPublicKey;
use brokkr::regin::canonical;
use brokkr::regin::promotion::promote;
use brokkr::regin::verdict::{CustodyShortfall, Finding, PromotionVerdict};

const NINETY_DAYS_MS: u64 = 7_776_000_000;
const NOW: u64 = 20_000_000_000;

fn dap() -> Dap {
    Dap::new("Jeremy Rose", "dap-1")
}

fn dummy_sig() -> DualSignature {
    DualSignature {
        lattice: Signature {
            alg: SignatureAlg::MlDsa65,
            bytes: vec![0u8; 4],
        },
        hash_based: Signature {
            alg: SignatureAlg::SlhDsaShake192s,
            bytes: vec![0u8; 4],
        },
    }
}

/// The DAP verifying key the genome is checked under.
fn dap_key() -> DualPublicKey {
    DualPublicKey::from_public_bytes(&[0x11u8; 1952], &[0x22u8; 48]).unwrap()
}

fn cap(s: &str) -> Capability {
    Capability::new(s)
}

/// The mutable parts of a genome. `default_valid` yields content that every content
/// predicate accepts; negatives perturb one field, then `build`.
struct Parts {
    tool_entries: Vec<ToolEntry>,
    cbom_algorithms: Vec<AlgorithmId>,
    endpoints: Vec<ModelEndpoint>,
    roots: Vec<RootOfTrustEntry>,
    policy_capabilities: Vec<Capability>,
    policy_invariants: Vec<InvariantEntry>,
    policy_disallowed: Vec<AlgorithmId>,
    custody: KeyCustody,
    tier: ConformanceTier,
}

fn endpoint(id: &str, reviewed: u64) -> ModelEndpoint {
    ModelEndpoint {
        id: ModelEndpointId::new(id),
        model: ModelIdentity {
            name: "mimir".into(),
            version: "1".into(),
            provider: "local".into(),
        },
        client_cert: ClientCertRef::new("cert-1"),
        server_trust: TrustAnchor::new("anchor-1"),
        min_group: NamedGroup::X25519MlKem768,
        max_classification: Classification::Internal,
        trust_score: VendorTrustScore {
            attestation_capability: Score(80),
            fips_validation: Score(0),
            breach_history: Score(90),
            jurisdictional_exposure: Score(50),
            data_handling: Score(60),
            reconciliation_pass_rate: Score(0),
            evidence: FactorEvidence {
                observations: 0,
                measured: Timestamp(0),
            },
            reviewed: Timestamp(reviewed),
            reviewer: dap(),
        },
    }
}

impl Parts {
    fn default_valid() -> Self {
        Parts {
            tool_entries: vec![ToolEntry {
                id: ToolId::new("write_file"),
                schema: ToolSchema {
                    detail: "{}".into(),
                },
                privilege: PrivilegeClass::Privileged,
                response_class: ResponseClass::Deterministic,
                required_capabilities: vec![cap("write")],
            }],
            cbom_algorithms: vec![
                AlgorithmId::Signature(SignatureAlg::MlDsa65),
                AlgorithmId::Kem(brokkr::crypto::KemAlg::MlKem768),
            ],
            endpoints: vec![endpoint("mimir-1", NOW - 1000)],
            roots: vec![RootOfTrustEntry {
                subject: SubjectId::new("hop-1"),
                ml_dsa_public: vec![1, 2, 3],
                slh_dsa_public: vec![4, 5, 6],
            }],
            policy_capabilities: vec![cap("read"), cap("write"), cap("network")],
            policy_invariants: vec![InvariantEntry {
                invariant: Invariant::new("no-network-egress"),
                forbids_capabilities: vec![cap("network")],
                forbids_privilege: vec![],
            }],
            policy_disallowed: vec![AlgorithmId::Signature(SignatureAlg::EcdsaP256)],
            // Software custody with a declared mechanism, at the tier where it is
            // conformant.
            custody: KeyCustody::SoftwareInProcess {
                protection: ExtractionProtection::ProcessIsolationOnly,
            },
            tier: ConformanceTier::Baseline,
        }
    }

    /// Builds every register and the genome. The content predicates and the custody
    /// predicate read no signature, so the registers and the genome carry placeholder
    /// signatures; the signature predicates then report their own findings beside the ones
    /// these tests look for.
    fn build(self) -> Genome {
        let tools = ToolGenome {
            entries: self.tool_entries,
            signature: dummy_sig(),
        };
        let cbom = Cbom {
            cyclonedx: "<cbom/>".into(),
            algorithms: self.cbom_algorithms,
            custody: self.custody,
            signature: dummy_sig(),
        };
        let aibom = Aibom {
            cyclonedx: "<aibom/>".into(),
            signature: dummy_sig(),
        };
        let endpoints = EndpointRegistry {
            endpoints: self.endpoints,
            signature: dummy_sig(),
        };
        let roots = RootsOfTrust {
            entries: self.roots,
            signature: dummy_sig(),
        };
        let policy = PolicyRegister {
            capabilities: self.policy_capabilities,
            invariants: self.policy_invariants,
            disallowed: self.policy_disallowed,
            signature: dummy_sig(),
            purpose_fields: Vec::new(),
        };
        Genome {
            version: GenomeVersion::new("v1"),
            tools,
            cbom,
            aibom,
            endpoints,
            roots,
            policy,
            tier: self.tier,
            corpus_digest: Digest {
                alg: HashAlg::Sha384,
                bytes: vec![0u8; 48],
            },
            owner: dap(),
            signature: dummy_sig(),
        }
    }
}

fn blocked_findings(v: PromotionVerdict) -> Vec<Finding> {
    match v {
        PromotionVerdict::Blocked { findings } => findings,
        PromotionVerdict::Promoted => panic!("expected Blocked, got Promoted"),
    }
}

#[test]
fn test_canonical_deterministic_and_unambiguous() {
    let genome = Parts::default_valid().build();

    // Deterministic: the same value encodes to identical bytes.
    assert_eq!(
        canonical::policy_signed_content(&genome.policy),
        canonical::policy_signed_content(&genome.policy),
    );

    // Unambiguous under a length-prefix collision: {"ab","c"} vs {"a","bc"} would collide
    // without length prefixes. They must not.
    let mut p1 = genome.policy.clone();
    p1.capabilities = vec![cap("ab"), cap("c")];
    let mut p2 = genome.policy.clone();
    p2.capabilities = vec![cap("a"), cap("bc")];
    assert_ne!(
        canonical::policy_signed_content(&p1),
        canonical::policy_signed_content(&p2),
        "length-prefixing must keep concatenation-collision inputs distinct"
    );
}

#[test]
fn test_oqgf_g_4_disallowed_algorithm_blocks() {
    let mut parts = Parts::default_valid();
    // Put a disallowed algorithm into the CBOM inventory.
    let ecdsa = AlgorithmId::Signature(SignatureAlg::EcdsaP256);
    parts.cbom_algorithms.push(ecdsa);
    let genome = parts.build();
    let findings = blocked_findings(promote(&genome, &dap_key(), Timestamp(NOW)));
    assert!(findings.contains(&Finding::DisallowedAlgorithm { algorithm: ecdsa }));
}

#[test]
fn test_oqgf_m_6_stale_trust_score_blocks() {
    let mut parts = Parts::default_valid();
    // reviewed more than 90 days before now.
    parts.endpoints = vec![endpoint("mimir-1", NOW - NINETY_DAYS_MS - 1)];
    let genome = parts.build();
    let findings = blocked_findings(promote(&genome, &dap_key(), Timestamp(NOW)));
    assert!(findings.contains(&Finding::StaleTrustScore {
        endpoint: ModelEndpointId::new("mimir-1")
    }));
}

#[test]
fn test_oqgf_m_6_measured_factor_without_evidence_blocks() {
    let mut parts = Parts::default_valid();
    let mut ep = endpoint("mimir-1", NOW - 1000);
    // A claimed measurement...
    ep.trust_score.reconciliation_pass_rate = Score(100);
    // ...with nothing behind it.
    ep.trust_score.evidence.observations = 0;
    parts.endpoints = vec![ep];
    let genome = parts.build();
    let findings = blocked_findings(promote(&genome, &dap_key(), Timestamp(NOW)));
    assert!(
        findings.contains(&Finding::MeasuredFactorWithoutEvidence {
            endpoint: ModelEndpointId::new("mimir-1"),
            claimed: Score(100),
        }),
        "a non-zero score with zero observations must be refused: {findings:?}"
    );
}

#[test]
fn test_oqgf_m_6_future_trust_score_blocks() {
    let mut parts = Parts::default_valid();
    // reviewed AFTER now — malformed.
    parts.endpoints = vec![endpoint("mimir-1", NOW + 1000)];
    let genome = parts.build();
    let findings = blocked_findings(promote(&genome, &dap_key(), Timestamp(NOW)));
    assert!(findings.contains(&Finding::FutureTrustScore {
        endpoint: ModelEndpointId::new("mimir-1")
    }));
}

#[test]
fn test_tool_capability_not_in_vocabulary_blocks() {
    let mut parts = Parts::default_valid();
    // A typo: the tool requires "wirte", which is not in the vocabulary.
    parts.tool_entries[0].required_capabilities = vec![cap("wirte")];
    let genome = parts.build();
    let findings = blocked_findings(promote(&genome, &dap_key(), Timestamp(NOW)));
    assert!(findings.contains(&Finding::ToolCapabilityNotInVocabulary {
        tool: ToolId::new("write_file"),
        capability: cap("wirte"),
    }));
}

#[test]
fn test_invariant_forbids_unknown_capability_blocks() {
    let mut parts = Parts::default_valid();
    // An invariant forbidding a capability absent from the vocabulary (a typo).
    parts.policy_invariants[0].forbids_capabilities = vec![cap("netwrok")];
    let genome = parts.build();
    let findings = blocked_findings(promote(&genome, &dap_key(), Timestamp(NOW)));
    assert!(
        findings.contains(&Finding::InvariantForbidsUnknownCapability {
            invariant: Invariant::new("no-network-egress"),
            capability: cap("netwrok"),
        })
    );
}

#[test]
fn test_invariant_forbidding_nothing_blocks() {
    let mut parts = Parts::default_valid();
    // An invariant that forbids neither a capability nor a privilege — can never fire.
    parts.policy_invariants[0].forbids_capabilities = vec![];
    parts.policy_invariants[0].forbids_privilege = vec![];
    let genome = parts.build();
    let findings = blocked_findings(promote(&genome, &dap_key(), Timestamp(NOW)));
    assert!(findings.contains(&Finding::InvariantForbidsNothing {
        invariant: Invariant::new("no-network-egress"),
    }));
}

#[test]
fn test_all_findings_returned() {
    // A genome failing MULTIPLE predicates returns ALL of them, not just the first.
    let mut parts = Parts::default_valid();
    parts
        .cbom_algorithms
        .push(AlgorithmId::Signature(SignatureAlg::EcdsaP256)); // predicate 3
    parts.endpoints = vec![endpoint("mimir-1", NOW + 1000)]; // predicate 4 (future)
    parts.tool_entries[0].required_capabilities = vec![cap("wirte")]; // predicate 5
    parts.policy_invariants.push(InvariantEntry {
        invariant: Invariant::new("dead"),
        forbids_capabilities: vec![],
        forbids_privilege: vec![],
    }); // predicate 6
    let genome = parts.build();
    let findings = blocked_findings(promote(&genome, &dap_key(), Timestamp(NOW)));
    assert!(findings.contains(&Finding::DisallowedAlgorithm {
        algorithm: AlgorithmId::Signature(SignatureAlg::EcdsaP256)
    }));
    assert!(findings.contains(&Finding::FutureTrustScore {
        endpoint: ModelEndpointId::new("mimir-1")
    }));
    assert!(findings.contains(&Finding::ToolCapabilityNotInVocabulary {
        tool: ToolId::new("write_file"),
        capability: cap("wirte"),
    }));
    assert!(findings.contains(&Finding::InvariantForbidsNothing {
        invariant: Invariant::new("dead"),
    }));
    assert!(
        findings.len() >= 4,
        "all four content findings present; got {findings:?}"
    );
}

#[test]
fn test_r6_custody_is_inside_cbom_signed_content() {
    let software = Cbom {
        cyclonedx: "<cbom/>".into(),
        algorithms: vec![],
        custody: KeyCustody::SoftwareInProcess {
            protection: ExtractionProtection::ProcessIsolationOnly,
        },
        signature: dummy_sig(),
    };
    let mut hardware = software.clone();
    hardware.custody = KeyCustody::HardwareBacked {
        boundary: HardwareBoundary {
            module: "test-hsm".into(),
            interface: BoundaryInterface::Pkcs11,
            fips: FipsValidation::NotValidated,
        },
        dual_control: DualControl::SingleOperator,
    };
    assert_ne!(
        canonical::cbom_signed_content(&software),
        canonical::cbom_signed_content(&hardware),
        "a change of declared custody MUST change the CBOM signed content"
    );

    // And the two software variants differ too — the declaration is encoded, not elided.
    let mut encrypted = software.clone();
    encrypted.custody = KeyCustody::SoftwareInProcess {
        protection: ExtractionProtection::EncryptedAtRest,
    };
    assert_ne!(
        canonical::cbom_signed_content(&software),
        canonical::cbom_signed_content(&encrypted),
        "a change of declared protection mechanism MUST change the CBOM signed content"
    );
}

#[test]
fn test_r6_tier_is_inside_genome_signed_content() {
    let baseline = Parts::default_valid().build();
    let mut enhanced = baseline.clone();
    enhanced.tier = ConformanceTier::Enhanced;
    assert_ne!(
        canonical::genome_signed_content(&baseline),
        canonical::genome_signed_content(&enhanced),
        "a change of declared tier MUST change the genome signed content"
    );
}

fn proc_ref(name: &str) -> ProcedureRef {
    ProcedureRef {
        document: name.into(),
        digest: Digest {
            alg: HashAlg::Sha384,
            bytes: vec![7u8; 48],
        },
    }
}

fn boundary() -> HardwareBoundary {
    HardwareBoundary {
        module: "test-hsm".into(),
        interface: BoundaryInterface::Pkcs11,
        fips: FipsValidation::Level {
            level: 3,
            certificate: "CMVP-0000".into(),
        },
    }
}

fn software_custody() -> KeyCustody {
    KeyCustody::SoftwareInProcess {
        protection: ExtractionProtection::ProcessIsolationOnly,
    }
}

fn threshold_custody(k: u8, n: u8, independent_parties: u8, last_rehearsal: u64) -> KeyCustody {
    KeyCustody::Threshold {
        boundary: boundary(),
        dual_control: DualControl::TwoParty {
            procedure: proc_ref("dual-control"),
        },
        quorum: Quorum { k, n },
        custodians: CustodianSeparation {
            independent_parties,
            separation_of_duty: proc_ref("separation"),
        },
        ceremony: proc_ref("ceremony"),
        recovery: proc_ref("recovery"),
        rotation: proc_ref("rotation"),
        last_rehearsal: Timestamp(last_rehearsal),
    }
}

/// Evaluate a genome at `now` and return only the predicate-7 shortfall, if any. Other
/// findings (e.g. a trust score that went stale because `now` was advanced) are filtered
/// out deliberately — this helper isolates predicate 7.
fn custody_shortfall_at(
    custody: KeyCustody,
    tier: ConformanceTier,
    now: u64,
) -> Option<CustodyShortfall> {
    let mut parts = Parts::default_valid();
    parts.custody = custody;
    parts.tier = tier;
    let genome = parts.build();
    let findings = match promote(&genome, &dap_key(), Timestamp(now)) {
        PromotionVerdict::Promoted => Vec::new(),
        PromotionVerdict::Blocked { findings } => findings,
    };
    findings.into_iter().find_map(|f| match f {
        Finding::KeyCustodyBelowTier { element, .. } => Some(element),
        _ => None,
    })
}

fn custody_shortfall_of(custody: KeyCustody, tier: ConformanceTier) -> Option<CustodyShortfall> {
    custody_shortfall_at(custody, tier, NOW)
}

#[test]
fn test_r6_1_baseline_accepts_software_custody() {
    assert!(
        custody_shortfall_of(software_custody(), ConformanceTier::Baseline).is_none(),
        "R-6.1 permits software-held keys when the CBOM declares them as such"
    );
}

#[test]
fn test_r6_1_baseline_accepts_hardware_custody() {
    let custody = KeyCustody::HardwareBacked {
        boundary: boundary(),
        dual_control: DualControl::SingleOperator,
    };
    assert!(
        custody_shortfall_of(custody, ConformanceTier::Baseline).is_none(),
        "a stronger declaration than the tier requires is not a failure"
    );
}

#[test]
fn test_r6_2_enhanced_refuses_software_custody() {
    assert_eq!(
        custody_shortfall_of(software_custody(), ConformanceTier::Enhanced),
        Some(CustodyShortfall::NoHardwareBoundary),
        "Enhanced requires a hardware boundary; software custody must be refused"
    );
}

#[test]
fn test_r6_2_enhanced_refuses_hardware_without_dual_control() {
    let custody = KeyCustody::HardwareBacked {
        boundary: boundary(),
        dual_control: DualControl::SingleOperator,
    };
    assert_eq!(
        custody_shortfall_of(custody, ConformanceTier::Enhanced),
        Some(CustodyShortfall::NoDualControl),
        "a hardware boundary without two-party issuance does not satisfy R-6.2"
    );
}

#[test]
fn test_r6_2_enhanced_accepts_hardware_with_dual_control() {
    let custody = KeyCustody::HardwareBacked {
        boundary: boundary(),
        dual_control: DualControl::TwoParty {
            procedure: proc_ref("dual-control"),
        },
    };
    assert!(
        custody_shortfall_of(custody, ConformanceTier::Enhanced).is_none(),
        "hardware boundary + two-party issuance satisfies R-6.2"
    );
}

#[test]
fn test_r6_3_high_assurance_refuses_hardware_without_threshold() {
    let custody = KeyCustody::HardwareBacked {
        boundary: boundary(),
        dual_control: DualControl::TwoParty {
            procedure: proc_ref("dual-control"),
        },
    };
    assert_eq!(
        custody_shortfall_of(custody, ConformanceTier::HighAssurance),
        Some(CustodyShortfall::NoThresholdCustody),
        "R-6.3 requires k-of-n custody in addition to R-6.2"
    );
}

#[test]
fn test_r6_3_declared_3_of_5_with_one_independent_party_fails_on_its_own_numbers() {
    assert_eq!(
        custody_shortfall_of(
            threshold_custody(3, 5, 1, NOW - 1000),
            ConformanceTier::HighAssurance
        ),
        Some(CustodyShortfall::InsufficientCustodialSeparation),
        "3-of-5 whose shares one party holds does not satisfy R-6.3"
    );
}

#[test]
fn test_r6_3_quorum_below_floor_fails() {
    assert_eq!(
        custody_shortfall_of(
            threshold_custody(2, 5, 5, NOW - 1000),
            ConformanceTier::HighAssurance
        ),
        Some(CustodyShortfall::QuorumBelowFloor),
        "k < 3 is below AMD-018's floor"
    );
    assert_eq!(
        custody_shortfall_of(
            threshold_custody(3, 4, 4, NOW - 1000),
            ConformanceTier::HighAssurance
        ),
        Some(CustodyShortfall::QuorumBelowFloor),
        "n < 5 is below AMD-018's floor"
    );
}

#[test]
fn test_r6_3_stale_or_future_rehearsal_fails() {
    // NOW is ~231 days from the epoch, so no rehearsal can be a year stale at that clock.
    // Advance `now` instead of retreating the rehearsal below zero.
    let two_years_on = NOW + 2 * 31_536_000_000u64;
    assert_eq!(
        custody_shortfall_at(
            threshold_custody(3, 5, 3, NOW),
            ConformanceTier::HighAssurance,
            two_years_on
        ),
        Some(CustodyShortfall::RehearsalStale),
        "a rehearsal older than a year does not satisfy R-6.3's annual bound"
    );
    assert_eq!(
        custody_shortfall_of(
            threshold_custody(3, 5, 3, NOW + 1_000_000),
            ConformanceTier::HighAssurance
        ),
        Some(CustodyShortfall::RehearsalStale),
        "a rehearsal dated in the future is malformed and fails, as predicate 4 treats a \
         future trust-score review"
    );
}

#[test]
fn test_r6_3_high_assurance_accepts_conformant_threshold() {
    assert!(
        custody_shortfall_of(
            threshold_custody(3, 5, 3, NOW - 1000),
            ConformanceTier::HighAssurance
        )
        .is_none(),
        "3-of-5 with three independent parties and a recent rehearsal satisfies R-6.3"
    );
}

#[test]
fn test_r6_3_threshold_without_dual_control_fails_on_the_r62_element() {
    let custody = KeyCustody::Threshold {
        boundary: boundary(),
        dual_control: DualControl::SingleOperator,
        quorum: Quorum { k: 3, n: 5 },
        custodians: CustodianSeparation {
            independent_parties: 3,
            separation_of_duty: proc_ref("separation"),
        },
        ceremony: proc_ref("ceremony"),
        recovery: proc_ref("recovery"),
        rotation: proc_ref("rotation"),
        last_rehearsal: Timestamp(NOW - 1000),
    };
    assert_eq!(
        custody_shortfall_of(custody, ConformanceTier::HighAssurance),
        Some(CustodyShortfall::NoDualControl),
        "R-6.3 embeds R-6.2; the R-6.2 shortfall is what is reported"
    );
}
