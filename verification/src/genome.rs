//! The genome: the signed registers that say what the system is (tools, cryptographic
//! bill of materials with key custody, AI bill of materials, model endpoints, roots of
//! trust, policy), bound together under one signature.
use vstd::prelude::*;
use crate::capability::ConformanceTier;
use crate::classification::{Classification, NamedGroup};
use crate::crypto::{Digest, DualSignature, HashAlg, KemAlg, SignatureAlg};
use crate::ids::{
    ClientCertRef, Dap, FieldName, GenomeVersion, ModelEndpointId, ModelIdentity, Score, SubjectId,
    Timestamp, ToolId, TrustAnchor,
};
use crate::intent::{Capability, Invariant};
use crate::personal_data::Purpose;
use crate::tolerance::ResponseClass;

verus! {

#[derive(Debug, Clone, Copy, PartialEq, Eq, Structural)]
pub enum PrivilegeClass {
    Unprivileged,
    Privileged,
    SelfModifying,
}

#[derive(Debug, Clone, PartialEq, Eq)]
pub struct ToolSchema {
    pub detail: String,
}

#[derive(Debug, Clone, PartialEq, Eq)]
pub struct ToolEntry {
    pub id: ToolId,
    pub schema: ToolSchema,
    pub privilege: PrivilegeClass,
    pub response_class: ResponseClass,
    pub required_capabilities: Vec<Capability>,
}

#[derive(Debug, Clone, PartialEq, Eq)]
pub struct ToolGenome {
    pub entries: Vec<ToolEntry>,
    pub signature: DualSignature,
}

/// A cryptographic algorithm of any family.
#[derive(Debug, Clone, Copy, PartialEq, Eq, Structural)]
pub enum AlgorithmId {
    Signature(SignatureAlg),
    Hash(HashAlg),
    Kem(KemAlg),
}

/// How signing keys are held.
#[derive(Debug, Clone, PartialEq, Eq)]
pub enum KeyCustody {
    SoftwareInProcess { protection: ExtractionProtection },
    HardwareBacked { boundary: HardwareBoundary, dual_control: DualControl },
    Threshold {
        boundary: HardwareBoundary,
        dual_control: DualControl,
        quorum: Quorum,
        custodians: CustodianSeparation,
        ceremony: ProcedureRef,
        recovery: ProcedureRef,
        rotation: ProcedureRef,
        last_rehearsal: Timestamp,
    },
}

#[derive(Debug, Clone, PartialEq, Eq)]
pub enum ExtractionProtection {
    ProcessIsolationOnly,
    EncryptedAtRest,
    Other { description: String },
}

#[derive(Debug, Clone, PartialEq, Eq)]
pub struct HardwareBoundary {
    pub module: String,
    pub interface: BoundaryInterface,
    pub fips: FipsValidation,
}

#[derive(Debug, Clone, PartialEq, Eq)]
pub enum BoundaryInterface {
    Pkcs11,
    CloudKms,
    Tpm,
    SecureEnclave,
    Other { description: String },
}

#[derive(Debug, Clone, PartialEq, Eq)]
pub enum FipsValidation {
    NotValidated,
    Level { level: u8, certificate: String },
}

#[derive(Debug, Clone, PartialEq, Eq)]
pub enum DualControl {
    SingleOperator,
    TwoParty { procedure: ProcedureRef },
}

/// A k-of-n threshold.
#[derive(Debug, Clone, Copy, PartialEq, Eq, Structural)]
pub struct Quorum {
    pub k: u8,
    pub n: u8,
}

#[derive(Debug, Clone, Copy, PartialEq, Eq, Structural)]
pub enum QuorumError {
    QuorumTooSmall,
    TooFewShares,
    QuorumExceedsShares,
}

/// What validating a quorum returns: `k` must not exceed `n`, `k` must be at least 3 and
/// `n` at least 5, checked in that order.
pub open spec fn quorum_verdict(q: Quorum) -> Result<(), QuorumError> {
    if q.k > q.n {
        Err(QuorumError::QuorumExceedsShares)
    } else if q.k < 3 {
        Err(QuorumError::QuorumTooSmall)
    } else if q.n < 5 {
        Err(QuorumError::TooFewShares)
    } else {
        Ok(())
    }
}

impl Quorum {
    pub fn validate(&self) -> (r: Result<(), QuorumError>)
        ensures
            r == quorum_verdict(*self),
    {
        if self.k > self.n {
            return Err(QuorumError::QuorumExceedsShares);
        }
        if self.k < 3 {
            return Err(QuorumError::QuorumTooSmall);
        }
        if self.n < 5 {
            return Err(QuorumError::TooFewShares);
        }
        Ok(())
    }
}

#[derive(Debug, Clone, PartialEq, Eq)]
pub struct CustodianSeparation {
    pub independent_parties: u8,
    pub separation_of_duty: ProcedureRef,
}

#[derive(Debug, Clone, PartialEq, Eq)]
pub struct ProcedureRef {
    pub document: String,
    pub digest: Digest,
}

/// The cryptographic bill of materials, with the key custody it declares.
#[derive(Debug, Clone, PartialEq, Eq)]
pub struct Cbom {
    pub cyclonedx: String,
    pub algorithms: Vec<AlgorithmId>,
    pub custody: KeyCustody,
    pub signature: DualSignature,
}

#[derive(Debug, Clone, PartialEq, Eq)]
pub struct Aibom {
    pub cyclonedx: String,
    pub signature: DualSignature,
}

/// The evidence behind a measured factor: zero observations means unmeasured.
#[derive(Debug, Clone, PartialEq, Eq)]
pub struct FactorEvidence {
    pub observations: u64,
    pub measured: Timestamp,
}

/// A per-supplier trust score. It carries no signature of its own: it is inside the
/// endpoints register's signed content.
#[derive(Debug, Clone, PartialEq, Eq)]
pub struct VendorTrustScore {
    pub attestation_capability: Score,
    pub fips_validation: Score,
    pub breach_history: Score,
    pub jurisdictional_exposure: Score,
    pub data_handling: Score,
    pub reconciliation_pass_rate: Score,
    pub evidence: FactorEvidence,
    pub reviewed: Timestamp,
    pub reviewer: Dap,
}

/// A model endpoint the system may speak to; the client certificate is required.
#[derive(Debug, Clone, PartialEq, Eq)]
pub struct ModelEndpoint {
    pub id: ModelEndpointId,
    pub model: ModelIdentity,
    pub client_cert: ClientCertRef,
    pub server_trust: TrustAnchor,
    pub min_group: NamedGroup,
    pub max_classification: Classification,
    pub trust_score: VendorTrustScore,
}

impl ModelEndpoint {
    pub fn new(
        id: ModelEndpointId,
        model: ModelIdentity,
        client_cert: ClientCertRef,
        server_trust: TrustAnchor,
        min_group: NamedGroup,
        max_classification: Classification,
        trust_score: VendorTrustScore,
    ) -> (r: Self)
        ensures
            r == (ModelEndpoint {
                id,
                model,
                client_cert,
                server_trust,
                min_group,
                max_classification,
                trust_score,
            }),
    {
        ModelEndpoint {
            id,
            model,
            client_cert,
            server_trust,
            min_group,
            max_classification,
            trust_score,
        }
    }
}

#[derive(Debug, Clone, PartialEq, Eq)]
pub struct EndpointRegistry {
    pub endpoints: Vec<ModelEndpoint>,
    pub signature: DualSignature,
}

#[derive(Debug, Clone, PartialEq, Eq)]
pub struct RootOfTrustEntry {
    pub subject: SubjectId,
    pub ml_dsa_public: Vec<u8>,
    pub slh_dsa_public: Vec<u8>,
}

#[derive(Debug, Clone, PartialEq, Eq)]
pub struct RootsOfTrust {
    pub entries: Vec<RootOfTrustEntry>,
    pub signature: DualSignature,
}

#[derive(Debug, Clone, PartialEq, Eq)]
pub struct InvariantEntry {
    pub invariant: Invariant,
    pub forbids_capabilities: Vec<Capability>,
    pub forbids_privilege: Vec<PrivilegeClass>,
}

#[derive(Debug, Clone, PartialEq, Eq)]
pub struct PurposeFieldPolicy {
    pub purpose: Purpose,
    pub allowed: Vec<FieldName>,
}

#[derive(Debug, Clone, PartialEq, Eq)]
pub struct PolicyRegister {
    pub capabilities: Vec<Capability>,
    pub invariants: Vec<InvariantEntry>,
    pub purpose_fields: Vec<PurposeFieldPolicy>,
    pub disallowed: Vec<AlgorithmId>,
    pub signature: DualSignature,
}

/// The whole genome.
#[derive(Debug, Clone, PartialEq, Eq)]
pub struct Genome {
    pub version: GenomeVersion,
    pub tools: ToolGenome,
    pub cbom: Cbom,
    pub aibom: Aibom,
    pub endpoints: EndpointRegistry,
    pub roots: RootsOfTrust,
    pub policy: PolicyRegister,
    pub tier: ConformanceTier,
    pub corpus_digest: Digest,
    pub owner: Dap,
    pub signature: DualSignature,
}

impl Genome {
    pub fn new(
        version: GenomeVersion,
        tools: ToolGenome,
        cbom: Cbom,
        aibom: Aibom,
        endpoints: EndpointRegistry,
        roots: RootsOfTrust,
        policy: PolicyRegister,
        tier: ConformanceTier,
        corpus_digest: Digest,
        owner: Dap,
        signature: DualSignature,
    ) -> (r: Self)
        ensures
            r == (Genome {
                version,
                tools,
                cbom,
                aibom,
                endpoints,
                roots,
                policy,
                tier,
                corpus_digest,
                owner,
                signature,
            }),
    {
        Genome {
            version,
            tools,
            cbom,
            aibom,
            endpoints,
            roots,
            policy,
            tier,
            corpus_digest,
            owner,
            signature,
        }
    }
}

} // verus!
