use brokkr::crypto::{Attestation, Digest, DualSignature, HashAlg, Signature, SignatureAlg};
use brokkr::gate::{Action, AnergyReason, AuthorizationDecision};
use brokkr::ids::{Dap, Nonce, SubjectId, Timestamp, ToolId};
use brokkr::intent::{
    Capability, IntentProvenanceChain, IntentScope, Invariant, InvariantSet, RootIntent,
};
use brokkr::sindri::gate::Sindri;
use brokkr::sindri::resolver::RegistryResolver;

fn scope(caps: &[&str]) -> IntentScope {
    IntentScope::new(caps.iter().map(|c| Capability::new(c)).collect())
}

fn invs(items: &[&str]) -> InvariantSet {
    InvariantSet::new(items.iter().map(|i| Invariant::new(i)).collect())
}

fn dummy_sig() -> DualSignature {
    // Correct algorithm identifiers, bytes that verify under no key.
    DualSignature {
        lattice: Signature {
            alg: SignatureAlg::MlDsa65,
            bytes: vec![1, 2, 3],
        },
        hash_based: Signature {
            alg: SignatureAlg::SlhDsaShake192s,
            bytes: vec![4, 5, 6],
        },
    }
}

/// An attestation presenting a subject. Its signatures and measurements are placeholders:
/// signal one does not verify the attestation's own signature, and only the subject drives
/// resolution and binding.
fn attn(subject: &SubjectId) -> Attestation {
    Attestation {
        subject: subject.clone(),
        measurements: Digest {
            alg: HashAlg::Sha384,
            bytes: vec![0u8; 48],
        },
        freshness: Nonce(1),
        signatures: dummy_sig(),
    }
}

fn action() -> Action {
    Action {
        tool: ToolId::new("write"),
        detail: "./src/lib.rs".into(),
    }
}

/// A declared identity: a subject and the encoded public keys registered for it.
struct Party {
    subject: SubjectId,
    ml_dsa_public: Vec<u8>,
    slh_dsa_public: Vec<u8>,
}

fn party(name: &str, fill: u8) -> Party {
    Party {
        subject: SubjectId::new(name),
        ml_dsa_public: vec![fill; 1952],
        slh_dsa_public: vec![fill; 48],
    }
}

/// Registers a party's public key under its subject in the resolver.
fn declare(reg: RegistryResolver, p: &Party) -> RegistryResolver {
    reg.with_root(p.subject.clone(), p.ml_dsa_public.clone(), p.slh_dsa_public.clone())
}

fn root_of(principal: &Party, caps: &[&str]) -> RootIntent {
    RootIntent {
        principal: principal.subject.clone(),
        dap: Dap::new("Jeremy Rose", "dap-1"),
        scope: scope(caps),
        invariants: invs(&["no-network-egress"]),
        nonce: Nonce(42),
        expiry: Timestamp(10_000),
        signature: dummy_sig(),
    }
}

/// A 2-hop chain: root(principal) {read,write,exec} -> hop1 {read,write} -> hop2 {read},
/// expiry 10_000. Every check these tests reach is decided before any signature is read,
/// so the chain carries placeholder signatures.
fn chain_2hop(principal: &Party, hop1: &Party, hop2: &Party) -> IntentProvenanceChain {
    let chain = IntentProvenanceChain::new(root_of(principal, &["read", "write", "exec"]));
    let chain = chain
        .extend(
            attn(&hop1.subject),
            Digest {
                alg: HashAlg::Sha384,
                bytes: vec![0u8; 48],
            },
            scope(&["read", "write"]),
            vec![],
            invs(&["read-only-outside-src"]),
            dummy_sig(),
        )
        .unwrap();
    chain
        .extend(
            attn(&hop2.subject),
            Digest {
                alg: HashAlg::Sha384,
                bytes: vec![0u8; 48],
            },
            scope(&["read"]),
            vec![],
            InvariantSet::default(),
            dummy_sig(),
        )
        .unwrap()
}

/// A registry declaring all three parties of a 2-hop chain.
fn registry_for(principal: &Party, hop1: &Party, hop2: &Party) -> RegistryResolver {
    declare(declare(declare(RegistryResolver::new(), principal), hop1), hop2)
}

fn parties() -> (Party, Party, Party) {
    (party("principal", 1), party("hop-1", 2), party("hop-2", 3))
}

fn assert_anergy(decision: AuthorizationDecision, expected: AnergyReason) {
    match decision {
        AuthorizationDecision::Anergy { reason } => assert_eq!(reason, expected),
        AuthorizationDecision::Granted(_) => {
            panic!("expected Anergy {{ {:?} }}, got Granted", expected)
        }
    }
}

#[test]
fn test_oqgf_m_11_undeclared_identity_is_anergy() {
    let (principal, hop1, hop2) = parties();
    let chain = chain_2hop(&principal, &hop1, &hop2);
    let sindri = Sindri::new(registry_for(&principal, &hop1, &hop2), Timestamp(500));

    // A subject the registry does not declare: resolution returns None.
    assert_anergy(
        sindri.authorize(&attn(&SubjectId::new("stranger")), &chain, action()),
        AnergyReason::IdentityUnverified,
    );
}

#[test]
fn test_oqgf_m_11_identity_does_not_bind_is_anergy() {
    // Identity A (hop-1) is declared and resolves, and the chain ends in B (hop-2, also
    // declared). Signal one still refuses, because A is not the hop the chain proves.
    let (principal, hop1, hop2) = parties();
    let chain = chain_2hop(&principal, &hop1, &hop2);
    let sindri = Sindri::new(registry_for(&principal, &hop1, &hop2), Timestamp(500));

    assert_anergy(
        sindri.authorize(&attn(&hop1.subject), &chain, action()),
        AnergyReason::IdentityUnverified,
    );
}

#[test]
fn test_root_only_chain_wrong_principal_is_anergy() {
    let principal = party("principal", 1);
    let other = party("other", 9); // declared, but not the root principal
    let chain = IntentProvenanceChain::new(root_of(&principal, &["read"]));
    let reg = declare(declare(RegistryResolver::new(), &principal), &other);
    let sindri = Sindri::new(reg, Timestamp(500));

    // `other` is declared (resolves) but is not the root principal: binding fails.
    assert_anergy(
        sindri.authorize(&attn(&other.subject), &chain, action()),
        AnergyReason::IdentityUnverified,
    );
}

#[test]
fn test_oqgf_m_14_expired_chain_is_anergy() {
    let (principal, hop1, hop2) = parties();
    let chain = chain_2hop(&principal, &hop1, &hop2); // expiry 10_000
    // now > expiry; expiry is checked before any signature.
    let sindri = Sindri::new(registry_for(&principal, &hop1, &hop2), Timestamp(20_000));

    assert_anergy(
        sindri.authorize(&attn(&hop2.subject), &chain, action()),
        AnergyReason::ChainExpired,
    );
}

#[test]
fn test_unresolvable_hop_is_anergy() {
    // A mid-chain hop (hop-1) is absent from the registry, while the presented identity
    // (hop-2) and the root are declared. Signal one passes; signal two fails resolving hop-1.
    let (principal, hop1, hop2) = parties();
    let chain = chain_2hop(&principal, &hop1, &hop2);
    let reg = declare(declare(RegistryResolver::new(), &principal), &hop2);
    let sindri = Sindri::new(reg, Timestamp(500));

    assert_anergy(
        sindri.authorize(&attn(&hop2.subject), &chain, action()),
        AnergyReason::IdentityUnverified,
    );
}

#[test]
fn test_i1_sindri_never_mints() {
    // SINDRI supplies only the verdict; the provided `authorize` is the sole minter. A
    // failure routes to Anergy and yields no AuthorizedAction.
    let (principal, hop1, hop2) = parties();
    let chain = chain_2hop(&principal, &hop1, &hop2);
    let sindri = Sindri::new(registry_for(&principal, &hop1, &hop2), Timestamp(500));

    let decision = sindri.authorize(&attn(&SubjectId::new("nobody")), &chain, action());
    assert!(
        matches!(decision, AuthorizationDecision::Anergy { .. }),
        "a failing evaluation must yield Anergy, never a minted grant"
    );
}
