use brokkr::backend::sign::DualPublicKey;
use brokkr::crypto::{Attestation, Digest, DualSignature, HashAlg, Signature, SignatureAlg};
use brokkr::ids::{Dap, Nonce, SubjectId, Timestamp};
use brokkr::intent::{
    AttenuationError, Capability, IntentProvenanceChain, IntentScope, Invariant, InvariantSet,
    RootIntent,
};
use brokkr::skuld::chain::{IntentError, Skuld};

fn scope(caps: &[&str]) -> IntentScope {
    IntentScope::new(caps.iter().map(|c| Capability::new(c)).collect())
}

fn invs(items: &[&str]) -> InvariantSet {
    InvariantSet::new(items.iter().map(|i| Invariant::new(i)).collect())
}

fn dummy_sig() -> DualSignature {
    DualSignature {
        lattice: Signature {
            alg: SignatureAlg::MlDsa65,
            bytes: vec![1, 2, 3],
        },
        hash_based: Signature {
            alg: SignatureAlg::SlhDsaShake192s,
            bytes: vec![4, 5, 6],
        },
    }
}

fn attestation(subject: &str) -> Attestation {
    Attestation {
        subject: SubjectId::new(subject),
        measurements: Digest {
            alg: HashAlg::Sha384,
            bytes: vec![0u8; 48],
        },
        freshness: Nonce(1),
        signatures: dummy_sig(),
    }
}

fn public(fill: u8) -> DualPublicKey {
    DualPublicKey::from_public_bytes(&[fill; 1952], &[fill; 48]).unwrap()
}

/// A 2-hop chain over scope {read,write,exec} -> {read,write} -> {read}, expiry 10_000.
/// Expiry is decided before any signature is read, so the chain carries placeholders.
fn build_chain() -> IntentProvenanceChain {
    let root = RootIntent {
        principal: SubjectId::new("principal"),
        dap: Dap::new("Jeremy Rose", "dap-1"),
        scope: scope(&["read", "write", "exec"]),
        invariants: invs(&["no-network-egress"]),
        nonce: Nonce(42),
        expiry: Timestamp(10_000),
        signature: dummy_sig(),
    };
    let chain = IntentProvenanceChain::new(root)
        .extend(
            attestation("hop-1"),
            Digest {
                alg: HashAlg::Sha384,
                bytes: vec![0u8; 48],
            },
            scope(&["read", "write"]),
            vec![],
            invs(&["read-only-outside-src"]),
            dummy_sig(),
        )
        .unwrap();
    chain
        .extend(
            attestation("hop-2"),
            Digest {
                alg: HashAlg::Sha384,
                bytes: vec![0u8; 48],
            },
            scope(&["read"]),
            vec![],
            InvariantSet::default(),
            dummy_sig(),
        )
        .unwrap()
}

#[test]
fn test_verify_chain_public_expired() {
    let skuld = Skuld;
    let chain = build_chain();
    let root_pub = public(1);
    let hop1_pub = public(2);
    let hop2_pub = public(3);
    let entries = chain.entries().to_vec();

    // now (20_000) > expiry (10_000): refused before the walk.
    assert_eq!(
        skuld
            .verify_chain_public(
                chain.root(),
                &entries,
                &root_pub,
                &[&hop1_pub, &hop2_pub],
                Timestamp(20_000)
            )
            .unwrap_err(),
        IntentError::Attenuation(AttenuationError::Expired)
    );
}
