use brokkr::crypto::{DualSignature, Signature, SignatureAlg};
use brokkr::ids::{Dap, Nonce, SubjectId, Timestamp};
use brokkr::intent::{Capability, IntentScope, Invariant, InvariantSet, RootIntent};
use brokkr::skuld::canonical;

fn scope(caps: &[&str]) -> IntentScope {
    IntentScope::new(caps.iter().map(|c| Capability::new(c)).collect())
}

fn invs(items: &[&str]) -> InvariantSet {
    InvariantSet::new(items.iter().map(|i| Invariant::new(i)).collect())
}

fn dummy_sig() -> DualSignature {
    DualSignature {
        lattice: Signature {
            alg: SignatureAlg::MlDsa65,
            bytes: vec![1, 2, 3],
        },
        hash_based: Signature {
            alg: SignatureAlg::SlhDsaShake192s,
            bytes: vec![4, 5, 6],
        },
    }
}

/// A root over scope {read, write, exec}, invariants {no-network-egress}, expiry 10_000.
/// Its signature is not part of the signed content, so a placeholder serves.
fn root() -> RootIntent {
    RootIntent {
        principal: SubjectId::new("principal"),
        dap: Dap::new("Jeremy Rose", "dap-1"),
        scope: scope(&["read", "write", "exec"]),
        invariants: invs(&["no-network-egress"]),
        nonce: Nonce(42),
        expiry: Timestamp(10_000),
        signature: dummy_sig(),
    }
}

#[test]
fn test_canonical_serialization_deterministic_and_unambiguous() {
    let root = root();
    // Deterministic: same struct -> identical bytes, every call.
    assert_eq!(canonical::root_signed_content(&root), canonical::root_signed_content(&root));

    // Unambiguous: length-prefixing prevents delimiter collisions. Two scopes whose
    // concatenations would collide without length prefixes ({"a","bc"} vs {"ab","c"})
    // must encode to distinct bytes.
    let mk = |caps: &[&str]| RootIntent {
        principal: SubjectId::new("p"),
        dap: Dap::new("n", "i"),
        scope: scope(caps),
        invariants: InvariantSet::default(),
        nonce: Nonce(1),
        expiry: Timestamp(1),
        signature: dummy_sig(),
    };
    let a = mk(&["a", "bc"]);
    let b = mk(&["ab", "c"]);
    assert_ne!(
        canonical::root_signed_content(&a),
        canonical::root_signed_content(&b),
        "length-prefixing must make distinct scopes encode distinctly"
    );
}
