use brokkr::backend::cms::{CmsError, cms_error_from, cms_outcome};
use brokkr::gate::Action;
use brokkr::ids::HopId;
use brokkr::mimir::backend::BackendProposal;
use brokkr::mimir::reasoner::proposal_from;
use brokkr::reasoner::ReasonerError;
use brokkr::backend::tstinfo::{
    Cursor, TAG_INTEGER, TAG_OCTET_STRING, TAG_OID, TAG_SEQUENCE, build_request, oid_sha384_bytes,
};
use brokkr::crypto::{Attestation, CryptoError, Digest, DualSignature, HashAlg, Signature, SignatureAlg};
use brokkr::genome::{
    PrivilegeClass, RootOfTrustEntry, RootsOfTrust, ToolEntry, ToolGenome, ToolSchema,
};
use brokkr::ids::ToolId;
use brokkr::tolerance::ResponseClass;
use brokkr::ids::{Dap, Nonce, SubjectId, Timestamp};
use brokkr::intent::{
    AttenuationError, Capability, Caveat, IntentChainEntry, IntentScope, Invariant, InvariantSet,
    RootIntent,
};
use brokkr::mimir::backend::BackendError;
use brokkr::mimir::ollama::{json_escape, json_string_field};
use brokkr::regin::canonical::{roots_signed_content, tools_signed_content};
use brokkr::sentinel::canonical::corpus_signed_content;
use brokkr::skuld::canonical::{entry_signed_content, root_signed_content};
use brokkr::skuld::chain::IntentError;

fn sig(fill: u8) -> DualSignature {
    DualSignature {
        lattice: Signature {
            alg: SignatureAlg::MlDsa65,
            bytes: vec![fill; 3],
        },
        hash_based: Signature {
            alg: SignatureAlg::SlhDsaShake192s,
            bytes: vec![fill; 5],
        },
    }
}

fn root(nonce: u64, fill: u8) -> RootIntent {
    RootIntent {
        principal: SubjectId::new("principal"),
        dap: Dap::new("Jeremy Rose", "dap-1"),
        scope: IntentScope::new(vec![Capability::new("read"), Capability::new("write")]),
        invariants: InvariantSet::new(vec![Invariant::new("no-network-egress")]),
        nonce: Nonce(nonce),
        expiry: Timestamp(10_000),
        signature: sig(fill),
    }
}

/// The length-prefixed form of a domain tag: 8-byte big-endian length, then the bytes.
fn lp(tag: &str) -> Vec<u8> {
    let mut out = (tag.len() as u64).to_be_bytes().to_vec();
    out.extend_from_slice(tag.as_bytes());
    out
}

#[test]
fn escaped_values_read_back_exactly() {
    for value in [
        "",
        "plain",
        "say \"hi\"",
        "back\\slash",
        "line\nbreak\r\ttab",
        "bell\u{7}and\u{1f}",
        "naïve → ünïcödé",
        "{\"response\":\"nested\"}",
    ] {
        let text = format!("{{\"response\":\"{}\"}}", json_escape(value));
        assert_eq!(
            json_string_field(&text, "response"),
            Some(value.to_string()),
            "escaped value must read back: {value:?}"
        );
    }
}

#[test]
fn json_escape_exact_output() {
    assert_eq!(json_escape("a\"b\\c\nd"), "a\\\"b\\\\c\\nd");
    assert_eq!(json_escape("\u{1}"), "\\u0001");
    assert_eq!(json_escape("\u{1b}x"), "\\u001bx");
    assert_eq!(json_escape("\r\t"), "\\r\\t");
    assert_eq!(json_escape("é"), "é");
}

#[test]
fn field_lookup_misses_are_none() {
    assert_eq!(json_string_field("{\"other\":\"x\"}", "response"), None);
    assert_eq!(json_string_field("{\"response\":\"cut off", "response"), None);
    assert_eq!(json_string_field("{\"response\" :  \"v\"}", "response"), Some("v".to_string()));
}

#[test]
fn request_with_long_digest_reads_back() {
    let digest: Vec<u8> = (0..300u32).map(|i| (i % 251) as u8).collect();
    let req = build_request(&digest);
    // Long-form lengths: the outer SEQUENCE body exceeds 127 bytes.
    assert_eq!(req[0], TAG_SEQUENCE);
    assert_eq!(req[1], 0x82);
    let mut c = Cursor::new(&req);
    let body = c.tagged(TAG_SEQUENCE).unwrap();
    assert_eq!(c.remaining(), 0);
    let mut b = Cursor::new(body);
    assert_eq!(b.tagged(TAG_INTEGER).unwrap(), &[1u8][..]);
    let mi = b.tagged(TAG_SEQUENCE).unwrap();
    let mut m = Cursor::new(mi);
    let alg = m.tagged(TAG_SEQUENCE).unwrap();
    let mut a = Cursor::new(alg);
    assert_eq!(a.tagged(TAG_OID).unwrap(), &oid_sha384_bytes()[..]);
    assert_eq!(m.tagged(TAG_OCTET_STRING).unwrap(), &digest[..]);
}

#[test]
fn register_contents_are_domain_separated() {
    let tools = ToolGenome {
        entries: vec![],
        signature: sig(0),
    };
    let roots = RootsOfTrust {
        entries: vec![],
        signature: sig(0),
    };
    let t = tools_signed_content(&tools);
    let r = roots_signed_content(&roots);
    let c = corpus_signed_content(&[]);
    assert!(t.starts_with(&lp("brokkr-genome:tools:v1")));
    assert!(r.starts_with(&lp("brokkr-genome:roots:v1")));
    assert!(c.starts_with(&lp("brokkr-sentinel:corpus:v1")));
    assert_ne!(t, r);
    assert_ne!(t, c);
    assert_ne!(r, c);
}

#[test]
fn root_signed_content_ignores_signature_and_binds_nonce() {
    assert_eq!(root_signed_content(&root(42, 1)), root_signed_content(&root(42, 9)));
    assert_ne!(root_signed_content(&root(42, 1)), root_signed_content(&root(43, 1)));
}

#[test]
fn error_messages_exact() {
    assert_eq!(
        IntentError::EntrySignatureInvalid { hop: 12 }.to_string(),
        "entry signature at hop 12 did not verify"
    );
    assert_eq!(
        IntentError::BrokenLink { hop: 0 }.to_string(),
        "hash link broken at hop 0 (received_digest mismatch)"
    );
    assert_eq!(
        IntentError::HopKeyMissing { hop: 305 }.to_string(),
        "no verifying key supplied for hop 305"
    );
    assert_eq!(
        IntentError::Attenuation(AttenuationError::WouldBroaden).to_string(),
        "attenuation error: emitted scope is not a subset of the received scope"
    );
    assert_eq!(CryptoError::MalformedKey.to_string(), "malformed key material");
    assert_eq!(
        BackendError { detail: "timeout".to_string() }.to_string(),
        "reasoner backend error: timeout"
    );
}

#[test]
fn unicode_escapes_decode_to_their_scalar_values() {
    assert_eq!(
        json_string_field("{\"response\":\"\\u0041\\u00e9\\u2713\"}", "response"),
        Some("Aé✓".to_string())
    );
    // A lone surrogate is no scalar value and is dropped; an escape with bad digits too.
    assert_eq!(
        json_string_field("{\"response\":\"a\\ud800b\\uzzzzc\"}", "response"),
        Some("abc".to_string())
    );
    // Other escapes, and whitespace before the value.
    assert_eq!(
        json_string_field("{\"response\":\t \"x\\/y\\\\z\\\"\"}", "response"),
        Some("x/y\\z\"".to_string())
    );
}

fn tool(id: &str, detail: &str, privilege: PrivilegeClass, caps: &[&str]) -> ToolEntry {
    ToolEntry {
        id: ToolId::new(id),
        schema: ToolSchema { detail: detail.to_string() },
        privilege,
        response_class: ResponseClass::Deterministic,
        required_capabilities: caps.iter().map(|c| Capability::new(c)).collect(),
    }
}

#[test]
fn register_encodings_are_unambiguous() {
    let reg = |entries: Vec<ToolEntry>| tools_signed_content(&ToolGenome { entries, signature: sig(0) });
    // Moving characters between adjacent fields changes the bytes.
    assert_ne!(
        reg(vec![tool("ab", "c", PrivilegeClass::Privileged, &["x"])]),
        reg(vec![tool("a", "bc", PrivilegeClass::Privileged, &["x"])])
    );
    assert_ne!(
        reg(vec![tool("t", "{}", PrivilegeClass::Privileged, &["read"])]),
        reg(vec![tool("t", "{}", PrivilegeClass::Unprivileged, &["read"])])
    );
    assert_ne!(
        reg(vec![tool("t", "{}", PrivilegeClass::Privileged, &["re", "ad"])]),
        reg(vec![tool("t", "{}", PrivilegeClass::Privileged, &["read"])])
    );
    let roots = |k: Vec<u8>| {
        roots_signed_content(&RootsOfTrust {
            entries: vec![RootOfTrustEntry {
                subject: SubjectId::new("hop-1"),
                ml_dsa_public: k,
                slh_dsa_public: vec![9],
            }],
            signature: sig(0),
        })
    };
    assert_ne!(roots(vec![1, 2, 3]), roots(vec![1, 2]));
    assert_eq!(roots(vec![1, 2, 3]), roots(vec![1, 2, 3]));
}

#[test]
fn invariant_iteration_yields_each_name_once_in_order() {
    let set = InvariantSet::new(vec![
        Invariant::new("b"),
        Invariant::new("a"),
        Invariant::new("b"),
    ]);
    let names: Vec<&str> = set.iter().map(|i| i.0.as_str()).collect();
    assert_eq!(names, vec!["a", "b"]);
}

#[test]
fn cms_outcome_decides_as_stated() {
    assert_eq!(cms_error_from(-155), CmsError::SignatureInvalid);
    assert_eq!(cms_error_from(-229), CmsError::SignatureInvalid);
    assert_eq!(cms_error_from(-140), CmsError::Malformed);
    assert_eq!(cms_error_from(-1), CmsError::Malformed);
    let anchor = vec![1u8, 2, 3];
    assert_eq!(
        cms_outcome(-229, vec![9], 1, 2, anchor.clone(), &anchor).err(),
        Some(CmsError::SignatureInvalid)
    );
    assert_eq!(
        cms_outcome(0, vec![9], 1, 2, vec![1, 2], &anchor).err(),
        Some(CmsError::SignatureInvalid)
    );
    assert_eq!(
        cms_outcome(0, vec![], 1, 2, anchor.clone(), &anchor).err(),
        Some(CmsError::Malformed)
    );
    let v = cms_outcome(0, vec![9, 8], 645, 672, anchor.clone(), &anchor).unwrap();
    assert_eq!(v.content, vec![9, 8]);
    assert_eq!((v.key_oid, v.hash_oid), (645, 672));
    assert_eq!(v.used_cert, anchor);
}

#[test]
fn intent_scope_collapses_repeats_and_ignores_order() {
    let a = IntentScope::new(vec![
        Capability::new("read"),
        Capability::new("write"),
        Capability::new("read"),
    ]);
    let b = IntentScope::new(vec![Capability::new("write"), Capability::new("read")]);
    assert_eq!(a.capabilities().len(), 2);
    assert_eq!(a, b);
}

#[test]
fn proposal_keeps_the_backends_action_and_rationale() {
    let action = Action { tool: ToolId::new("write_file"), detail: "/tmp/x".to_string() };
    let p = proposal_from(
        Ok(BackendProposal { action: action.clone(), rationale: "because".to_string() }),
        &HopId::new("hop-7"),
    )
    .unwrap();
    assert_eq!(p.action, action);
    assert_eq!(p.rationale, "because");
    assert_eq!(p.hop, HopId::new("hop-7"));
    assert_eq!(
        proposal_from(Err(BackendError { detail: "down".to_string() }), &HopId::new("h")).err(),
        Some(ReasonerError::Backend)
    );
}

fn entry(caveats: &[&str], digest_byte: u8, fill: u8) -> IntentChainEntry {
    IntentChainEntry {
        hop_identity: Attestation {
            subject: SubjectId::new("hop-1"),
            measurements: Digest { alg: HashAlg::Sha384, bytes: vec![1; 48] },
            freshness: Nonce(5),
            signatures: sig(0),
        },
        received_digest: Digest { alg: HashAlg::Sha384, bytes: vec![digest_byte; 48] },
        emitted_scope: IntentScope::new(vec![Capability::new("read")]),
        added_caveats: caveats.iter().map(|c| Caveat(c.to_string())).collect(),
        added_invariants: InvariantSet::new(vec![]),
        signature: sig(fill),
    }
}

#[test]
fn entry_encoding_is_unambiguous_and_ignores_signature() {
    assert_eq!(entry_signed_content(&entry(&["a"], 2, 1)), entry_signed_content(&entry(&["a"], 2, 9)));
    assert_ne!(
        entry_signed_content(&entry(&["a", "bc"], 2, 1)),
        entry_signed_content(&entry(&["ab", "c"], 2, 1))
    );
    assert_ne!(entry_signed_content(&entry(&["a"], 2, 1)), entry_signed_content(&entry(&["a"], 3, 1)));
}
