use brokkr::backend::hash::Sha384Hasher;
use brokkr::backend::sign::MlDsaSigner;
use brokkr::crypto::{HashAlg, Hasher, SignatureAlg, Signer, Verifier};

const MSG: &[u8] = b"BROKKR governed audit record: proposal -> gate -> action";

#[test]
fn test_sha384_known_answer_vector_fips_180_4() {
    // The published SHA-384("abc") vector.
    let expected: [u8; 48] = [
        0xcb, 0x00, 0x75, 0x3f, 0x45, 0xa3, 0x5e, 0x8b, 0xb5, 0xa0, 0x3d, 0x69, 0x9a, 0xc6, 0x50,
        0x07, 0x27, 0x2c, 0x32, 0xab, 0x0e, 0xde, 0xd1, 0x63, 0x1a, 0x8b, 0x60, 0x5a, 0x43, 0xff,
        0x5b, 0xed, 0x80, 0x86, 0x07, 0x2b, 0xa1, 0xe7, 0xcc, 0x23, 0x58, 0xba, 0xec, 0xa1, 0x34,
        0xc8, 0x25, 0xa7,
    ];
    let digest = Sha384Hasher.hash(b"abc");
    assert_eq!(digest.alg, HashAlg::Sha384);
    assert_eq!(
        digest.bytes, expected,
        "SHA-384(\"abc\") must match the NIST vector"
    );
}

#[test]
fn test_mldsa65_roundtrip_tamper_and_not_dilithium() {
    let signer = MlDsaSigner::generate().unwrap();
    let sig = signer.sign(MSG).unwrap();

    // The ML-DSA-65 signature is exactly 3309 bytes.
    assert_eq!(
        sig.bytes.len(),
        3309,
        "ML-DSA-65 signature must be 3309 bytes"
    );
    assert_eq!(sig.alg, SignatureAlg::MlDsa65);

    // Valid signature verifies.
    assert!(signer.verify(MSG, &sig).is_ok());

    // Tampered message fails.
    assert!(
        signer
            .verify(b"a different message entirely", &sig)
            .is_err()
    );

    // Tampered signature fails.
    let mut bad = sig.clone();
    bad.bytes[10] ^= 0xff;
    assert!(signer.verify(MSG, &bad).is_err());
}
