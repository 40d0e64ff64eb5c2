use brokkr::backend::sign::DualPublicKey;
use brokkr::crypto::CryptoError;

#[test]
fn test_malformed_public_bytes_rejected() {
    // Public bytes of the right lengths: 1952 for ML-DSA-65, 48 for SLH-DSA-SHAKE-192s.
    let (m, s) = (vec![0x3cu8; 1952], vec![0xc3u8; 48]);

    // Wrong-length ML-DSA public bytes -> fail-closed import.
    assert!(DualPublicKey::from_public_bytes(&m[..100], &s).is_err());
    // Wrong-length SLH-DSA public bytes -> fail-closed import.
    assert!(DualPublicKey::from_public_bytes(&m, &s[..10]).is_err());
    // Empty ML-DSA public bytes -> MalformedKey.
    assert!(matches!(
        DualPublicKey::from_public_bytes(&[], &s),
        Err(CryptoError::MalformedKey)
    ));
}
