use brokkr::backend::keys::{MlDsa65, MlDsa65Public, Rng, SlhDsaShake192sPublic};
use brokkr::crypto::CryptoError;

const MSG: &[u8] = b"BROKKR governed audit record";

#[test]
fn mldsa65_key_signs_and_its_public_half_verifies() {
    let key = MlDsa65::generate().unwrap();
    assert_eq!(key.sig_size(), 3309);
    let sig = key.sign(MSG).unwrap();
    assert_eq!(sig.len(), 3309);
    assert!(key.verify(MSG, &sig));
    assert!(!key.verify(b"another message", &sig));
    let public = MlDsa65Public::from_public_bytes(key.export_public()).unwrap();
    assert_eq!(public.as_bytes(), key.export_public());
    assert!(public.verify(MSG, &sig));
    let mut bad = sig.clone();
    bad[0] ^= 1;
    assert!(!public.verify(MSG, &bad));
    assert!(!public.verify(MSG, &sig[..100]));
}

#[test]
fn public_keys_of_the_wrong_length_are_malformed() {
    assert_eq!(
        MlDsa65Public::from_public_bytes(&[0u8; 1951]).err(),
        Some(CryptoError::MalformedKey)
    );
    assert_eq!(
        SlhDsaShake192sPublic::from_public_bytes(&[0u8; 47]).err(),
        Some(CryptoError::MalformedKey)
    );
    let slh = SlhDsaShake192sPublic::from_public_bytes(&[7u8; 48]).unwrap();
    assert_eq!(slh.as_bytes(), &[7u8; 48][..]);
    // A signature of the wrong length is not accepted.
    assert!(!slh.verify(MSG, &[0u8; 10]));
}

#[test]
fn rng_fills_buffers() {
    let rng = Rng::new().unwrap();
    let mut a = [0u8; 64];
    let mut b = [0u8; 64];
    rng.fill(&mut a).unwrap();
    rng.fill(&mut b).unwrap();
    assert_ne!(a, b);
    let mut empty: [u8; 0] = [];
    assert!(rng.fill(&mut empty).is_ok());
}
