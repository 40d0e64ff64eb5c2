use aes_gcm::aead::{AeadInOut, KeyInit};
use aes_gcm::Aes256Gcm;

use brokkr::backend::kem::MlKem768;
use brokkr::backend::shred::SubjectKey;

/// AES-256-GCM with a detached tag, for the subject's data.
fn aes256_gcm_encrypt(key: &[u8], iv: &[u8; 12], pt: &[u8], aad: &[u8]) -> (Vec<u8>, Vec<u8>) {
    let cipher = Aes256Gcm::new_from_slice(key).unwrap();
    let mut buf = pt.to_vec();
    let tag = cipher
        .encrypt_inout_detached(&(*iv).into(), aad, buf.as_mut_slice().into())
        .unwrap();
    (buf, tag.to_vec())
}

fn aes256_gcm_decrypt(key: &[u8], iv: &[u8; 12], ct: &[u8], tag: &[u8], aad: &[u8]) -> Option<Vec<u8>> {
    let cipher = Aes256Gcm::new_from_slice(key).unwrap();
    let tag: [u8; 16] = tag.try_into().unwrap();
    let mut buf = ct.to_vec();
    match cipher.decrypt_inout_detached(&(*iv).into(), aad, buf.as_mut_slice().into(), &tag.into()) {
        Ok(()) => Some(buf),
        Err(_) => None,
    }
}

#[test]
fn test_crypto_shred_roundtrip_then_irrecoverable() {
    let mut subject = SubjectKey::generate().unwrap();
    let (wrapped, dk) = subject.wrap_new_data_key().unwrap();

    // Personal data under the data key, irrecoverable once the key is shredded.
    let iv = [7u8; 12];
    let (ct, tag) = aes256_gcm_encrypt(&dk, &iv, b"subject personal data", b"record-42");

    // Round-trip: unwrapping recovers the same data key, which decrypts the data.
    let dk_again = subject.unwrap_data_key(&wrapped).unwrap();
    assert_eq!(dk, dk_again, "unwrap must recover the same data key");
    let recovered = aes256_gcm_decrypt(&dk_again, &iv, &ct, &tag, b"record-42").unwrap();
    assert_eq!(recovered, b"subject personal data");

    // A different subject key cannot unwrap: its decapsulated secret differs, and the
    // AES-GCM tag rejects it.
    let other = SubjectKey::generate().unwrap();
    assert!(
        other.unwrap_data_key(&wrapped).is_err(),
        "a different subject key must not unwrap the data key"
    );

    // Shred: destroy the ML-KEM key.
    subject.shred();

    // After shredding, the original subject can no longer unwrap.
    assert!(
        subject.unwrap_data_key(&wrapped).is_err(),
        "after crypto-shred, the data key must be irrecoverable"
    );
}

#[test]
fn shredded_key_cannot_wrap() {
    let mut subject = SubjectKey::generate().unwrap();
    subject.shred();
    assert!(subject.wrap_new_data_key().is_err());
}

#[test]
fn tampered_wrap_is_refused() {
    let subject = SubjectKey::generate().unwrap();
    let (wrapped, _dk) = subject.wrap_new_data_key().unwrap();
    let mut bad_tag = wrapped.clone();
    bad_tag.tag[0] ^= 1;
    assert_eq!(
        subject.unwrap_data_key(&bad_tag),
        Err(brokkr::crypto::CryptoError::VerificationFailed)
    );
    let mut short = wrapped.clone();
    short.kem_ciphertext.pop();
    assert_eq!(
        subject.unwrap_data_key(&short),
        Err(brokkr::crypto::CryptoError::MalformedKey)
    );
    // Each wrap draws a fresh data key and a fresh encapsulation.
    let (again, dk2) = subject.wrap_new_data_key().unwrap();
    assert_ne!(again.kem_ciphertext, wrapped.kem_ciphertext);
    assert_eq!(subject.unwrap_data_key(&again).unwrap(), dk2);
}

#[test]
fn test_mlkem768_encapsulate_decapsulate_agree() {
    let kem = MlKem768::generate().unwrap();
    let (ct, ss_enc) = kem.encapsulate().unwrap();
    let ss_dec = kem.decapsulate(&ct).unwrap();

    // The ML-KEM-768 shared secret is 32 bytes; encapsulation and decapsulation agree.
    assert_eq!(ss_enc.len(), 32);
    assert_eq!(
        ss_enc, ss_dec,
        "ML-KEM encapsulate/decapsulate must produce the same secret"
    );
}

#[test]
fn destroyed_kem_refuses_everything() {
    let mut kem = MlKem768::generate().unwrap();
    assert_eq!(kem.ciphertext_size(), Ok(1088));
    assert_eq!(kem.shared_secret_size(), Ok(32));
    let (ct, _) = kem.encapsulate().unwrap();
    assert_eq!(ct.len(), 1088);
    assert_eq!(kem.decapsulate(&ct[..100]), Err(brokkr::crypto::CryptoError::MalformedKey));
    kem.destroy();
    kem.destroy();
    assert!(kem.encapsulate().is_err());
    assert!(kem.decapsulate(&ct).is_err());
    assert!(kem.ciphertext_size().is_err());
    assert!(kem.shared_secret_size().is_err());
}
