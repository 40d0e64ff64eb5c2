//! The two primitives of crypto-shredding: ML-KEM-768 key encapsulation and AES-256-GCM
//! sealing.
use vstd::prelude::*;
use aes_gcm::aead::{AeadInOut, KeyInit};
use ml_kem::kem::Decapsulate;

verus! {

/// An ML-KEM-768 seed (the private key).
pub const MLKEM768_SEED_LEN: usize = 64;

/// An ML-KEM-768 ciphertext.
pub const MLKEM768_CIPHERTEXT_LEN: usize = 1088;

/// An ML-KEM-768 shared secret, and an AES-256 key.
pub const KEY32_LEN: usize = 32;

/// An AES-256-GCM nonce.
pub const GCM_IV_LEN: usize = 12;

/// An AES-256-GCM tag.
pub const GCM_TAG_LEN: usize = 16;

/// The ciphertext and shared secret of ML-KEM-768 encapsulation, with the message `m`, to
/// the encapsulation key of the decapsulation key made from `seed` (FIPS 203
/// `ML-KEM.Encaps_internal`).
pub uninterp spec fn mlkem768_encapsulation(seed: Seq<u8>, m: Seq<u8>) -> (Seq<u8>, Seq<u8>);

/// The shared secret that ML-KEM-768 decapsulation of a ciphertext yields under the
/// decapsulation key made from `seed` (FIPS 203 `ML-KEM.Decaps_internal`, with implicit
/// rejection).
pub uninterp spec fn mlkem768_decapsulation(seed: Seq<u8>, ct: Seq<u8>) -> Seq<u8>;

/// The AES-256-GCM ciphertext and tag of a plaintext under a key, a nonce and associated
/// data.
pub uninterp spec fn aes256gcm_seal(key: Seq<u8>, iv: Seq<u8>, aad: Seq<u8>, pt: Seq<u8>) -> (
    Seq<u8>,
    Seq<u8>,
);

/// What AES-256-GCM decryption of a ciphertext and tag yields under a key, a nonce and
/// associated data: the plaintext, or nothing when the tag does not authenticate.
pub uninterp spec fn aes256gcm_open(
    key: Seq<u8>,
    iv: Seq<u8>,
    aad: Seq<u8>,
    ct: Seq<u8>,
    tag: Seq<u8>,
) -> Option<Seq<u8>>;

/// `ml_kem::EncapsulationKey::<MlKem768>::encapsulate_deterministic`, for the encapsulation
/// key of `DecapsulationKey::from_seed(seed)`: the ciphertext (1088 bytes) and the 32-byte
/// shared secret, a function of the seed and `m` alone.
#[verifier::external_body]
pub(crate) fn mlkem768_encapsulate(seed: &[u8], m: &[u8]) -> (r: (Vec<u8>, Vec<u8>))
    requires
        seed@.len() == MLKEM768_SEED_LEN,
        m@.len() == KEY32_LEN,
    ensures
        (r.0@, r.1@) == mlkem768_encapsulation(seed@, m@),
        r.0@.len() == MLKEM768_CIPHERTEXT_LEN,
        r.1@.len() == KEY32_LEN,
{
    let seed = ml_kem::Seed::try_from(seed).unwrap();
    let dk = ml_kem::DecapsulationKey::<ml_kem::MlKem768>::from_seed(seed);
    let m = ml_kem::B32::try_from(m).unwrap();
    let (ct, ss) = dk.encapsulation_key().encapsulate_deterministic(&m);
    (ct.to_vec(), ss.to_vec())
}

/// `ml_kem::DecapsulationKey::<MlKem768>::decapsulate` for `from_seed(seed)`: the 32-byte
/// shared secret, a function of the seed and the ciphertext alone (a ciphertext that does
/// not decrypt consistently yields the implicit-rejection secret, never an error).
#[verifier::external_body]
pub(crate) fn mlkem768_decapsulate(seed: &[u8], ct: &[u8]) -> (ss: Vec<u8>)
    requires
        seed@.len() == MLKEM768_SEED_LEN,
        ct@.len() == MLKEM768_CIPHERTEXT_LEN,
    ensures
        ss@ == mlkem768_decapsulation(seed@, ct@),
        ss@.len() == KEY32_LEN,
{
    let seed = ml_kem::Seed::try_from(seed).unwrap();
    let dk = ml_kem::DecapsulationKey::<ml_kem::MlKem768>::from_seed(seed);
    let ct = ml_kem::ml_kem_768::Ciphertext::try_from(ct).unwrap();
    dk.decapsulate(&ct).to_vec()
}

/// `aes_gcm::Aes256Gcm::encrypt_inout_detached`: the ciphertext (as long as the plaintext)
/// and the 16-byte tag. Encryption and decryption run the same counter keystream and the
/// same tag computation, so decrypting what this returns gives the plaintext back. The
/// crate refuses only plaintexts and associated data far longer than these bounds.
#[verifier::external_body]
pub(crate) fn aes256gcm_encrypt(key: &[u8], iv: &[u8], aad: &[u8], pt: &[u8]) -> (r: (Vec<u8>, Vec<u8>))
    requires
        key@.len() == KEY32_LEN,
        iv@.len() == GCM_IV_LEN,
        aad@.len() <= 0xffff,
        pt@.len() <= 0xffff,
    ensures
        (r.0@, r.1@) == aes256gcm_seal(key@, iv@, aad@, pt@),
        r.0@.len() == pt@.len(),
        r.1@.len() == GCM_TAG_LEN,
        aes256gcm_open(key@, iv@, aad@, r.0@, r.1@) == Some(pt@),
{
    let cipher = aes_gcm::Aes256Gcm::new_from_slice(key).unwrap();
    let iv: [u8; 12] = iv.try_into().unwrap();
    let mut buf = pt.to_vec();
    let tag = cipher.encrypt_inout_detached(&iv.into(), aad, buf.as_mut_slice().into()).unwrap();
    (buf, tag.to_vec())
}

/// `aes_gcm::Aes256Gcm::decrypt_inout_detached`: the plaintext when the tag authenticates
/// the ciphertext, nothing otherwise.
#[verifier::external_body]
pub(crate) fn aes256gcm_decrypt(key: &[u8], iv: &[u8], aad: &[u8], ct: &[u8], tag: &[u8]) -> (r:
    Option<Vec<u8>>)
    requires
        key@.len() == KEY32_LEN,
        iv@.len() == GCM_IV_LEN,
        tag@.len() == GCM_TAG_LEN,
        aad@.len() <= 0xffff,
        ct@.len() <= 0xffff,
    ensures
        match aes256gcm_open(key@, iv@, aad@, ct@, tag@) {
            None => r is None,
            Some(p) => r matches Some(v) && v@ == p,
        },
        r matches Some(v) ==> v@.len() == ct@.len(),
{
    let cipher = aes_gcm::Aes256Gcm::new_from_slice(key).unwrap();
    let iv: [u8; 12] = iv.try_into().unwrap();
    let tag: [u8; 16] = tag.try_into().unwrap();
    let mut buf = ct.to_vec();
    match cipher.decrypt_inout_detached(&iv.into(), aad, buf.as_mut_slice().into(), &tag.into()) {
        Ok(()) => Some(buf),
        Err(_) => None,
    }
}

} // verus!
