//! The primitive operations of the signature backend: SHA-384, ML-DSA-65 (FIPS 204)
//! and SLH-DSA-SHAKE-192s (FIPS 205), each taken from its implementation crate over
//! plain bytes, and the operating system's random number generator.
use vstd::prelude::*;
use sha2::Digest as Sha2Digest;
use fips205::traits::{SerDes, Signer as SlhSigner, Verifier as SlhVerifier};
use rand_core::RngCore;

verus! {

/// Length of a SHA-384 digest.
pub const SHA384_LEN: usize = 48;

/// Length of an ML-DSA-65 key-generation seed.
pub const MLDSA65_SEED_LEN: usize = 32;

/// Length of an encoded ML-DSA-65 public key.
pub const MLDSA65_PUBLIC_LEN: usize = 1952;

/// Length of an encoded ML-DSA-65 signature.
pub const MLDSA65_SIG_LEN: usize = 3309;

/// Length of an SLH-DSA-SHAKE-192s private key (`SK.seed || SK.prf || PK.seed || PK.root`).
pub const SLH192S_SECRET_LEN: usize = 96;

/// Length of an SLH-DSA-SHAKE-192s public key (`PK.seed || PK.root`).
pub const SLH192S_PUBLIC_LEN: usize = 48;

/// Length of an SLH-DSA-SHAKE-192s signature.
pub const SLH192S_SIG_LEN: usize = 16224;

/// The SHA-384 digest of a message (FIPS 180-4).
pub uninterp spec fn sha384_digest(msg: Seq<u8>) -> Seq<u8>;

/// The encoded ML-DSA-65 public key generated from a seed (FIPS 204 `KeyGen_internal`).
pub uninterp spec fn mldsa65_public_key(seed: Seq<u8>) -> Seq<u8>;

/// The deterministic ML-DSA-65 signature of a message, empty context, under the key
/// generated from a seed (FIPS 204 `Sign`, deterministic variant).
pub uninterp spec fn mldsa65_signature(seed: Seq<u8>, msg: Seq<u8>) -> Seq<u8>;

/// Whether ML-DSA-65 verification (empty context) accepts a signature on a message under
/// an encoded public key (FIPS 204 `Verify`).
pub uninterp spec fn mldsa65_accepts(public: Seq<u8>, msg: Seq<u8>, sig: Seq<u8>) -> bool;

/// The deterministic SLH-DSA-SHAKE-192s signature of a message, empty context, under a
/// private key (FIPS 205 `slh_sign`, non-hedged).
pub uninterp spec fn slh192s_signature(secret: Seq<u8>, msg: Seq<u8>) -> Seq<u8>;

/// Whether SLH-DSA-SHAKE-192s verification (empty context) accepts a signature on a
/// message under a public key (FIPS 205 `slh_verify`).
pub uninterp spec fn slh192s_accepts(public: Seq<u8>, msg: Seq<u8>, sig: Seq<u8>) -> bool;

/// Whether deterministic ML-DSA-65 signing (empty context) with the key generated from
/// `seed` finds a signature for `msg` within the rejection-sampling bound of the
/// implementation.
pub uninterp spec fn mldsa65_sign_succeeds(seed: Seq<u8>, msg: Seq<u8>) -> bool;

/// Whether an encoded SLH-DSA-SHAKE-192s private key decodes: its public root is the one
/// its seeds generate.
pub uninterp spec fn slh192s_decodes(secret: Seq<u8>) -> bool;

/// The public key held inside an SLH-DSA private key: its last two quarters.
pub open spec fn slh192s_public_of(secret: Seq<u8>) -> Seq<u8> {
    secret.subrange(48, 96)
}

/// `sha2::Sha384::digest`: the 48-byte SHA-384 digest of `msg`.
#[verifier::external_body]
pub(crate) fn sha384(msg: &[u8]) -> (d: Vec<u8>)
    ensures
        d@ == sha384_digest(msg@),
        d@.len() == SHA384_LEN,
{
    sha2::Sha384::digest(msg).to_vec()
}

/// `rand_core::OsRng::try_fill_bytes`: `n` bytes from the operating system's generator,
/// or `None` when the generator fails. Nothing is stated of the bytes but their number.
#[verifier::external_body]
pub(crate) fn random_bytes(n: usize) -> (r: Option<Vec<u8>>)
    ensures
        r matches Some(b) ==> b@.len() == n,
{
    let mut buf = vec![0u8; n];
    match rand_core::OsRng.try_fill_bytes(&mut buf) {
        Ok(()) => Some(buf),
        Err(_) => None,
    }
}

/// `ml_dsa::SigningKey::<MlDsa65>::from_seed`, then the encoding of its verifying key.
#[verifier::external_body]
pub(crate) fn mldsa65_public(seed: &[u8]) -> (pk: Vec<u8>)
    requires
        seed@.len() == MLDSA65_SEED_LEN,
    ensures
        pk@ == mldsa65_public_key(seed@),
        pk@.len() == MLDSA65_PUBLIC_LEN,
{
    let seed = ml_dsa::B32::try_from(seed).unwrap();
    let sk = ml_dsa::SigningKey::<ml_dsa::MlDsa65>::from_seed(&seed);
    sk.expanded_key().verifying_key().encode().to_vec()
}

/// `ml_dsa::ExpandedSigningKey::sign_deterministic` with an empty context, for the key
/// generated from `seed`. `None` when the crate reports an error (it documents one for a
/// rejection-sampling loop that finds no signature), which depends on the seed and the
/// message alone. A signature made this way is
/// accepted by verification under the key's public key (FIPS 204 correctness).
#[verifier::external_body]
pub(crate) fn mldsa65_sign(seed: &[u8], msg: &[u8]) -> (r: Option<Vec<u8>>)
    requires
        seed@.len() == MLDSA65_SEED_LEN,
    ensures
        r is Some <==> mldsa65_sign_succeeds(seed@, msg@),
        r matches Some(s) ==> s@ == mldsa65_signature(seed@, msg@) && s@.len() == MLDSA65_SIG_LEN
            && mldsa65_accepts(mldsa65_public_key(seed@), msg@, s@),
{
    let seed = ml_dsa::B32::try_from(seed).unwrap();
    let sk = ml_dsa::SigningKey::<ml_dsa::MlDsa65>::from_seed(&seed);
    match sk.expanded_key().sign_deterministic(msg, &[]) {
        Ok(sig) => Some(sig.encode().to_vec()),
        Err(_) => None,
    }
}

/// `ml_dsa::VerifyingKey::<MlDsa65>::verify_with_context` with an empty context, after
/// decoding the public key and the signature; a signature that does not decode is not
/// accepted.
#[verifier::external_body]
pub(crate) fn mldsa65_verify(public: &[u8], msg: &[u8], sig: &[u8]) -> (ok: bool)
    requires
        public@.len() == MLDSA65_PUBLIC_LEN,
    ensures
        ok == mldsa65_accepts(public@, msg@, sig@),
{
    let enc = ml_dsa::EncodedVerifyingKey::<ml_dsa::MlDsa65>::try_from(public).unwrap();
    let vk = ml_dsa::VerifyingKey::<ml_dsa::MlDsa65>::decode(&enc);
    let decoded = ml_dsa::EncodedSignature::<ml_dsa::MlDsa65>::try_from(sig).ok()
        .and_then(|e| ml_dsa::Signature::<ml_dsa::MlDsa65>::decode(&e));
    match decoded {
        Some(s) => vk.verify_with_context(msg, &[], &s),
        None => false,
    }
}

/// `fips205::slh_dsa_shake_192s::try_keygen`: a fresh private key from the operating
/// system's generator, encoded; `None` when the generator fails. The key's public root is
/// the one its seeds generate, so its encoding decodes again.
#[verifier::external_body]
pub(crate) fn slh192s_keygen() -> (r: Option<Vec<u8>>)
    ensures
        r matches Some(sk) ==> sk@.len() == SLH192S_SECRET_LEN && slh192s_decodes(sk@),
{
    match fips205::slh_dsa_shake_192s::try_keygen() {
        Ok((_, sk)) => Some(sk.into_bytes().to_vec()),
        Err(_) => None,
    }
}

/// `fips205::slh_dsa_shake_192s::PrivateKey::try_sign`, non-hedged, empty context, after
/// decoding the private key; `None` exactly when the key does not decode (non-hedged
/// signing with an empty context reports no error). A
/// signature made this way is accepted by verification under the key's public half
/// (FIPS 205 correctness).
#[verifier::external_body]
pub(crate) fn slh192s_sign(secret: &[u8], msg: &[u8]) -> (r: Option<Vec<u8>>)
    requires
        secret@.len() == SLH192S_SECRET_LEN,
    ensures
        r is Some <==> slh192s_decodes(secret@),
        r matches Some(s) ==> s@ == slh192s_signature(secret@, msg@) && s@.len() == SLH192S_SIG_LEN
            && slh192s_accepts(slh192s_public_of(secret@), msg@, s@),
{
    let bytes: [u8; 96] = secret.try_into().unwrap();
    let sk = fips205::slh_dsa_shake_192s::PrivateKey::try_from_bytes(bytes).ok()?;
    sk.try_sign(msg, &[], false).ok().map(|s| s.to_vec())
}

/// `fips205::slh_dsa_shake_192s::PublicKey::verify` with an empty context, after
/// decoding the public key (every 48-byte array decodes); a signature of the wrong length
/// is not accepted.
#[verifier::external_body]
pub(crate) fn slh192s_verify(public: &[u8], msg: &[u8], sig: &[u8]) -> (ok: bool)
    requires
        public@.len() == SLH192S_PUBLIC_LEN,
    ensures
        ok == slh192s_accepts(public@, msg@, sig@),
{
    let bytes: [u8; 48] = public.try_into().unwrap();
    let pk = fips205::slh_dsa_shake_192s::PublicKey::try_from_bytes(bytes).unwrap();
    match <&[u8; 16224]>::try_from(sig) {
        Ok(s) => pk.verify(msg, s, &[]),
        Err(_) => false,
    }
}

} // verus!
