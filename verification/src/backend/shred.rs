//! Crypto-shredding. A subject owns an ML-KEM-768 key. A fresh AES-256 data key is wrapped
//! under the shared secret of an encapsulation to that key; destroying the subject's key
//! makes every data key wrapped to it unrecoverable, though nothing was deleted anywhere.
use vstd::prelude::*;
use crate::backend::keys::Rng;
use crate::backend::kem::MlKem768;
use crate::backend::seal::{
    GCM_IV_LEN, GCM_TAG_LEN, KEY32_LEN, MLKEM768_CIPHERTEXT_LEN, aes256gcm_decrypt,
    aes256gcm_encrypt, aes256gcm_open, aes256gcm_seal, mlkem768_decapsulation,
    mlkem768_encapsulation,
};
use crate::canon::utf8;
use crate::crypto::CryptoError;

verus! {

/// The associated data every wrap is bound to.
pub open spec fn shred_aad() -> Seq<u8> {
    utf8("brokkr-crypto-shred-v1"@)
}

fn shred_aad_bytes() -> (r: &'static [u8])
    ensures
        r@ == shred_aad(),
        r@.len() <= 0xffff,
{
    let s = "brokkr-crypto-shred-v1";
    proof {
        reveal_strlit("brokkr-crypto-shred-v1");
        vstd::utf8::is_ascii_chars_encode_utf8(s@);
    }
    s.as_bytes()
}

/// The storable wrapped form of a data key: the ML-KEM ciphertext, and the data key sealed
/// under the shared secret.
#[derive(Debug, Clone, PartialEq, Eq)]
pub struct WrappedKey {
    pub kem_ciphertext: Vec<u8>,
    pub wrapped_dk: Vec<u8>,
    pub iv: [u8; 12],
    pub tag: [u8; 16],
}

/// A wrapped key holds a data key for a subject seed: some encapsulation to the seed's key
/// produced its ciphertext, and the data key is sealed, and opens, under that
/// encapsulation's shared secret.
pub open spec fn wraps(seed: Seq<u8>, w: WrappedKey, dk: Seq<u8>) -> bool {
    &&& dk.len() == KEY32_LEN
    &&& exists|m: Seq<u8>|
        #![trigger mlkem768_encapsulation(seed, m)]
        m.len() == KEY32_LEN && w.kem_ciphertext@ == mlkem768_encapsulation(seed, m).0 && (
        w.wrapped_dk@,
        w.tag@,
    ) == aes256gcm_seal(mlkem768_encapsulation(seed, m).1, w.iv@, shred_aad(), dk)
            && aes256gcm_open(
            mlkem768_encapsulation(seed, m).1,
            w.iv@,
            shred_aad(),
            w.wrapped_dk@,
            w.tag@,
        ) == Some(dk)
}

/// What unwrapping gives: nothing once the key is shredded or for a ciphertext of the
/// wrong length; otherwise the plaintext that the decapsulated secret opens, when the tag
/// authenticates it and it is a 32-byte key.
pub open spec fn unwrap_verdict(live: bool, seed: Seq<u8>, w: WrappedKey) -> Result<
    Seq<u8>,
    CryptoError,
> {
    if !live || w.kem_ciphertext@.len() != MLKEM768_CIPHERTEXT_LEN {
        Err(CryptoError::MalformedKey)
    } else if w.wrapped_dk@.len() > 0xffff {
        Err(CryptoError::VerificationFailed)
    } else {
        match aes256gcm_open(
            mlkem768_decapsulation(seed, w.kem_ciphertext@),
            w.iv@,
            shred_aad(),
            w.wrapped_dk@,
            w.tag@,
        ) {
            None => Err(CryptoError::VerificationFailed),
            Some(p) => if p.len() == KEY32_LEN {
                Ok(p)
            } else {
                Err(CryptoError::MalformedKey)
            },
        }
    }
}

/// A 32-byte key from a byte string of that length; `MalformedKey` for any other length.
fn key_from(ss: &[u8]) -> (r: Result<[u8; 32], CryptoError>)
    ensures
        r is Ok <==> ss@.len() == KEY32_LEN,
        r matches Ok(k) ==> k@ == ss@,
        r matches Err(e) ==> e == CryptoError::MalformedKey,
{
    if ss.len() != KEY32_LEN {
        return Err(CryptoError::MalformedKey);
    }
    let mut k = [0u8; 32];
    let mut i: usize = 0;
    while i < 32
        invariant
            0 <= i <= 32,
            ss@.len() == 32,
            forall|j: int| 0 <= j < i ==> k@[j] == ss@[j],
        decreases 32 - i,
    {
        k[i] = ss[i];
        i = i + 1;
    }
    assert(k@ =~= ss@);
    Ok(k)
}

fn array16(b: &[u8]) -> (a: [u8; 16])
    requires
        b@.len() == 16,
    ensures
        a@ == b@,
{
    let mut a = [0u8; 16];
    let mut i: usize = 0;
    while i < 16
        invariant
            0 <= i <= 16,
            b@.len() == 16,
            forall|j: int| 0 <= j < i ==> a@[j] == b@[j],
        decreases 16 - i,
    {
        a[i] = b[i];
        i = i + 1;
    }
    assert(a@ =~= b@);
    a
}

/// A subject's key. Shredding destroys it, and with it every data key wrapped to it.
pub struct SubjectKey {
    kem: MlKem768,
}

impl SubjectKey {
    /// Whether the key still exists (it has not been shredded).
    pub closed spec fn live(&self) -> bool {
        self.kem.live()
    }

    /// The ML-KEM-768 seed while the key lives.
    pub closed spec fn seed_view(&self) -> Seq<u8> {
        self.kem.seed_view()
    }

    /// A fresh key from the operating system's generator; `Backend` when it fails.
    pub fn generate() -> (r: Result<Self, CryptoError>)
        ensures
            r matches Ok(k) ==> k.live(),
            r matches Err(e) ==> e == CryptoError::Backend,
    {
        match MlKem768::generate() {
            Ok(kem) => Ok(SubjectKey { kem }),
            Err(_) => Err(CryptoError::Backend),
        }
    }

    /// Generates a fresh AES-256 data key and wraps it to this subject: the storable wrapped
    /// form, and the data key for immediate use. `Backend` when the generator fails or the
    /// key has been shredded.
    pub fn wrap_new_data_key(&self) -> (r: Result<(WrappedKey, [u8; 32]), CryptoError>)
        ensures
            r matches Ok((w, dk)) ==> self.live() && wraps(self.seed_view(), w, dk@),
            r matches Err(e) ==> e == CryptoError::Backend,
            !self.live() ==> r is Err,
    {
        let rng = match Rng::new() {
            Ok(r) => r,
            Err(_) => {
                return Err(CryptoError::Backend);
            },
        };
        let mut dk = [0u8; 32];
        if rng.fill(&mut dk).is_err() {
            return Err(CryptoError::Backend);
        }
        let (kem_ciphertext, ss) = match self.kem.encapsulate() {
            Ok(p) => p,
            Err(_) => {
                return Err(CryptoError::Backend);
            },
        };
        let ghost m = choose|m: Seq<u8>|
            #![trigger mlkem768_encapsulation(self.seed_view(), m)]
            m.len() == KEY32_LEN && (kem_ciphertext@, ss@) == mlkem768_encapsulation(
                self.seed_view(),
                m,
            );
        let mut iv = [0u8; 12];
        if rng.fill(&mut iv).is_err() {
            return Err(CryptoError::Backend);
        }
        let aad = shred_aad_bytes();
        let (wrapped_dk, tag) = aes256gcm_encrypt(ss.as_slice(), iv.as_slice(), aad, dk.as_slice());
        let w = WrappedKey { kem_ciphertext, wrapped_dk, iv, tag: array16(tag.as_slice()) };
        assert(mlkem768_encapsulation(self.seed_view(), m).0 == w.kem_ciphertext@);
        Ok((w, dk))
    }

    /// Recovers a wrapped data key: `MalformedKey` once shredded, for a ciphertext of the
    /// wrong length, or for a plaintext that is not a 32-byte key; `VerificationFailed` when
    /// the tag does not authenticate under the decapsulated secret.
    pub fn unwrap_data_key(&self, w: &WrappedKey) -> (r: Result<[u8; 32], CryptoError>)
        ensures
            match unwrap_verdict(self.live(), self.seed_view(), *w) {
                Ok(p) => r matches Ok(k) && k@ == p,
                Err(e) => r == Err::<[u8; 32], CryptoError>(e),
            },
    {
        let ss = match self.kem.decapsulate(w.kem_ciphertext.as_slice()) {
            Ok(ss) => ss,
            Err(_) => {
                return Err(CryptoError::MalformedKey);
            },
        };
        if w.wrapped_dk.len() > 0xffff {
            return Err(CryptoError::VerificationFailed);
        }
        let aad = shred_aad_bytes();
        match aes256gcm_decrypt(ss.as_slice(), w.iv.as_slice(), aad, w.wrapped_dk.as_slice(), w.tag.as_slice()) {
            None => Err(CryptoError::VerificationFailed),
            Some(p) => key_from(p.as_slice()),
        }
    }

    /// Destroys the key, irreversibly: afterwards no data key wrapped to it can be
    /// recovered.
    pub fn shred(&mut self)
        ensures
            !final(self).live(),
    {
        self.kem.destroy();
    }
}

/// Crypto-shredding is final: once a subject key is shredded, unwrapping fails for every
/// wrapped key.
pub proof fn lemma_shredded_key_unwraps_nothing(k: SubjectKey, w: WrappedKey)
    requires
        !k.live(),
    ensures
        unwrap_verdict(k.live(), k.seed_view(), w) is Err,
{
}

/// A live subject key unwraps exactly the data key it wrapped, whenever decapsulating the
/// wrapped ciphertext recovers the shared secret that the encapsulation produced (the
/// agreement that ML-KEM provides).
pub proof fn lemma_unwrap_recovers_wrapped(seed: Seq<u8>, w: WrappedKey, dk: Seq<u8>, m: Seq<u8>)
    requires
        dk.len() == KEY32_LEN,
        w.kem_ciphertext@ == mlkem768_encapsulation(seed, m).0,
        w.kem_ciphertext@.len() == MLKEM768_CIPHERTEXT_LEN,
        w.wrapped_dk@.len() == KEY32_LEN,
        aes256gcm_open(mlkem768_encapsulation(seed, m).1, w.iv@, shred_aad(), w.wrapped_dk@, w.tag@)
            == Some(dk),
        mlkem768_decapsulation(seed, w.kem_ciphertext@) == mlkem768_encapsulation(seed, m).1,
    ensures
        unwrap_verdict(true, seed, w) == Ok::<Seq<u8>, CryptoError>(dk),
{
}

} // verus!
