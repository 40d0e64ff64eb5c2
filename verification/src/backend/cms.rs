//! The decision that follows a CMS `SignedData` verification: how the verifier's return
//! code is reported, that the certificate which verified is the configured trust anchor
//! (a token embeds its own signer certificate), and that there is content to read.
use vstd::prelude::*;

verus! {

/// An authenticated CMS `SignedData` bundle: its content (a DER `TSTInfo`), the signer's
/// key-type and digest OIDs, and the certificate the signature verified under.
#[derive(Debug, Clone, PartialEq, Eq)]
pub struct VerifiedCms {
    pub content: Vec<u8>,
    pub key_oid: u32,
    pub hash_oid: u32,
    pub used_cert: Vec<u8>,
}

/// Why a CMS verification failed: the bundle did not parse, or it parsed and its signature
/// did not verify against the trust anchor.
#[derive(Debug, Clone, Copy, PartialEq, Eq, Structural)]
pub enum CmsError {
    Malformed,
    SignatureInvalid,
}

/// The verifier's code for an ASN.1 parse error.
pub const ASN_PARSE_E: i32 = -140;

/// The verifier's code for a signature that does not confirm.
pub const ASN_SIG_CONFIRM_E: i32 = -155;

/// The verifier's code for a failed signature verification.
pub const SIG_VERIFY_E: i32 = -229;

/// How a nonzero return code is reported: the two signature codes as `SignatureInvalid`,
/// anything else, recognised or not, as `Malformed` (an unrecognised failure has not shown
/// that a signature was checked and found wrong).
pub open spec fn cms_error_of(rc: i32) -> CmsError {
    if rc == ASN_SIG_CONFIRM_E || rc == SIG_VERIFY_E {
        CmsError::SignatureInvalid
    } else {
        CmsError::Malformed
    }
}

pub fn cms_error_from(rc: i32) -> (e: CmsError)
    ensures
        e == cms_error_of(rc),
{
    if rc == ASN_SIG_CONFIRM_E || rc == SIG_VERIFY_E {
        CmsError::SignatureInvalid
    } else {
        CmsError::Malformed
    }
}

/// The outcome of a verification that returned `rc` and, on success, exposed the content,
/// the two OIDs and the certificate it used: a nonzero code is reported as
/// `cms_error_of` says; a certificate other than the anchor is `SignatureInvalid`; empty
/// content is `Malformed`; otherwise the verified bundle.
pub fn cms_outcome(
    rc: i32,
    content: Vec<u8>,
    key_oid: u32,
    hash_oid: u32,
    used_cert: Vec<u8>,
    anchor: &[u8],
) -> (r: Result<VerifiedCms, CmsError>)
    ensures
        rc != 0 ==> r == Err::<VerifiedCms, CmsError>(cms_error_of(rc)),
        rc == 0 && used_cert@ != anchor@ ==> r == Err::<VerifiedCms, CmsError>(
            CmsError::SignatureInvalid,
        ),
        rc == 0 && used_cert@ == anchor@ && content@.len() == 0 ==> r == Err::<
            VerifiedCms,
            CmsError,
        >(CmsError::Malformed),
        rc == 0 && used_cert@ == anchor@ && content@.len() > 0 ==> (r matches Ok(v) && v.content@
            == content@ && v.key_oid == key_oid && v.hash_oid == hash_oid && v.used_cert@
            == used_cert@),
{
    if rc != 0 {
        return Err(cms_error_from(rc));
    }
    if !crate::canon::bytes_eq(used_cert.as_slice(), anchor) {
        return Err(CmsError::SignatureInvalid);
    }
    if content.len() == 0 {
        return Err(CmsError::Malformed);
    }
    Ok(VerifiedCms { content, key_oid, hash_oid, used_cert })
}

} // verus!
