use brokkr::backend::tstinfo::{
    Cursor, DerError, TAG_INTEGER, TAG_OCTET_STRING, TAG_OID, TAG_SEQUENCE, build_request,
    extract_token, oid_sha384_bytes, parse_tstinfo,
};

/// The reader is total: no input panics; malformed input yields `Err`.
#[test]
fn test_a3_reader_is_total_on_malformed_input() {
    for bad in [
        &b""[..],
        &[0x30][..],                   // tag, no length
        &[0x30, 0x80][..],             // indefinite length (BER, not DER)
        &[0x30, 0x7f][..],             // length exceeding the buffer
        &[0x30, 0x03, 0x02, 0x01][..], // truncated inner TLV
        &[0xff; 64][..],
    ] {
        assert!(parse_tstinfo(bad).is_err(), "must reject {bad:?}");
        assert!(extract_token(bad).is_err(), "must reject {bad:?}");
    }
}

/// Walks a request with the reader's own primitives: the imprint encoded is the imprint
/// a reader finds.
fn walk_request(req: &[u8]) -> Result<(Vec<u8>, Vec<u8>), DerError> {
    let mut c = Cursor::new(req);
    let body = c.tagged(TAG_SEQUENCE)?;
    let mut b = Cursor::new(body);
    b.tagged(TAG_INTEGER)?; // version
    let mi = b.tagged(TAG_SEQUENCE)?;
    let mut m = Cursor::new(mi);
    let alg_seq = m.tagged(TAG_SEQUENCE)?;
    let mut a = Cursor::new(alg_seq);
    let oid = a.tagged(TAG_OID)?.to_vec();
    let imprint = m.tagged(TAG_OCTET_STRING)?.to_vec();
    Ok((oid, imprint))
}

#[test]
fn test_a3_request_carries_the_digest_and_sha384_oid() {
    let digest = vec![7u8; 48];
    let req = build_request(&digest);
    assert_eq!(
        walk_request(&req),
        Ok((oid_sha384_bytes(), digest)),
        "the request must carry the SHA-384 OID and exactly the digest given"
    );
}

/// A non-granted status is not a token.
#[test]
fn test_a3_rejected_status_is_not_a_token() {
    // SEQUENCE { SEQUENCE { INTEGER 2 } }: status 2 is a rejection
    let resp = [0x30, 0x05, 0x30, 0x03, 0x02, 0x01, 0x02];
    assert!(extract_token(&resp).is_err());
}
