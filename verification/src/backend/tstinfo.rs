//! A minimal DER reader and writer for RFC 3161 timestamp tokens: read the TSTInfo's
//! message imprint and generation time, extract the token from a response whose status
//! is granted, and build a request carrying a SHA-384 digest.
//!
//! The reader is total: every input, however malformed, yields a value or `DerError`,
//! and every length is checked against what remains before it is used.
use vstd::prelude::*;
use vstd::utf8::{decode_utf8, valid_utf8};

verus! {

/// A malformed or unacceptable DER structure.
#[derive(Debug, Clone, Copy, PartialEq, Eq, Structural)]
pub struct DerError;

pub const TAG_INTEGER: u8 = 0x02;
pub const TAG_OCTET_STRING: u8 = 0x04;
pub const TAG_NULL: u8 = 0x05;
pub const TAG_OID: u8 = 0x06;
pub const TAG_BOOLEAN: u8 = 0x01;
pub const TAG_GENERALIZED_TIME: u8 = 0x18;
pub const TAG_SEQUENCE: u8 = 0x30;

/// The DER content bytes of the SHA-384 object identifier (2.16.840.1.101.3.4.2.2).
pub open spec fn oid_sha384() -> Seq<u8> {
    seq![0x60u8, 0x86u8, 0x48u8, 0x01u8, 0x65u8, 0x03u8, 0x04u8, 0x02u8, 0x02u8]
}

/// The SHA-384 object identifier's content bytes.
pub fn oid_sha384_bytes() -> (r: Vec<u8>)
    ensures
        r@ == oid_sha384(),
{
    let r = vec![0x60u8, 0x86u8, 0x48u8, 0x01u8, 0x65u8, 0x03u8, 0x04u8, 0x02u8, 0x02u8];
    assert(r@ =~= oid_sha384());
    r
}

/// The big-endian value of a byte string.
pub open spec fn be_value(b: Seq<u8>) -> nat
    decreases b.len(),
{
    if b.len() == 0 {
        0
    } else {
        be_value(b.drop_last()) * 256 + b.last() as nat
    }
}

/// A DER length read at `pos`: short form (one byte below 0x80), or long form (0x80 | k,
/// then k big-endian bytes, 1 <= k <= 8). The length must not exceed what follows.
/// Gives the length and the position after it.
pub open spec fn read_len(buf: Seq<u8>, pos: int) -> Option<(nat, int)> {
    if pos < 0 || pos >= buf.len() {
        None
    } else if buf[pos] < 0x80 {
        Some((buf[pos] as nat, pos + 1))
    } else {
        let count = buf[pos] - 0x80;
        if count == 0 || count > 8 || pos + 1 + count > buf.len() {
            None
        } else {
            let len = be_value(buf.subrange(pos + 1, pos + 1 + count));
            let next = pos + 1 + count;
            if len > buf.len() - next {
                None
            } else {
                Some((len, next))
            }
        }
    }
}

/// A tag-length-value read at `pos`: the tag, the value's start and length, and the
/// position after it.
pub open spec fn read_tlv(buf: Seq<u8>, pos: int) -> Option<(u8, int, nat, int)> {
    if pos < 0 || pos >= buf.len() {
        None
    } else {
        match read_len(buf, pos + 1) {
            None => None,
            Some((len, start)) => if start + len > buf.len() {
                None
            } else {
                Some((buf[pos], start, len, start + len))
            },
        }
    }
}

/// The value of a TLV with the wanted tag at `pos`, and the position after it.
pub open spec fn read_tagged(buf: Seq<u8>, pos: int, want: u8) -> Option<(Seq<u8>, int)> {
    match read_tlv(buf, pos) {
        None => None,
        Some((tag, start, len, next)) => if tag != want {
            None
        } else {
            Some((buf.subrange(start, start + len), next))
        },
    }
}

/// A reading position over a DER buffer.
pub struct Cursor<'a> {
    buf: &'a [u8],
    pos: usize,
}

impl<'a> Cursor<'a> {
    /// The buffer being read.
    pub closed spec fn data(&self) -> Seq<u8> {
        self.buf@
    }

    /// The reading position.
    pub closed spec fn at(&self) -> int {
        self.pos as int
    }

    pub fn new(buf: &'a [u8]) -> (c: Self)
        ensures
            c.data() == buf@,
            c.at() == 0,
    {
        Cursor { buf, pos: 0 }
    }

    /// How many bytes remain.
    pub fn remaining(&self) -> (r: usize)
        ensures
            r == (if self.at() <= self.data().len() {
                self.data().len() - self.at()
            } else {
                0
            }),
    {
        if self.buf.len() >= self.pos {
            self.buf.len() - self.pos
        } else {
            0
        }
    }

    fn byte(&mut self) -> (r: Result<u8, DerError>)
        ensures
            final(self).data() == old(self).data(),
            old(self).at() < old(self).data().len() ==> r == Ok::<u8, DerError>(
                old(self).data()[old(self).at()],
            ) && final(self).at() == old(self).at() + 1,
            old(self).at() >= old(self).data().len() ==> r is Err,
    {
        if self.pos < self.buf.len() {
            let b = self.buf[self.pos];
            self.pos = self.pos + 1;
            Ok(b)
        } else {
            Err(DerError)
        }
    }

    fn take(&mut self, n: usize) -> (r: Result<&'a [u8], DerError>)
        ensures
            final(self).data() == old(self).data(),
            old(self).at() + n <= old(self).data().len() ==> (r matches Ok(s) && s@
                == old(self).data().subrange(old(self).at(), old(self).at() + n) && final(self).at()
                == old(self).at() + n),
            old(self).at() + n > old(self).data().len() ==> r is Err,
    {
        if self.pos <= self.buf.len() && n <= self.buf.len() - self.pos {
            let start = self.pos;
            self.pos = self.pos + n;
            Ok(slice_sub(self.buf, start, start + n))
        } else {
            Err(DerError)
        }
    }

    fn length(&mut self) -> (r: Result<usize, DerError>)
        ensures
            final(self).data() == old(self).data(),
            match read_len(old(self).data(), old(self).at()) {
                None => r is Err,
                Some((len, next)) => r == Ok::<usize, DerError>(len as usize) && len == r->Ok_0
                    && final(self).at() == next,
            },
    {
        let ghost buf = self.buf@;
        let ghost pos0 = self.pos as int;
        let first = self.byte()?;
        if first < 0x80 {
            return Ok(first as usize);
        }
        let count = (first - 0x80) as usize;
        if count == 0 || count > 8 {
            return Err(DerError);
        }
        let bytes = self.take(count)?;
        let mut len: u64 = 0;
        let mut i: usize = 0;
        while i < count
            invariant
                0 <= i <= count <= 8,
                bytes@.len() == count,
                len as nat == be_value(bytes@.subrange(0, i as int)),
                len < pow256(i as nat),
            decreases count - i,
        {
            assert(bytes@.subrange(0, i + 1).drop_last() =~= bytes@.subrange(0, i as int));
            proof {
                lemma_pow256_bound(i as nat);
            }
            assert(len * 256 + bytes@[i as int] < pow256((i + 1) as nat)) by (nonlinear_arith)
                requires
                    len < pow256(i as nat),
                    pow256((i + 1) as nat) == pow256(i as nat) * 256,
                    bytes@[i as int] < 256,
            ;
            len = len * 256 + bytes[i] as u64;
            i = i + 1;
        }
        assert(bytes@.subrange(0, count as int) =~= bytes@);
        let rem = self.remaining();
        if len > rem as u64 {
            return Err(DerError);
        }
        Ok(len as usize)
    }

    fn tlv(&mut self) -> (r: Result<(u8, &'a [u8]), DerError>)
        ensures
            final(self).data() == old(self).data(),
            match read_tlv(old(self).data(), old(self).at()) {
                None => r is Err,
                Some((tag, start, len, next)) => r matches Ok(p) && p.0 == tag && p.1@
                    == old(self).data().subrange(start, start + len) && final(self).at() == next,
            },
    {
        let tag = self.byte()?;
        let len = self.length()?;
        let v = self.take(len)?;
        Ok((tag, v))
    }

    /// Reads a TLV that must carry the wanted tag, returning its value.
    pub fn tagged(&mut self, want: u8) -> (r: Result<&'a [u8], DerError>)
        ensures
            final(self).data() == old(self).data(),
            match read_tagged(old(self).data(), old(self).at(), want) {
                None => r is Err,
                Some((v, next)) => r matches Ok(s) && s@ == v && final(self).at() == next,
            },
    {
        let (tag, v) = self.tlv()?;
        if tag != want {
            Err(DerError)
        } else {
            Ok(v)
        }
    }

    /// Skips one TLV, whatever its tag.
    pub fn skip(&mut self) -> (r: Result<(), DerError>)
        ensures
            final(self).data() == old(self).data(),
            match read_tlv(old(self).data(), old(self).at()) {
                None => r is Err,
                Some((_, _, _, next)) => r is Ok && final(self).at() == next,
            },
    {
        self.tlv()?;
        Ok(())
    }
}

/// 256 to the power `n`.
pub open spec fn pow256(n: nat) -> nat
    decreases n,
{
    if n == 0 {
        1
    } else {
        pow256((n - 1) as nat) * 256
    }
}

proof fn lemma_pow256_bound(n: nat)
    requires
        n < 8,
    ensures
        pow256(n + 1) <= 0x1_0000_0000_0000_0000,
        pow256(n + 1) == pow256(n) * 256,
    decreases n,
{
    reveal_with_fuel(pow256, 9);
}

/// The bytes `s[start..end]`.
fn slice_sub<'a>(s: &'a [u8], start: usize, end: usize) -> (r: &'a [u8])
    requires
        start <= end <= s@.len(),
    ensures
        r@ == s@.subrange(start as int, end as int),
{
    vstd::slice::slice_subrange(s, start, end)
}

/// `core::str::from_utf8`, the result copied: the string when the bytes are valid UTF-8.
#[verifier::external_body]
fn utf8_string(b: &[u8]) -> (r: Option<String>)
    ensures
        r is Some <==> valid_utf8(b@),
        r matches Some(s) ==> s@ == decode_utf8(b@),
{
    core::str::from_utf8(b).ok().map(|s| s.to_owned())
}

/// The fields of a TSTInfo the reader takes: the imprint algorithm's identifier, the
/// imprint, and the generation time's bytes. The structure is a SEQUENCE of version
/// (INTEGER), policy (OID), messageImprint (SEQUENCE of algorithm SEQUENCE (OID ...) and
/// OCTET STRING), serialNumber (any), genTime (GeneralizedTime).
pub open spec fn tstinfo_fields(der: Seq<u8>) -> Option<(Seq<u8>, Seq<u8>, Seq<u8>)> {
    match read_tagged(der, 0, TAG_SEQUENCE) {
        None => None,
        Some((body, _)) => match read_tagged(body, 0, TAG_INTEGER) {
            None => None,
            Some((_, p1)) => match read_tagged(body, p1, TAG_OID) {
                None => None,
                Some((_, p2)) => match read_tagged(body, p2, TAG_SEQUENCE) {
                    None => None,
                    Some((imprint_seq, p3)) => match read_tagged(imprint_seq, 0, TAG_SEQUENCE) {
                        None => None,
                        Some((alg_seq, q1)) => match read_tagged(alg_seq, 0, TAG_OID) {
                            None => None,
                            Some((oid, _)) => match read_tagged(imprint_seq, q1, TAG_OCTET_STRING) {
                                None => None,
                                Some((imprint, _)) => match read_tlv(body, p3) {
                                    None => None,
                                    Some((_, _, _, p4)) => match read_tagged(
                                        body,
                                        p4,
                                        TAG_GENERALIZED_TIME,
                                    ) {
                                        None => None,
                                        Some((time, _)) => Some((oid, imprint, time)),
                                    },
                                },
                            },
                        },
                    },
                },
            },
        },
    }
}

/// The parts of a timestamp token the library reads.
#[derive(Debug, Clone, PartialEq, Eq)]
pub struct TstInfo {
    pub imprint_alg_oid: Vec<u8>,
    pub imprint: Vec<u8>,
    pub gen_time: String,
}

impl TstInfo {
    /// Whether the imprint was made with SHA-384.
    pub fn imprint_is_sha384(&self) -> (r: bool)
        ensures
            r == (self.imprint_alg_oid@ == oid_sha384()),
    {
        let oid = oid_sha384_bytes();
        crate::canon::bytes_eq(self.imprint_alg_oid.as_slice(), oid.as_slice())
    }
}

/// Reads a TSTInfo. `Ok` exactly when the structure is as `tstinfo_fields` describes and
/// the generation time is valid UTF-8.
pub fn parse_tstinfo(der: &[u8]) -> (r: Result<TstInfo, DerError>)
    ensures
        match tstinfo_fields(der@) {
            None => r is Err,
            Some((oid, imprint, time)) => if valid_utf8(time) {
                r matches Ok(t) && t.imprint_alg_oid@ == oid && t.imprint@ == imprint && t.gen_time@
                    == decode_utf8(time)
            } else {
                r is Err
            },
        },
{
    let mut outer = Cursor::new(der);
    let body = outer.tagged(TAG_SEQUENCE)?;
    let mut c = Cursor::new(body);
    c.tagged(TAG_INTEGER)?;
    c.tagged(TAG_OID)?;
    let imprint_seq = c.tagged(TAG_SEQUENCE)?;
    let mut mi = Cursor::new(imprint_seq);
    let alg_seq = mi.tagged(TAG_SEQUENCE)?;
    let mut alg = Cursor::new(alg_seq);
    let imprint_alg_oid = crate::canon::slice_to_vec(alg.tagged(TAG_OID)?);
    let imprint = crate::canon::slice_to_vec(mi.tagged(TAG_OCTET_STRING)?);
    c.skip()?;
    let gen_time = c.tagged(TAG_GENERALIZED_TIME)?;
    match utf8_string(gen_time) {
        Some(gen_time) => Ok(TstInfo { imprint_alg_oid, imprint, gen_time }),
        None => Err(DerError),
    }
}

/// What `extract_token` reads: the response SEQUENCE, its status SEQUENCE whose first
/// INTEGER is the status, and the TLV after the status (the token).
pub open spec fn token_parts(resp: Seq<u8>) -> Option<(Seq<u8>, u8, Seq<u8>)> {
    match read_tagged(resp, 0, TAG_SEQUENCE) {
        None => None,
        Some((body, _)) => match read_tagged(body, 0, TAG_SEQUENCE) {
            None => None,
            Some((status_info, p1)) => match read_tagged(status_info, 0, TAG_INTEGER) {
                None => None,
                Some((status, _)) => match read_tlv(body, p1) {
                    None => Some((status, 0u8, Seq::empty())),
                    Some((tag, start, len, _)) => Some((status, tag, body.subrange(start, start + len))),
                },
            },
        },
    }
}

/// A status that grants a token: granted (0) or granted with modifications (1).
pub open spec fn status_granted(status: Seq<u8>) -> bool {
    status == seq![0u8] || status == seq![1u8]
}

/// The token of a timestamp response: `Ok` exactly when the response and status parse,
/// the status is granted, and a SEQUENCE follows it; the token is that SEQUENCE,
/// re-encoded.
pub fn extract_token(resp: &[u8]) -> (r: Result<Vec<u8>, DerError>)
    ensures
        match token_parts(resp@) {
            None => r is Err,
            Some((status, tag, value)) => if !status_granted(status) {
                r is Err
            } else {
                match read_tagged(resp@, 0, TAG_SEQUENCE) {
                    None => r is Err,
                    Some((body, _)) => match read_tagged(body, 0, TAG_SEQUENCE) {
                        None => r is Err,
                        Some((_, p1)) => match read_tlv(body, p1) {
                            None => r is Err,
                            Some((t, _, _, _)) => if t != TAG_SEQUENCE {
                                r is Err
                            } else {
                                r matches Ok(tok) && tok@ == tlv_enc(TAG_SEQUENCE, value)
                            },
                        },
                    },
                }
            },
        },
{
    let mut outer = Cursor::new(resp);
    let body = outer.tagged(TAG_SEQUENCE)?;
    let mut c = Cursor::new(body);
    let status_info = c.tagged(TAG_SEQUENCE)?;
    let mut si = Cursor::new(status_info);
    let status = si.tagged(TAG_INTEGER)?;
    let granted = status.len() == 1 && (status[0] == 0 || status[0] == 1);
    proof {
        if status@.len() == 1 {
            if status@[0] == 0 {
                assert(status@ =~= seq![0u8]);
            }
            if status@[0] == 1 {
                assert(status@ =~= seq![1u8]);
            }
        }
    }
    if !granted {
        return Err(DerError);
    }
    let (tag, value) = c.tlv()?;
    if tag != TAG_SEQUENCE {
        return Err(DerError);
    }
    Ok(reencode(tag, value))
}

/// The minimal big-endian bytes of a number (none for zero).
pub open spec fn be_min(n: nat) -> Seq<u8>
    decreases n,
{
    if n == 0 {
        Seq::empty()
    } else {
        be_min(n / 256).push((n % 256) as u8)
    }
}

/// The DER encoding of a length: short form below 0x80, else long form with the minimal
/// big-endian bytes.
pub open spec fn len_enc(len: nat) -> Seq<u8> {
    if len < 0x80 {
        seq![len as u8]
    } else {
        seq![(0x80 + be_min(len).len()) as u8] + be_min(len)
    }
}

/// A TLV: tag, length, value.
pub open spec fn tlv_enc(tag: u8, value: Seq<u8>) -> Seq<u8> {
    seq![tag] + len_enc(value.len()) + value
}

proof fn lemma_be_min_shrinks_k(n: nat, k: nat)
    requires
        n < pow256(k),
    ensures
        be_min(n).len() <= k,
    decreases n,
{
    if n > 0 {
        if k == 0 {
        } else {
            assert(pow256(k) == pow256((k - 1) as nat) * 256);
            assert(n / 256 < pow256((k - 1) as nat)) by (nonlinear_arith)
                requires
                    n < pow256((k - 1) as nat) * 256,
            ;
            lemma_be_min_shrinks_k(n / 256, (k - 1) as nat);
        }
    }
}

fn write_len(out: &mut Vec<u8>, len: usize)
    ensures
        final(out)@ == old(out)@ + len_enc(len as nat),
{
    if len < 0x80 {
        out.push(len as u8);
        return;
    }
    let mut bytes: Vec<u8> = Vec::new();
    let mut n = len;
    while n > 0
        invariant
            be_min(len as nat) == be_min(n as nat) + reversed(bytes@),
        decreases n,
    {
        let ghost before = bytes@;
        bytes.push((n % 256) as u8);
        assert(reversed(bytes@) =~= seq![(n % 256) as u8] + reversed(before)) by {
            assert(bytes@ == before.push((n % 256) as u8));
            lemma_reversed_push(before, (n % 256) as u8);
        }
        assert(be_min(n as nat) == be_min((n / 256) as nat).push((n % 256) as u8));
        n = n / 256;
    }
    assert(be_min(len as nat) =~= reversed(bytes@));
    proof {
        reveal_with_fuel(pow256, 9);
        assert(pow256(8) == 0x1_0000_0000_0000_0000);
        lemma_be_min_shrinks_k(len as nat, 8);
    }
    let k = bytes.len();
    out.push((0x80 + k) as u8);
    let mut j: usize = k;
    let ghost base = out@;
    while j > 0
        invariant
            j <= bytes@.len(),
            out@ == base + reversed(bytes@).subrange(0, (bytes@.len() - j) as int),
        decreases j,
    {
        j = j - 1;
        out.push(bytes[j]);
        assert(reversed(bytes@).subrange(0, (bytes@.len() - j) as int) =~= reversed(bytes@).subrange(
            0,
            (bytes@.len() - j - 1) as int,
        ).push(bytes@[j as int]));
    }
    assert(reversed(bytes@).subrange(0, bytes@.len() as int) =~= reversed(bytes@));
    assert(final(out)@ =~= old(out)@ + len_enc(len as nat));
}

/// A sequence in reverse order.
pub open spec fn reversed(s: Seq<u8>) -> Seq<u8> {
    Seq::new(s.len(), |i: int| s[s.len() - 1 - i])
}

proof fn lemma_reversed_push(s: Seq<u8>, x: u8)
    ensures
        reversed(s.push(x)) =~= seq![x] + reversed(s),
{
}

fn reencode(tag: u8, value: &[u8]) -> (out: Vec<u8>)
    ensures
        out@ == tlv_enc(tag, value@),
{
    let mut out: Vec<u8> = Vec::new();
    out.push(tag);
    write_len(&mut out, value.len());
    extend(&mut out, value);
    assert(out@ =~= tlv_enc(tag, value@));
    out
}

fn extend(out: &mut Vec<u8>, b: &[u8])
    ensures
        final(out)@ == old(out)@ + b@,
{
    let mut i: usize = 0;
    let ghost start = out@;
    while i < b.len()
        invariant
            0 <= i <= b@.len(),
            out@ == start + b@.subrange(0, i as int),
        decreases b@.len() - i,
    {
        out.push(b[i]);
        assert(b@.subrange(0, i + 1) =~= b@.subrange(0, i as int).push(b@[i as int]));
        i = i + 1;
    }
    assert(b@.subrange(0, b@.len() as int) =~= b@);
}

/// The request a client sends: a SEQUENCE of version 1, the message imprint (a SEQUENCE
/// of the SHA-384 algorithm identifier with NULL parameters, and the digest as an OCTET
/// STRING), and certReq TRUE.
pub open spec fn request_spec(digest: Seq<u8>) -> Seq<u8> {
    let alg = tlv_enc(TAG_SEQUENCE, tlv_enc(TAG_OID, oid_sha384()) + seq![TAG_NULL, 0u8]);
    let imprint = tlv_enc(TAG_SEQUENCE, alg + tlv_enc(TAG_OCTET_STRING, digest));
    tlv_enc(TAG_SEQUENCE, seq![TAG_INTEGER, 0x01u8, 0x01u8] + imprint + seq![TAG_BOOLEAN, 0x01u8, 0xffu8])
}

/// The minimal big-endian bytes of a number read back as the number.
proof fn lemma_be_value_be_min(n: nat)
    ensures
        be_value(be_min(n)) == n,
    decreases n,
{
    if n > 0 {
        lemma_be_value_be_min(n / 256);
        let b = be_min(n);
        assert(b.drop_last() == be_min(n / 256));
        assert(b.last() == (n % 256) as u8);
        assert((n / 256) * 256 + n % 256 == n);
    }
}

/// A long-form length takes between one and eight bytes.
proof fn lemma_be_min_long(n: nat)
    requires
        0x80 <= n < 0x1_0000_0000_0000_0000,
    ensures
        1 <= be_min(n).len() <= 8,
{
    reveal_with_fuel(pow256, 9);
    assert(pow256(8) == 0x1_0000_0000_0000_0000);
    lemma_be_min_shrinks_k(n, 8);
    assert(be_min(n).len() == be_min(n / 256).len() + 1);
}

/// An encoded DER length reads back as the length, when that many bytes follow it.
proof fn lemma_read_len_enc(buf: Seq<u8>, pos: int, n: nat)
    requires
        0 <= pos,
        n < 0x1_0000_0000_0000_0000,
        pos + len_enc(n).len() + n <= buf.len(),
        buf.subrange(pos, pos + len_enc(n).len()) == len_enc(n),
    ensures
        read_len(buf, pos) == Some((n, pos + len_enc(n).len())),
{
    let e = len_enc(n);
    assert(buf[pos] == e[0]);
    if n >= 0x80 {
        lemma_be_min_long(n);
        let k = be_min(n).len();
        assert(buf.subrange(pos + 1, pos + 1 + k) =~= be_min(n)) by {
            assert(e.subrange(1, 1 + k as int) =~= be_min(n));
            assert(buf.subrange(pos + 1, pos + 1 + k) =~= buf.subrange(pos, pos + e.len()).subrange(
                1,
                1 + k as int,
            ));
        }
        lemma_be_value_be_min(n);
    }
}

/// A TLV with the wanted tag reads back as its value, and reading goes on after it.
pub proof fn lemma_read_tagged_tlv(buf: Seq<u8>, pos: int, tag: u8, v: Seq<u8>)
    requires
        0 <= pos,
        v.len() < 0x1_0000_0000_0000_0000,
        pos + tlv_enc(tag, v).len() <= buf.len(),
        buf.subrange(pos, pos + tlv_enc(tag, v).len()) == tlv_enc(tag, v),
    ensures
        read_tagged(buf, pos, tag) == Some((v, pos + tlv_enc(tag, v).len())),
{
    let t = tlv_enc(tag, v);
    let l = len_enc(v.len());
    assert(buf[pos] == t[0]);
    assert(buf.subrange(pos + 1, pos + 1 + l.len()) =~= l) by {
        assert(t.subrange(1, 1 + l.len() as int) =~= l);
        assert(buf.subrange(pos + 1, pos + 1 + l.len()) =~= buf.subrange(pos, pos + t.len()).subrange(
            1,
            1 + l.len() as int,
        ));
    }
    lemma_read_len_enc(buf, pos + 1, v.len());
    let start = pos + 1 + l.len();
    assert(buf.subrange(start, start + v.len()) =~= v) by {
        assert(t.subrange(1 + l.len() as int, t.len() as int) =~= v);
        assert(buf.subrange(start, start + v.len()) =~= buf.subrange(pos, pos + t.len()).subrange(
            1 + l.len() as int,
            t.len() as int,
        ));
    }
}

/// What a DER reader finds in a timestamp request: the version, the OID of the imprint's
/// algorithm, and the imprint itself, read TLV by TLV.
pub open spec fn request_read(req: Seq<u8>) -> Option<(Seq<u8>, Seq<u8>, Seq<u8>)> {
    match read_tagged(req, 0, TAG_SEQUENCE) {
        None => None,
        Some((body, _)) => match read_tagged(body, 0, TAG_INTEGER) {
            None => None,
            Some((version, p1)) => match read_tagged(body, p1, TAG_SEQUENCE) {
                None => None,
                Some((mi, _)) => match read_tagged(mi, 0, TAG_SEQUENCE) {
                    None => None,
                    Some((alg, p2)) => match (
                        read_tagged(alg, 0, TAG_OID),
                        read_tagged(mi, p2, TAG_OCTET_STRING),
                    ) {
                        (Some((oid, _)), Some((imprint, _))) => Some((version, oid, imprint)),
                        _ => None,
                    },
                },
            },
        },
    }
}

/// A request reads back through the DER reader: its outer SEQUENCE holds version 1, then
/// the message imprint, whose algorithm identifier names SHA-384 and whose OCTET STRING is
/// exactly the digest given.
pub proof fn lemma_request_reads_back(digest: Seq<u8>)
    requires
        digest.len() <= 0xffff_ffff,
    ensures
        request_read(request_spec(digest)) == Some((seq![0x01u8], oid_sha384(), digest)),
{
    let oid_tlv = tlv_enc(TAG_OID, oid_sha384());
    let alg_body = oid_tlv + seq![TAG_NULL, 0u8];
    let alg = tlv_enc(TAG_SEQUENCE, alg_body);
    let oct = tlv_enc(TAG_OCTET_STRING, digest);
    let mi_body = alg + oct;
    let imprint = tlv_enc(TAG_SEQUENCE, mi_body);
    let version = seq![TAG_INTEGER, 0x01u8, 0x01u8];
    let body = version + imprint + seq![TAG_BOOLEAN, 0x01u8, 0xffu8];
    let req = tlv_enc(TAG_SEQUENCE, body);
    assert(req == request_spec(digest));
    assert(len_enc(oid_sha384().len()).len() == 1);
    assert(len_enc(alg_body.len()).len() == 1);
    assert(len_enc(digest.len()).len() <= 9) by {
        if digest.len() >= 0x80 {
            lemma_be_min_long(digest.len());
        }
    }
    assert(len_enc(mi_body.len()).len() <= 9) by {
        if mi_body.len() >= 0x80 {
            lemma_be_min_long(mi_body.len());
        }
    }
    assert(len_enc(body.len()).len() <= 9) by {
        if body.len() >= 0x80 {
            lemma_be_min_long(body.len());
        }
    }
    assert(req.subrange(0, req.len() as int) =~= req);
    lemma_read_tagged_tlv(req, 0, TAG_SEQUENCE, body);
    assert(tlv_enc(TAG_INTEGER, seq![0x01u8]) =~= version);
    assert(body.subrange(0, 3) =~= tlv_enc(TAG_INTEGER, seq![0x01u8]));
    lemma_read_tagged_tlv(body, 0, TAG_INTEGER, seq![0x01u8]);
    assert(body.subrange(3, 3 + imprint.len() as int) =~= imprint);
    lemma_read_tagged_tlv(body, 3, TAG_SEQUENCE, mi_body);
    assert(mi_body.subrange(0, alg.len() as int) =~= alg);
    lemma_read_tagged_tlv(mi_body, 0, TAG_SEQUENCE, alg_body);
    assert(alg_body.subrange(0, oid_tlv.len() as int) =~= oid_tlv);
    lemma_read_tagged_tlv(alg_body, 0, TAG_OID, oid_sha384());
    assert(mi_body.subrange(alg.len() as int, (alg.len() + oct.len()) as int) =~= oct);
    lemma_read_tagged_tlv(mi_body, alg.len() as int, TAG_OCTET_STRING, digest);
}

/// Builds a timestamp request for a SHA-384 digest.
pub fn build_request(digest: &[u8]) -> (r: Vec<u8>)
    ensures
        r@ == request_spec(digest@),
{
    let oid = oid_sha384_bytes();
    let mut alg: Vec<u8> = Vec::new();
    alg.push(TAG_OID);
    write_len(&mut alg, oid.len());
    extend(&mut alg, oid.as_slice());
    alg.push(TAG_NULL);
    alg.push(0);
    assert(alg@ =~= tlv_enc(TAG_OID, oid_sha384()) + seq![TAG_NULL, 0u8]);
    let mut imprint = reencode(TAG_SEQUENCE, alg.as_slice());
    imprint.push(TAG_OCTET_STRING);
    write_len(&mut imprint, digest.len());
    extend(&mut imprint, digest);
    let imprint = reencode(TAG_SEQUENCE, imprint.as_slice());
    let mut body: Vec<u8> = Vec::new();
    body.push(TAG_INTEGER);
    body.push(0x01);
    body.push(0x01);
    extend(&mut body, imprint.as_slice());
    body.push(TAG_BOOLEAN);
    body.push(0x01);
    body.push(0xff);
    let r = reencode(TAG_SEQUENCE, body.as_slice());
    assert(r@ =~= request_spec(digest@));
    r
}

} // verus!
