//! The canonical byte accumulator shared by every signed-content encoding, and the
//! facts about its building blocks that make an encoding unambiguous: a fixed 8-byte
//! big-endian integer and a length-prefixed byte string each determine their value
//! and leave the rest of the stream untouched.
use vstd::prelude::*;
use vstd::utf8::*;
use crate::crypto::{HashAlg, SignatureAlg};

verus! {

/// The fixed 8-byte big-endian encoding of `v`.
pub open spec fn be8(v: u64) -> Seq<u8> {
    seq![
        (v >> 56u64) as u8,
        (v >> 48u64) as u8,
        (v >> 40u64) as u8,
        (v >> 32u64) as u8,
        (v >> 24u64) as u8,
        (v >> 16u64) as u8,
        (v >> 8u64) as u8,
        v as u8,
    ]
}

/// A length-prefixed byte string: the 8-byte big-endian length, then the bytes.
pub open spec fn lp(b: Seq<u8>) -> Seq<u8> {
    be8(b.len() as u64) + b
}

/// The UTF-8 bytes of a string's characters (what `as_bytes` yields).
pub open spec fn utf8(s: Seq<char>) -> Seq<u8> {
    encode_utf8(s)
}

/// A length-prefixed string.
pub open spec fn lps(s: Seq<char>) -> Seq<u8> {
    lp(utf8(s))
}

/// A byte string that can be written with a length prefix.
pub open spec fn fits(b: Seq<u8>) -> bool {
    b.len() <= u64::MAX
}

pub proof fn lemma_be8_injective(a: u64, b: u64)
    requires
        be8(a) == be8(b),
    ensures
        a == b,
{
    assert(be8(a)[0] == be8(b)[0]);
    assert(be8(a)[1] == be8(b)[1]);
    assert(be8(a)[2] == be8(b)[2]);
    assert(be8(a)[3] == be8(b)[3]);
    assert(be8(a)[4] == be8(b)[4]);
    assert(be8(a)[5] == be8(b)[5]);
    assert(be8(a)[6] == be8(b)[6]);
    assert(be8(a)[7] == be8(b)[7]);
    let a0 = (a >> 56u64) as u8;
    let a1 = (a >> 48u64) as u8;
    let a2 = (a >> 40u64) as u8;
    let a3 = (a >> 32u64) as u8;
    let a4 = (a >> 24u64) as u8;
    let a5 = (a >> 16u64) as u8;
    let a6 = (a >> 8u64) as u8;
    let a7 = a as u8;
    assert(a0 == (b >> 56u64) as u8 && a1 == (b >> 48u64) as u8 && a2 == (b >> 40u64) as u8 && a3
        == (b >> 32u64) as u8 && a4 == (b >> 24u64) as u8 && a5 == (b >> 16u64) as u8 && a6 == (b
        >> 8u64) as u8 && a7 == b as u8);
    assert(((a >> 56u64) as u8 == (b >> 56u64) as u8 && (a >> 48u64) as u8 == (b >> 48u64) as u8
        && (a >> 40u64) as u8 == (b >> 40u64) as u8 && (a >> 32u64) as u8 == (b >> 32u64) as u8 && (a
        >> 24u64) as u8 == (b >> 24u64) as u8 && (a >> 16u64) as u8 == (b >> 16u64) as u8 && (a
        >> 8u64) as u8 == (b >> 8u64) as u8 && a as u8 == b as u8) ==> a == b) by (bit_vector);
}

/// Two streams that begin with a fixed-width integer agree only if the integers and the
/// remainders agree.
pub proof fn lemma_be8_prefix(a: u64, b: u64, x: Seq<u8>, y: Seq<u8>)
    requires
        be8(a) + x == be8(b) + y,
    ensures
        a == b,
        x == y,
{
    let l = be8(a) + x;
    let r = be8(b) + y;
    assert(l.subrange(0, 8) =~= be8(a));
    assert(r.subrange(0, 8) =~= be8(b));
    lemma_be8_injective(a, b);
    assert(l.subrange(8, l.len() as int) =~= x);
    assert(r.subrange(8, r.len() as int) =~= y);
}

/// Two streams that begin with a one-byte tag agree only if the tags and the remainders
/// agree.
pub proof fn lemma_u8_prefix(a: u8, b: u8, x: Seq<u8>, y: Seq<u8>)
    requires
        seq![a] + x == seq![b] + y,
    ensures
        a == b,
        x == y,
{
    let l = seq![a] + x;
    let r = seq![b] + y;
    assert(l[0] == a);
    assert(r[0] == b);
    assert(l.subrange(1, l.len() as int) =~= x);
    assert(r.subrange(1, r.len() as int) =~= y);
}

/// Two streams that begin with a length-prefixed byte string agree only if the strings
/// and the remainders agree: the prefix bounds the string, so no delimiter can be spoofed.
pub proof fn lemma_lp_prefix(a: Seq<u8>, b: Seq<u8>, x: Seq<u8>, y: Seq<u8>)
    requires
        fits(a),
        fits(b),
        lp(a) + x == lp(b) + y,
    ensures
        a == b,
        x == y,
{
    assert(lp(a) + x =~= be8(a.len() as u64) + (a + x));
    assert(lp(b) + y =~= be8(b.len() as u64) + (b + y));
    lemma_be8_prefix(a.len() as u64, b.len() as u64, a + x, b + y);
    assert(a.len() == b.len());
    let l = a + x;
    let r = b + y;
    assert(l.subrange(0, a.len() as int) =~= a);
    assert(r.subrange(0, b.len() as int) =~= b);
    assert(l.subrange(a.len() as int, l.len() as int) =~= x);
    assert(r.subrange(b.len() as int, r.len() as int) =~= y);
}

/// Two streams that begin with a length-prefixed string agree only if the strings and
/// the remainders agree.
pub proof fn lemma_lps_prefix(a: Seq<char>, b: Seq<char>, x: Seq<u8>, y: Seq<u8>)
    requires
        fits(utf8(a)),
        fits(utf8(b)),
        lps(a) + x == lps(b) + y,
    ensures
        a == b,
        x == y,
{
    lemma_lp_prefix(utf8(a), utf8(b), x, y);
    lemma_utf8_injective(a, b);
}

/// Regrouping a concatenation of eight parts to the right.
pub proof fn lemma_assoc8(
    p0: Seq<u8>,
    p1: Seq<u8>,
    p2: Seq<u8>,
    p3: Seq<u8>,
    p4: Seq<u8>,
    p5: Seq<u8>,
    p6: Seq<u8>,
    p7: Seq<u8>,
)
    ensures
        p0 + p1 + p2 + p3 + p4 + p5 + p6 + p7 == p0 + (p1 + (p2 + (p3 + (p4 + (p5 + (p6 + p7)))))),
{
    assert(p0 + p1 + p2 + p3 + p4 + p5 + p6 + p7 =~= p0 + (p1 + (p2 + (p3 + (p4 + (p5 + (p6
        + p7)))))));
}

/// Two streams that begin with different ASCII domain tags never agree, whatever follows
/// the tags.
pub proof fn lemma_domain_separated(d1: Seq<char>, d2: Seq<char>, x: Seq<u8>, y: Seq<u8>)
    requires
        is_ascii_chars(d1),
        is_ascii_chars(d2),
        d1.len() <= u64::MAX,
        d2.len() <= u64::MAX,
        d1 != d2,
    ensures
        lps(d1) + x != lps(d2) + y,
{
    is_ascii_chars_encode_utf8(d1);
    is_ascii_chars_encode_utf8(d2);
    if lps(d1) + x == lps(d2) + y {
        lemma_lps_prefix(d1, d2, x, y);
    }
}

/// Two byte strings that begin with different ASCII domain tags, each length-prefixed,
/// are different.
pub proof fn lemma_tagged_apart(d1: Seq<char>, d2: Seq<char>, c1: Seq<u8>, c2: Seq<u8>)
    requires
        is_ascii_chars(d1),
        is_ascii_chars(d2),
        d1.len() <= u64::MAX,
        d2.len() <= u64::MAX,
        d1 != d2,
        lps(d1).len() <= c1.len(),
        lps(d2).len() <= c2.len(),
        c1.subrange(0, lps(d1).len() as int) == lps(d1),
        c2.subrange(0, lps(d2).len() as int) == lps(d2),
    ensures
        c1 != c2,
{
    let x = c1.subrange(lps(d1).len() as int, c1.len() as int);
    let y = c2.subrange(lps(d2).len() as int, c2.len() as int);
    assert(c1 =~= lps(d1) + x);
    assert(c2 =~= lps(d2) + y);
    lemma_domain_separated(d1, d2, x, y);
}

/// A common prefix cancels.
pub proof fn lemma_same_prefix(p: Seq<u8>, x: Seq<u8>, y: Seq<u8>)
    requires
        p + x == p + y,
    ensures
        x == y,
{
    assert((p + x).subrange(p.len() as int, (p + x).len() as int) =~= x);
    assert((p + y).subrange(p.len() as int, (p + y).len() as int) =~= y);
}

/// Distinct strings have distinct UTF-8 encodings.
pub proof fn lemma_utf8_injective(a: Seq<char>, b: Seq<char>)
    requires
        utf8(a) == utf8(b),
    ensures
        a == b,
{
    encode_utf8_decode_utf8(a);
    encode_utf8_decode_utf8(b);
}

/// A canonical byte accumulator. All variable-length data is length-prefixed with a
/// fixed 8-byte big-endian count. Byte composition, not a digest.
pub struct Canon {
    pub buf: Vec<u8>,
}

impl Canon {
    pub fn new() -> (c: Self)
        ensures
            c.buf@ == Seq::<u8>::empty(),
    {
        Canon { buf: Vec::new() }
    }

    /// A fixed 8-byte big-endian integer.
    pub fn put_u64(&mut self, v: u64)
        ensures
            final(self).buf@ == old(self).buf@ + be8(v),
    {
        self.buf.push((v >> 56u64) as u8);
        self.buf.push((v >> 48u64) as u8);
        self.buf.push((v >> 40u64) as u8);
        self.buf.push((v >> 32u64) as u8);
        self.buf.push((v >> 24u64) as u8);
        self.buf.push((v >> 16u64) as u8);
        self.buf.push((v >> 8u64) as u8);
        self.buf.push(v as u8);
        assert(self.buf@ =~= old(self).buf@ + be8(v));
    }

    /// A single tag byte.
    pub fn put_u8(&mut self, v: u8)
        ensures
            final(self).buf@ == old(self).buf@ + seq![v],
    {
        self.buf.push(v);
    }

    /// Raw bytes, with no prefix.
    pub fn put_raw(&mut self, b: &[u8])
        ensures
            final(self).buf@ == old(self).buf@ + b@,
    {
        let ghost start = self.buf@;
        let mut i: usize = 0;
        while i < b.len()
            invariant
                0 <= i <= b@.len(),
                self.buf@ == start + b@.subrange(0, i as int),
            decreases b@.len() - i,
        {
            self.buf.push(b[i]);
            assert(b@.subrange(0, i + 1) =~= b@.subrange(0, i as int).push(b@[i as int]));
            i = i + 1;
        }
        assert(b@.subrange(0, b@.len() as int) =~= b@);
    }

    /// A length-prefixed byte string: 8-byte big-endian length, then the bytes.
    pub fn put_bytes(&mut self, b: &[u8])
        ensures
            final(self).buf@ == old(self).buf@ + lp(b@),
    {
        self.put_u64(b.len() as u64);
        self.put_raw(b);
        assert(final(self).buf@ =~= old(self).buf@ + lp(b@));
    }

    /// A length-prefixed string (its UTF-8 bytes).
    pub fn put_str(&mut self, s: &str)
        ensures
            final(self).buf@ == old(self).buf@ + lps(s@),
    {
        let b = s.as_bytes();
        self.put_bytes(b);
    }

    /// A counted list of strings, each length-prefixed.
    pub fn put_str_list<T: crate::sset::Named>(&mut self, items: &Vec<T>)
        ensures
            final(self).buf@ == old(self).buf@ + lps_list(crate::sset::texts(items@)),
    {
        let ghost names = crate::sset::texts(items@);
        let ghost start = self.buf@;
        self.put_u64(items.len() as u64);
        let mut i: usize = 0;
        while i < items.len()
            invariant
                0 <= i <= items@.len(),
                names == crate::sset::texts(items@),
                self.buf@ == start + be8(items@.len() as u64) + lps_all(names.subrange(0, i as int)),
            decreases items@.len() - i,
        {
            self.put_str(items[i].as_text());
            assert(names.subrange(0, i + 1).drop_last() =~= names.subrange(0, i as int));
            assert(names.subrange(0, i + 1).last() == names[i as int]);
            i = i + 1;
        }
        assert(names.subrange(0, items@.len() as int) =~= names);
        assert(self.buf@ =~= start + lps_list(names));
    }

    pub fn finish(self) -> (out: Vec<u8>)
        ensures
            out@ == self.buf@,
    {
        self.buf
    }
}

/// The concatenation of the length-prefixed encodings of a list of strings.
pub open spec fn lps_all(s: Seq<Seq<char>>) -> Seq<u8>
    decreases s.len(),
{
    if s.len() == 0 {
        Seq::empty()
    } else {
        lps_all(s.drop_last()) + lps(s.last())
    }
}

/// A counted list of strings: the 8-byte count, then each string length-prefixed.
pub open spec fn lps_list(s: Seq<Seq<char>>) -> Seq<u8> {
    be8(s.len() as u64) + lps_all(s)
}

/// Every string of a list, and the list itself, can be written with length prefixes.
pub open spec fn all_fit(s: Seq<Seq<char>>) -> bool {
    &&& s.len() <= u64::MAX
    &&& forall|i: int| 0 <= i < s.len() ==> fits(#[trigger] utf8(s[i]))
}

/// Read from the front, a list's encoding is its first string's, then the rest's.
pub proof fn lemma_lps_all_front(s: Seq<Seq<char>>)
    requires
        s.len() > 0,
    ensures
        lps_all(s) == lps(s[0]) + lps_all(s.drop_first()),
    decreases s.len(),
{
    if s.len() == 1 {
        assert(s.drop_last() =~= Seq::<Seq<char>>::empty());
        assert(s.drop_first() =~= Seq::<Seq<char>>::empty());
        assert(lps_all(s.drop_last()) == Seq::<u8>::empty());
        assert(s.last() == s[0]);
        assert(lps_all(s) =~= lps(s[0]));
        assert(lps_all(s.drop_first()) == Seq::<u8>::empty());
        assert(lps_all(s) =~= lps(s[0]) + lps_all(s.drop_first()));
    } else {
        let d = s.drop_last();
        lemma_lps_all_front(d);
        assert(d.drop_first() =~= s.drop_first().drop_last());
        assert(s.drop_first().last() == s.last());
        assert(lps_all(s.drop_first()) == lps_all(s.drop_first().drop_last()) + lps(
            s.drop_first().last(),
        ));
        assert(lps_all(s) =~= lps(s[0]) + lps_all(s.drop_first()));
    }
}

/// Two streams that begin with the encodings of equally long string lists agree only if
/// the lists and the remainders agree.
pub proof fn lemma_lps_all_prefix(a: Seq<Seq<char>>, b: Seq<Seq<char>>, x: Seq<u8>, y: Seq<u8>)
    requires
        a.len() == b.len(),
        all_fit(a),
        all_fit(b),
        lps_all(a) + x == lps_all(b) + y,
    ensures
        a == b,
        x == y,
    decreases a.len(),
{
    if a.len() == 0 {
        assert(lps_all(a) + x =~= x);
        assert(lps_all(b) + y =~= y);
        assert(a =~= b);
    } else {
        lemma_lps_all_front(a);
        lemma_lps_all_front(b);
        let a1 = a.drop_first();
        let b1 = b.drop_first();
        assert(lps_all(a) + x =~= lps(a[0]) + (lps_all(a1) + x));
        assert(lps_all(b) + y =~= lps(b[0]) + (lps_all(b1) + y));
        assert(fits(utf8(a[0])));
        assert(fits(utf8(b[0])));
        lemma_lps_prefix(a[0], b[0], lps_all(a1) + x, lps_all(b1) + y);
        assert forall|i: int| 0 <= i < a1.len() implies fits(#[trigger] utf8(a1[i])) by {
            assert(a1[i] == a[i + 1]);
        }
        assert forall|i: int| 0 <= i < b1.len() implies fits(#[trigger] utf8(b1[i])) by {
            assert(b1[i] == b[i + 1]);
        }
        lemma_lps_all_prefix(a1, b1, x, y);
        assert(a =~= seq![a[0]] + a1);
        assert(b =~= seq![b[0]] + b1);
    }
}

/// Two streams that begin with counted string lists agree only if the lists and the
/// remainders agree.
pub proof fn lemma_lps_list_prefix(a: Seq<Seq<char>>, b: Seq<Seq<char>>, x: Seq<u8>, y: Seq<u8>)
    requires
        all_fit(a),
        all_fit(b),
        lps_list(a) + x == lps_list(b) + y,
    ensures
        a == b,
        x == y,
{
    assert(lps_list(a) + x =~= be8(a.len() as u64) + (lps_all(a) + x));
    assert(lps_list(b) + y =~= be8(b.len() as u64) + (lps_all(b) + y));
    lemma_be8_prefix(a.len() as u64, b.len() as u64, lps_all(a) + x, lps_all(b) + y);
    lemma_lps_all_prefix(a, b, x, y);
}

/// The concatenation of an encoding applied to each element of a list.
pub open spec fn enc_each<T>(s: Seq<T>, f: spec_fn(T) -> Seq<u8>) -> Seq<u8>
    decreases s.len(),
{
    if s.len() == 0 {
        Seq::empty()
    } else {
        enc_each(s.drop_last(), f) + f(s.last())
    }
}

/// A counted list: the 8-byte count, then each element's encoding.
pub open spec fn enc_list<T>(s: Seq<T>, f: spec_fn(T) -> Seq<u8>) -> Seq<u8> {
    be8(s.len() as u64) + enc_each(s, f)
}

/// Read from the front, a list's encoding is its first element's, then the rest's.
pub proof fn lemma_enc_each_front<T>(s: Seq<T>, f: spec_fn(T) -> Seq<u8>)
    requires
        s.len() > 0,
    ensures
        enc_each(s, f) == f(s[0]) + enc_each(s.drop_first(), f),
    decreases s.len(),
{
    if s.len() == 1 {
        assert(s.drop_last() =~= Seq::<T>::empty());
        assert(s.drop_first() =~= Seq::<T>::empty());
        assert(enc_each(s, f) =~= f(s[0]) + enc_each(s.drop_first(), f));
    } else {
        let d = s.drop_last();
        lemma_enc_each_front(d, f);
        assert(d.drop_first() =~= s.drop_first().drop_last());
        assert(s.drop_first().last() == s.last());
        assert(enc_each(s, f) =~= f(s[0]) + enc_each(s.drop_first(), f));
    }
}

/// Extending a prefix of a list by one element extends its encoding by that element's.
pub proof fn lemma_enc_each_step<T>(s: Seq<T>, f: spec_fn(T) -> Seq<u8>, i: int)
    requires
        0 <= i < s.len(),
    ensures
        enc_each(s.subrange(0, i + 1), f) == enc_each(s.subrange(0, i), f) + f(s[i]),
{
    assert(s.subrange(0, i + 1).drop_last() =~= s.subrange(0, i));
}

/// The one-byte tag of a hash algorithm.
pub open spec fn hashalg_code(h: HashAlg) -> u8 {
    match h {
        HashAlg::Sha256 => 1,
        HashAlg::Sha384 => 2,
        HashAlg::Sha512 => 3,
        HashAlg::Shake128 => 4,
        HashAlg::Shake256 => 5,
    }
}

/// The one-byte tag of a signature algorithm.
pub open spec fn sigalg_code(s: SignatureAlg) -> u8 {
    match s {
        SignatureAlg::MlDsa44 => 1,
        SignatureAlg::MlDsa65 => 2,
        SignatureAlg::MlDsa87 => 3,
        SignatureAlg::SlhDsaSha2_128s => 4,
        SignatureAlg::SlhDsaSha2_192s => 5,
        SignatureAlg::SlhDsaSha2_256s => 6,
        SignatureAlg::SlhDsaShake128s => 7,
        SignatureAlg::SlhDsaShake192s => 8,
        SignatureAlg::SlhDsaShake256s => 9,
        SignatureAlg::EcdsaP256 => 10,
        SignatureAlg::EcdsaP384 => 11,
        SignatureAlg::RsaPkcs1Sha256 => 12,
    }
}

pub fn hashalg_tag(h: HashAlg) -> (r: u8)
    ensures
        r == hashalg_code(h),
{
    match h {
        HashAlg::Sha256 => 1,
        HashAlg::Sha384 => 2,
        HashAlg::Sha512 => 3,
        HashAlg::Shake128 => 4,
        HashAlg::Shake256 => 5,
    }
}

pub fn sigalg_tag(s: SignatureAlg) -> (r: u8)
    ensures
        r == sigalg_code(s),
{
    match s {
        SignatureAlg::MlDsa44 => 1,
        SignatureAlg::MlDsa65 => 2,
        SignatureAlg::MlDsa87 => 3,
        SignatureAlg::SlhDsaSha2_128s => 4,
        SignatureAlg::SlhDsaSha2_192s => 5,
        SignatureAlg::SlhDsaSha2_256s => 6,
        SignatureAlg::SlhDsaShake128s => 7,
        SignatureAlg::SlhDsaShake192s => 8,
        SignatureAlg::SlhDsaShake256s => 9,
        SignatureAlg::EcdsaP256 => 10,
        SignatureAlg::EcdsaP384 => 11,
        SignatureAlg::RsaPkcs1Sha256 => 12,
    }
}

/// Distinct hash algorithms have distinct tags.
pub proof fn lemma_hashalg_code_injective(a: HashAlg, b: HashAlg)
    requires
        hashalg_code(a) == hashalg_code(b),
    ensures
        a == b,
{
}

/// Distinct signature algorithms have distinct tags.
pub proof fn lemma_sigalg_code_injective(a: SignatureAlg, b: SignatureAlg)
    requires
        sigalg_code(a) == sigalg_code(b),
    ensures
        a == b,
{
}

/// A copy of a byte slice.
pub fn slice_to_vec(s: &[u8]) -> (v: Vec<u8>)
    ensures
        v@ == s@,
{
    let mut v: Vec<u8> = Vec::new();
    let mut i: usize = 0;
    while i < s.len()
        invariant
            0 <= i <= s@.len(),
            v@ == s@.subrange(0, i as int),
        decreases s@.len() - i,
    {
        v.push(s[i]);
        assert(s@.subrange(0, i + 1) =~= s@.subrange(0, i as int).push(s@[i as int]));
        i = i + 1;
    }
    assert(s@.subrange(0, s@.len() as int) =~= s@);
    v
}

/// A copy of the bytes `s[start..end]`.
pub fn slice_range(s: &[u8], start: usize, end: usize) -> (v: Vec<u8>)
    requires
        start <= end <= s@.len(),
    ensures
        v@ == s@.subrange(start as int, end as int),
{
    let mut v: Vec<u8> = Vec::new();
    let mut i: usize = start;
    while i < end
        invariant
            start <= i <= end <= s@.len(),
            v@ == s@.subrange(start as int, i as int),
        decreases end - i,
    {
        v.push(s[i]);
        assert(s@.subrange(start as int, i + 1) =~= s@.subrange(start as int, i as int).push(
            s@[i as int],
        ));
        i = i + 1;
    }
    v
}

/// Byte-wise equality of two slices.
pub fn bytes_eq(a: &[u8], b: &[u8]) -> (r: bool)
    ensures
        r == (a@ == b@),
{
    if a.len() != b.len() {
        return false;
    }
    let mut i: usize = 0;
    while i < a.len()
        invariant
            0 <= i <= a@.len(),
            a@.len() == b@.len(),
            forall|j: int| 0 <= j < i ==> a@[j] == b@[j],
        decreases a@.len() - i,
    {
        if a[i] != b[i] {
            return false;
        }
        i = i + 1;
    }
    assert(a@ =~= b@);
    true
}

} // verus!
