//! Canonical byte encodings of the root intent and of chain entries.
//!
//! Every variable-length field is length-prefixed, every list is counted, and the root
//! and entry encodings begin with distinct domain tags, so no two different records
//! encode alike. The signed content of a record is its encoding without its own
//! signature; its full encoding (what the next hop digests) appends the signature.
use vstd::prelude::*;
use crate::canon::{
    Canon, all_fit, be8, fits, hashalg_code, hashalg_tag, lemma_be8_injective, lemma_be8_prefix,
    lemma_hashalg_code_injective, lemma_lp_prefix, lemma_sigalg_code_injective, lemma_u8_prefix,
    lemma_lps_list_prefix, lemma_assoc8, lemma_lps_prefix, lemma_same_prefix, lp, lps, lps_list, sigalg_code,
    sigalg_tag, utf8,
};
use crate::crypto::{Attestation, Digest, DualSignature, HashAlg, Signature};
use crate::ids::{Dap, Nonce, SubjectId, Timestamp};
use crate::intent::{Caveat, IntentChainEntry, IntentScope, InvariantSet, RootIntent};
use crate::sset::texts;

verus! {

/// The domain tag of a root intent's encoding.
pub open spec fn domain_root() -> Seq<char> {
    "brokkr-intent:root:v1"@
}

/// The domain tag of a chain entry's encoding.
pub open spec fn domain_entry() -> Seq<char> {
    "brokkr-intent:entry:v1"@
}

pub open spec fn scope_enc(s: IntentScope) -> Seq<u8> {
    lps_list(s@)
}

pub open spec fn invariants_enc(s: InvariantSet) -> Seq<u8> {
    lps_list(s@)
}

pub open spec fn digest_enc(d: Digest) -> Seq<u8> {
    seq![hashalg_code(d.alg)] + lp(d.bytes@)
}

pub open spec fn signature_enc(s: Signature) -> Seq<u8> {
    seq![sigalg_code(s.alg)] + lp(s.bytes@)
}

pub open spec fn dual_enc(d: DualSignature) -> Seq<u8> {
    signature_enc(d.lattice) + signature_enc(d.hash_based)
}

pub open spec fn attestation_enc(a: Attestation) -> Seq<u8> {
    lps(a.subject.0@) + digest_enc(a.measurements) + be8(a.freshness.0) + dual_enc(a.signatures)
}

/// The signed content of a root intent.
pub closed spec fn root_signed_spec(r: RootIntent) -> Seq<u8> {
    lps(domain_root()) + lps(r.principal.0@) + lps(r.dap.name@) + lps(r.dap.id@) + scope_enc(r.scope)
        + invariants_enc(r.invariants) + be8(r.nonce.0) + be8(r.expiry.0)
}

/// The signed content of a root intent with the given fields.
pub closed spec fn root_signed_of(
    principal: SubjectId,
    dap: Dap,
    scope: IntentScope,
    invariants: InvariantSet,
    nonce: Nonce,
    expiry: Timestamp,
) -> Seq<u8> {
    lps(domain_root()) + lps(principal.0@) + lps(dap.name@) + lps(dap.id@) + scope_enc(scope)
        + invariants_enc(invariants) + be8(nonce.0) + be8(expiry.0)
}

/// A root's signed content is the signed content of its fields.
pub proof fn lemma_root_signed_of(r: RootIntent)
    ensures
        root_signed_spec(r) == root_signed_of(r.principal, r.dap, r.scope, r.invariants, r.nonce, r.expiry),
{
}

/// The full encoding of a root intent: its signed content, then its signature.
pub closed spec fn root_full_spec(r: RootIntent) -> Seq<u8> {
    root_signed_spec(r) + dual_enc(r.signature)
}

/// The signed content of a chain entry.
pub closed spec fn entry_signed_spec(e: IntentChainEntry) -> Seq<u8> {
    lps(domain_entry()) + attestation_enc(e.hop_identity) + digest_enc(e.received_digest)
        + scope_enc(e.emitted_scope) + lps_list(texts(e.added_caveats@)) + invariants_enc(
        e.added_invariants,
    )
}

/// The signed content of an entry with the given fields, the received digest given as its
/// algorithm and bytes.
pub closed spec fn entry_signed_of(
    hop_identity: Attestation,
    received_alg: HashAlg,
    received_bytes: Seq<u8>,
    emitted_scope: IntentScope,
    caveats: Seq<Caveat>,
    invariants: InvariantSet,
) -> Seq<u8> {
    lps(domain_entry()) + attestation_enc(hop_identity) + (seq![hashalg_code(received_alg)] + lp(
        received_bytes,
    )) + scope_enc(emitted_scope) + lps_list(texts(caveats)) + invariants_enc(invariants)
}

/// An entry's signed content is the signed content of its fields.
pub proof fn lemma_entry_signed_of(e: IntentChainEntry)
    ensures
        entry_signed_spec(e) == entry_signed_of(
            e.hop_identity,
            e.received_digest.alg,
            e.received_digest.bytes@,
            e.emitted_scope,
            e.added_caveats@,
            e.added_invariants,
        ),
{
}

/// The full encoding of a chain entry: its signed content, then its signature.
pub closed spec fn entry_full_spec(e: IntentChainEntry) -> Seq<u8> {
    entry_signed_spec(e) + dual_enc(e.signature)
}

/// A root's signed content does not depend on its signature.
pub proof fn lemma_root_signed_ignores_signature(r: RootIntent, s: DualSignature)
    ensures
        root_signed_spec(RootIntent { signature: s, ..r }) == root_signed_spec(r),
{
}

/// An entry's signed content does not depend on its signature.
pub proof fn lemma_entry_signed_ignores_signature(e: IntentChainEntry, s: DualSignature)
    ensures
        entry_signed_spec(IntentChainEntry { signature: s, ..e }) == entry_signed_spec(e),
{
}

/// Every string a root intent carries can be written with a length prefix.
pub open spec fn root_fits(r: RootIntent) -> bool {
    &&& fits(utf8(r.principal.0@))
    &&& fits(utf8(r.dap.name@))
    &&& fits(utf8(r.dap.id@))
    &&& all_fit(r.scope@)
    &&& all_fit(r.invariants@)
}

/// Two root intents with the same signed content agree on everything a signature covers:
/// principal, DAP, scope, invariants, nonce and expiry. The encoding is unambiguous.
pub proof fn lemma_root_signed_injective(a: RootIntent, b: RootIntent)
    requires
        root_fits(a),
        root_fits(b),
        root_signed_spec(a) == root_signed_spec(b),
    ensures
        a.principal.0@ == b.principal.0@,
        a.dap.name@ == b.dap.name@,
        a.dap.id@ == b.dap.id@,
        a.scope@ == b.scope@,
        a.invariants@ == b.invariants@,
        a.nonce == b.nonce,
        a.expiry == b.expiry,
{
    lemma_assoc8(lps(domain_root()), lps(a.principal.0@), lps(a.dap.name@), lps(a.dap.id@), scope_enc(
        a.scope,
    ), invariants_enc(a.invariants), be8(a.nonce.0), be8(a.expiry.0));
    lemma_assoc8(lps(domain_root()), lps(b.principal.0@), lps(b.dap.name@), lps(b.dap.id@), scope_enc(
        b.scope,
    ), invariants_enc(b.invariants), be8(b.nonce.0), be8(b.expiry.0));
    let ta = lps(a.principal.0@) + (lps(a.dap.name@) + (lps(a.dap.id@) + (scope_enc(a.scope) + (
    invariants_enc(a.invariants) + (be8(a.nonce.0) + be8(a.expiry.0))))));
    let tb = lps(b.principal.0@) + (lps(b.dap.name@) + (lps(b.dap.id@) + (scope_enc(b.scope) + (
    invariants_enc(b.invariants) + (be8(b.nonce.0) + be8(b.expiry.0))))));
    lemma_same_prefix(lps(domain_root()), ta, tb);
    let ra = lps(a.dap.name@) + (lps(a.dap.id@) + (scope_enc(a.scope) + (invariants_enc(a.invariants)
        + (be8(a.nonce.0) + be8(a.expiry.0)))));
    let rb = lps(b.dap.name@) + (lps(b.dap.id@) + (scope_enc(b.scope) + (invariants_enc(b.invariants)
        + (be8(b.nonce.0) + be8(b.expiry.0)))));
    lemma_lps_prefix(a.principal.0@, b.principal.0@, ra, rb);
    let qa = lps(a.dap.id@) + (scope_enc(a.scope) + (invariants_enc(a.invariants) + (be8(a.nonce.0)
        + be8(a.expiry.0))));
    let qb = lps(b.dap.id@) + (scope_enc(b.scope) + (invariants_enc(b.invariants) + (be8(b.nonce.0)
        + be8(b.expiry.0))));
    lemma_lps_prefix(a.dap.name@, b.dap.name@, qa, qb);
    let sa = scope_enc(a.scope) + (invariants_enc(a.invariants) + (be8(a.nonce.0) + be8(a.expiry.0)));
    let sb = scope_enc(b.scope) + (invariants_enc(b.invariants) + (be8(b.nonce.0) + be8(b.expiry.0)));
    lemma_lps_prefix(a.dap.id@, b.dap.id@, sa, sb);
    let ia = invariants_enc(a.invariants) + (be8(a.nonce.0) + be8(a.expiry.0));
    let ib = invariants_enc(b.invariants) + (be8(b.nonce.0) + be8(b.expiry.0));
    lemma_lps_list_prefix(a.scope@, b.scope@, ia, ib);
    lemma_lps_list_prefix(a.invariants@, b.invariants@, be8(a.nonce.0) + be8(a.expiry.0), be8(b.nonce.0)
        + be8(b.expiry.0));
    lemma_be8_prefix(a.nonce.0, b.nonce.0, be8(a.expiry.0), be8(b.expiry.0));
    lemma_be8_injective(a.expiry.0, b.expiry.0);
}

/// Two digests agree: same algorithm, same bytes.
pub open spec fn same_digest(a: Digest, b: Digest) -> bool {
    a.alg == b.alg && a.bytes@ == b.bytes@
}

/// Two dual signatures agree: both algorithms and both byte strings.
pub open spec fn same_dual_sig(a: DualSignature, b: DualSignature) -> bool {
    &&& a.lattice.alg == b.lattice.alg
    &&& a.lattice.bytes@ == b.lattice.bytes@
    &&& a.hash_based.alg == b.hash_based.alg
    &&& a.hash_based.bytes@ == b.hash_based.bytes@
}

/// Two attestations agree on subject, measurements, freshness and signatures.
pub open spec fn same_attestation(a: Attestation, b: Attestation) -> bool {
    &&& a.subject.0@ == b.subject.0@
    &&& same_digest(a.measurements, b.measurements)
    &&& a.freshness == b.freshness
    &&& same_dual_sig(a.signatures, b.signatures)
}

/// Every variable-length part of an attestation can be length-prefixed.
pub open spec fn attestation_fits(a: Attestation) -> bool {
    &&& fits(utf8(a.subject.0@))
    &&& fits(a.measurements.bytes@)
    &&& fits(a.signatures.lattice.bytes@)
    &&& fits(a.signatures.hash_based.bytes@)
}

/// Every variable-length part of an entry's signed content can be length-prefixed.
pub open spec fn entry_fits(e: IntentChainEntry) -> bool {
    &&& attestation_fits(e.hop_identity)
    &&& fits(e.received_digest.bytes@)
    &&& all_fit(e.emitted_scope@)
    &&& all_fit(texts(e.added_caveats@))
    &&& all_fit(e.added_invariants@)
}

proof fn lemma_digest_prefix(a: Digest, b: Digest, x: Seq<u8>, y: Seq<u8>)
    requires
        fits(a.bytes@),
        fits(b.bytes@),
        digest_enc(a) + x == digest_enc(b) + y,
    ensures
        same_digest(a, b),
        x == y,
{
    assert(digest_enc(a) + x =~= seq![hashalg_code(a.alg)] + (lp(a.bytes@) + x));
    assert(digest_enc(b) + y =~= seq![hashalg_code(b.alg)] + (lp(b.bytes@) + y));
    lemma_u8_prefix(hashalg_code(a.alg), hashalg_code(b.alg), lp(a.bytes@) + x, lp(b.bytes@) + y);
    lemma_hashalg_code_injective(a.alg, b.alg);
    lemma_lp_prefix(a.bytes@, b.bytes@, x, y);
}

proof fn lemma_signature_prefix(a: Signature, b: Signature, x: Seq<u8>, y: Seq<u8>)
    requires
        fits(a.bytes@),
        fits(b.bytes@),
        signature_enc(a) + x == signature_enc(b) + y,
    ensures
        a.alg == b.alg,
        a.bytes@ == b.bytes@,
        x == y,
{
    assert(signature_enc(a) + x =~= seq![sigalg_code(a.alg)] + (lp(a.bytes@) + x));
    assert(signature_enc(b) + y =~= seq![sigalg_code(b.alg)] + (lp(b.bytes@) + y));
    lemma_u8_prefix(sigalg_code(a.alg), sigalg_code(b.alg), lp(a.bytes@) + x, lp(b.bytes@) + y);
    lemma_sigalg_code_injective(a.alg, b.alg);
    lemma_lp_prefix(a.bytes@, b.bytes@, x, y);
}

proof fn lemma_attestation_prefix(a: Attestation, b: Attestation, x: Seq<u8>, y: Seq<u8>)
    requires
        attestation_fits(a),
        attestation_fits(b),
        attestation_enc(a) + x == attestation_enc(b) + y,
    ensures
        same_attestation(a, b),
        x == y,
{
    let sa = a.signatures;
    let sb = b.signatures;
    let ha = signature_enc(sa.hash_based) + x;
    let hb = signature_enc(sb.hash_based) + y;
    let la = signature_enc(sa.lattice) + ha;
    let lb = signature_enc(sb.lattice) + hb;
    let na = be8(a.freshness.0) + la;
    let nb = be8(b.freshness.0) + lb;
    let ma = digest_enc(a.measurements) + na;
    let mb = digest_enc(b.measurements) + nb;
    assert(attestation_enc(a) + x =~= lps(a.subject.0@) + ma);
    assert(attestation_enc(b) + y =~= lps(b.subject.0@) + mb);
    lemma_lps_prefix(a.subject.0@, b.subject.0@, ma, mb);
    lemma_digest_prefix(a.measurements, b.measurements, na, nb);
    lemma_be8_prefix(a.freshness.0, b.freshness.0, la, lb);
    lemma_signature_prefix(sa.lattice, sb.lattice, ha, hb);
    lemma_signature_prefix(sa.hash_based, sb.hash_based, x, y);
}

/// The entry encoding is unambiguous: two chain entries with the same signed content
/// agree on the hop's attestation, the received digest, the emitted scope, the added
/// caveats and the added invariants.
#[verifier::rlimit(30)]
pub proof fn lemma_entry_signed_injective(a: IntentChainEntry, b: IntentChainEntry)
    requires
        entry_fits(a),
        entry_fits(b),
        entry_signed_spec(a) == entry_signed_spec(b),
    ensures
        same_attestation(a.hop_identity, b.hop_identity),
        same_digest(a.received_digest, b.received_digest),
        a.emitted_scope@ == b.emitted_scope@,
        texts(a.added_caveats@) == texts(b.added_caveats@),
        a.added_invariants@ == b.added_invariants@,
{
    let e = Seq::<u8>::empty();
    let ia = invariants_enc(a.added_invariants) + e;
    let ib = invariants_enc(b.added_invariants) + e;
    let ca = lps_list(texts(a.added_caveats@)) + ia;
    let cb = lps_list(texts(b.added_caveats@)) + ib;
    let sa = scope_enc(a.emitted_scope) + ca;
    let sb = scope_enc(b.emitted_scope) + cb;
    let da = digest_enc(a.received_digest) + sa;
    let db = digest_enc(b.received_digest) + sb;
    let ta = attestation_enc(a.hop_identity) + da;
    let tb = attestation_enc(b.hop_identity) + db;
    assert(entry_signed_spec(a) =~= lps(domain_entry()) + ta);
    assert(entry_signed_spec(b) =~= lps(domain_entry()) + tb);
    lemma_same_prefix(lps(domain_entry()), ta, tb);
    lemma_attestation_prefix(a.hop_identity, b.hop_identity, da, db);
    lemma_digest_prefix(a.received_digest, b.received_digest, sa, sb);
    lemma_lps_list_prefix(a.emitted_scope@, b.emitted_scope@, ca, cb);
    lemma_lps_list_prefix(texts(a.added_caveats@), texts(b.added_caveats@), ia, ib);
    lemma_lps_list_prefix(a.added_invariants@, b.added_invariants@, e, e);
}

pub(crate) fn write_digest(c: &mut Canon, d: &Digest)
    ensures
        final(c).buf@ == old(c).buf@ + digest_enc(*d),
{
    c.put_u8(hashalg_tag(d.alg));
    c.put_bytes(d.bytes.as_slice());
    assert(final(c).buf@ =~= old(c).buf@ + digest_enc(*d));
}

fn write_signature(c: &mut Canon, s: &Signature)
    ensures
        final(c).buf@ == old(c).buf@ + signature_enc(*s),
{
    c.put_u8(sigalg_tag(s.alg));
    c.put_bytes(s.bytes.as_slice());
    assert(final(c).buf@ =~= old(c).buf@ + signature_enc(*s));
}

pub(crate) fn write_dual_signature(c: &mut Canon, d: &DualSignature)
    ensures
        final(c).buf@ == old(c).buf@ + dual_enc(*d),
{
    write_signature(c, &d.lattice);
    write_signature(c, &d.hash_based);
    assert(final(c).buf@ =~= old(c).buf@ + dual_enc(*d));
}

fn write_attestation(c: &mut Canon, a: &Attestation)
    ensures
        final(c).buf@ == old(c).buf@ + attestation_enc(*a),
{
    c.put_str(a.subject.as_str());
    write_digest(c, &a.measurements);
    c.put_u64(a.freshness.0);
    write_dual_signature(c, &a.signatures);
    assert(final(c).buf@ =~= old(c).buf@ + attestation_enc(*a));
}

fn write_root_signed(c: &mut Canon, r: &RootIntent)
    ensures
        final(c).buf@ == old(c).buf@ + root_signed_spec(*r),
{
    c.put_str("brokkr-intent:root:v1");
    c.put_str(r.principal.as_str());
    c.put_str(r.dap.name.as_str());
    c.put_str(r.dap.id.as_str());
    c.put_str_list(r.scope.capabilities());
    c.put_str_list(r.invariants.items());
    c.put_u64(r.nonce.0);
    c.put_u64(r.expiry.0);
    assert(final(c).buf@ =~= old(c).buf@ + root_signed_spec(*r));
}

fn write_entry_signed(c: &mut Canon, e: &IntentChainEntry)
    ensures
        final(c).buf@ == old(c).buf@ + entry_signed_spec(*e),
{
    c.put_str("brokkr-intent:entry:v1");
    write_attestation(c, &e.hop_identity);
    write_digest(c, &e.received_digest);
    c.put_str_list(e.emitted_scope.capabilities());
    c.put_str_list(&e.added_caveats);
    c.put_str_list(e.added_invariants.items());
    assert(final(c).buf@ =~= old(c).buf@ + entry_signed_spec(*e));
}

/// The bytes a root intent's signature covers.
pub fn root_signed_content(r: &RootIntent) -> (out: Vec<u8>)
    ensures
        out@ == root_signed_spec(*r),
{
    let mut c = Canon::new();
    write_root_signed(&mut c, r);
    assert(c.buf@ =~= root_signed_spec(*r));
    c.finish()
}

/// A root intent's full encoding, signature included: what the first hop digests.
pub fn root_full(r: &RootIntent) -> (out: Vec<u8>)
    ensures
        out@ == root_full_spec(*r),
{
    let mut c = Canon::new();
    write_root_signed(&mut c, r);
    write_dual_signature(&mut c, &r.signature);
    assert(c.buf@ =~= root_full_spec(*r));
    c.finish()
}

/// The bytes a chain entry's signature covers.
pub fn entry_signed_content(e: &IntentChainEntry) -> (out: Vec<u8>)
    ensures
        out@ == entry_signed_spec(*e),
{
    let mut c = Canon::new();
    write_entry_signed(&mut c, e);
    assert(c.buf@ =~= entry_signed_spec(*e));
    c.finish()
}

/// A chain entry's full encoding, signature included: what the next hop digests.
pub fn entry_full(e: &IntentChainEntry) -> (out: Vec<u8>)
    ensures
        out@ == entry_full_spec(*e),
{
    let mut c = Canon::new();
    write_entry_signed(&mut c, e);
    write_dual_signature(&mut c, &e.signature);
    assert(c.buf@ =~= entry_full_spec(*e));
    c.finish()
}

} // verus!
