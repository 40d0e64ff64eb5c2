//! Sets of named values kept as strictly sorted vectors, ordered by the UTF-8 bytes of
//! their names (the order of `str`). A sorted vector with no repeats is the one
//! canonical listing of its set: two such vectors with the same members are equal
//! element by element, which is what makes a set's encoding deterministic.
use vstd::prelude::*;
use crate::canon::{utf8, lemma_utf8_injective};

verus! {

/// A value with a textual name: the key by which sets of it are ordered.
pub trait Named: Sized {
    spec fn text(&self) -> Seq<char>;

    fn as_text(&self) -> (r: &str)
        ensures
            r@ == self.text(),
    ;

    fn duplicate(&self) -> (r: Self)
        ensures
            r.text() == self.text(),
    ;
}

/// Lexicographic order on byte strings (a proper prefix comes first).
pub open spec fn lex_lt(a: Seq<u8>, b: Seq<u8>) -> bool
    decreases a.len(),
{
    if b.len() == 0 {
        false
    } else if a.len() == 0 {
        true
    } else if a[0] != b[0] {
        a[0] < b[0]
    } else {
        lex_lt(a.drop_first(), b.drop_first())
    }
}

/// The order on names: by their UTF-8 bytes.
pub open spec fn name_lt(a: Seq<char>, b: Seq<char>) -> bool {
    lex_lt(utf8(a), utf8(b))
}

/// The names of a sequence of values, in order.
pub open spec fn texts<T: Named>(v: Seq<T>) -> Seq<Seq<char>> {
    v.map_values(|x: T| x.text())
}

/// Strictly increasing by name: sorted, and no name twice.
pub open spec fn sorted_strict(s: Seq<Seq<char>>) -> bool {
    forall|i: int, j: int| 0 <= i < j < s.len() ==> name_lt(#[trigger] s[i], #[trigger] s[j])
}

pub proof fn lemma_lex_irreflexive(a: Seq<u8>)
    ensures
        !lex_lt(a, a),
    decreases a.len(),
{
    if a.len() > 0 {
        lemma_lex_irreflexive(a.drop_first());
    }
}

pub proof fn lemma_lex_asymmetric(a: Seq<u8>, b: Seq<u8>)
    requires
        lex_lt(a, b),
    ensures
        !lex_lt(b, a),
        a != b,
    decreases a.len(),
{
    if a.len() > 0 && b.len() > 0 && a[0] == b[0] {
        lemma_lex_asymmetric(a.drop_first(), b.drop_first());
    }
    if a == b {
        lemma_lex_irreflexive(a);
    }
}

pub proof fn lemma_lex_transitive(a: Seq<u8>, b: Seq<u8>, c: Seq<u8>)
    requires
        lex_lt(a, b),
        lex_lt(b, c),
    ensures
        lex_lt(a, c),
    decreases a.len(),
{
    if a.len() > 0 && b.len() > 0 && c.len() > 0 && a[0] == b[0] && b[0] == c[0] {
        lemma_lex_transitive(a.drop_first(), b.drop_first(), c.drop_first());
    }
}

pub proof fn lemma_lex_total(a: Seq<u8>, b: Seq<u8>)
    requires
        a != b,
    ensures
        lex_lt(a, b) || lex_lt(b, a),
    decreases a.len(),
{
    if a.len() == 0 && b.len() == 0 {
        assert(a =~= b);
    }
    if a.len() > 0 && b.len() > 0 && a[0] == b[0] {
        if a.drop_first() == b.drop_first() {
            assert(a =~= seq![a[0]] + a.drop_first());
            assert(b =~= seq![b[0]] + b.drop_first());
        }
        lemma_lex_total(a.drop_first(), b.drop_first());
    }
}

/// Distinct names are ordered one way or the other, never both.
pub proof fn lemma_name_total(a: Seq<char>, b: Seq<char>)
    ensures
        a == b || name_lt(a, b) || name_lt(b, a),
        name_lt(a, b) ==> !name_lt(b, a) && a != b,
{
    if utf8(a) == utf8(b) {
        lemma_utf8_injective(a, b);
    } else {
        lemma_lex_total(utf8(a), utf8(b));
    }
    if name_lt(a, b) {
        lemma_lex_asymmetric(utf8(a), utf8(b));
    }
}

pub proof fn lemma_name_transitive(a: Seq<char>, b: Seq<char>, c: Seq<char>)
    requires
        name_lt(a, b),
        name_lt(b, c),
    ensures
        name_lt(a, c),
{
    lemma_lex_transitive(utf8(a), utf8(b), utf8(c));
}

/// Two strictly sorted listings with the same members are the same listing.
pub proof fn lemma_sorted_unique(s: Seq<Seq<char>>, t: Seq<Seq<char>>)
    requires
        sorted_strict(s),
        sorted_strict(t),
        s.to_set() == t.to_set(),
    ensures
        s == t,
    decreases s.len() + t.len(),
{
    if s.len() == 0 || t.len() == 0 {
        if s.len() > 0 {
            assert(s.to_set().contains(s[0]));
        }
        if t.len() > 0 {
            assert(t.to_set().contains(t[0]));
        }
        assert(s =~= t);
    } else {
        let a = s[0];
        let b = t[0];
        assert(s.to_set().contains(a));
        assert(t.to_set().contains(b));
        assert(t.contains(a));
        assert(s.contains(b));
        let ia = choose|i: int| 0 <= i < t.len() && t[i] == a;
        let ib = choose|i: int| 0 <= i < s.len() && s[i] == b;
        if a != b {
            lemma_name_total(a, b);
            if name_lt(a, b) {
                assert(ia > 0);
                assert(name_lt(t[0], t[ia]));
                lemma_name_total(b, a);
            } else {
                assert(ib > 0);
                assert(name_lt(s[0], s[ib]));
                lemma_name_total(a, b);
            }
        }
        let s2 = s.drop_first();
        let t2 = t.drop_first();
        assert forall|x: Seq<char>| s2.to_set().contains(x) implies t2.to_set().contains(x) by {
            assert(s2.contains(x));
            let k = choose|k: int| 0 <= k < s2.len() && s2[k] == x;
            assert(s[k + 1] == x);
            assert(name_lt(s[0], s[k + 1]));
            lemma_name_total(s[0], x);
            assert(s.to_set().contains(x));
            assert(t.contains(x));
            let m = choose|m: int| 0 <= m < t.len() && t[m] == x;
            assert(m != 0);
            assert(t2[m - 1] == x);
        }
        assert forall|x: Seq<char>| t2.to_set().contains(x) implies s2.to_set().contains(x) by {
            assert(t2.contains(x));
            let k = choose|k: int| 0 <= k < t2.len() && t2[k] == x;
            assert(t[k + 1] == x);
            assert(name_lt(t[0], t[k + 1]));
            lemma_name_total(t[0], x);
            assert(t.to_set().contains(x));
            assert(s.contains(x));
            let m = choose|m: int| 0 <= m < s.len() && s[m] == x;
            assert(m != 0);
            assert(s2[m - 1] == x);
        }
        assert(s2.to_set() =~= t2.to_set());
        lemma_sorted_unique(s2, t2);
        assert(s =~= seq![a] + s2);
        assert(t =~= seq![b] + t2);
    }
}

/// Byte-string order, computed.
pub fn bytes_lt(a: &[u8], b: &[u8]) -> (r: bool)
    ensures
        r == lex_lt(a@, b@),
{
    let mut i: usize = 0;
    assert(a@.skip(0) =~= a@);
    assert(b@.skip(0) =~= b@);
    while i < a.len() && i < b.len()
        invariant
            0 <= i <= a@.len(),
            i <= b@.len(),
            lex_lt(a@, b@) == lex_lt(a@.skip(i as int), b@.skip(i as int)),
        decreases a@.len() - i,
    {
        if a[i] != b[i] {
            assert(a@.skip(i as int)[0] == a@[i as int]);
            assert(b@.skip(i as int)[0] == b@[i as int]);
            return a[i] < b[i];
        }
        assert(a@.skip(i as int).drop_first() =~= a@.skip(i + 1));
        assert(b@.skip(i as int).drop_first() =~= b@.skip(i + 1));
        i = i + 1;
    }
    i < b.len()
}

/// Name order, computed.
pub fn text_lt(a: &str, b: &str) -> (r: bool)
    ensures
        r == name_lt(a@, b@),
{
    bytes_lt(a.as_bytes(), b.as_bytes())
}

/// Name equality, computed.
pub fn text_eq(a: &str, b: &str) -> (r: bool)
    ensures
        r == (a@ == b@),
{
    let r = crate::canon::bytes_eq(a.as_bytes(), b.as_bytes());
    proof {
        if r {
            lemma_utf8_injective(a@, b@);
        }
    }
    r
}

/// Adds a value to a strictly sorted vector, keeping it strictly sorted; a value whose
/// name is already present is dropped.
pub fn sorted_insert<T: Named>(v: &mut Vec<T>, x: T)
    requires
        sorted_strict(texts(old(v)@)),
    ensures
        sorted_strict(texts(final(v)@)),
        texts(final(v)@).to_set() == texts(old(v)@).to_set().insert(x.text()),
{
    let ghost old_t = texts(v@);
    let mut i: usize = 0;
    while i < v.len()
        invariant
            0 <= i <= v@.len(),
            texts(v@) == old_t,
            sorted_strict(old_t),
            forall|k: int| 0 <= k < i ==> name_lt(#[trigger] old_t[k], x.text()),
        ensures
            0 <= i <= v@.len(),
            texts(v@) == old_t,
            forall|k: int| 0 <= k < i ==> name_lt(#[trigger] old_t[k], x.text()),
            i < v@.len() ==> !name_lt(old_t[i as int], x.text()),
        decreases v@.len() - i,
    {
        if !text_lt(v[i].as_text(), x.as_text()) {
            break;
        }
        i = i + 1;
    }
    if i < v.len() && text_eq(v[i].as_text(), x.as_text()) {
        assert(old_t[i as int] == x.text());
        assert(old_t.to_set().insert(x.text()) =~= old_t.to_set());
        return;
    }
    proof {
        if i < v@.len() {
            assert(old_t[i as int] == v@[i as int].text());
            lemma_name_total(old_t[i as int], x.text());
        }
    }
    let ghost xt = x.text();
    v.insert(i, x);
    let ghost new_t = texts(v@);
    assert(new_t =~= old_t.insert(i as int, xt));
    assert forall|a: int, b: int| 0 <= a < b < new_t.len() implies name_lt(
        #[trigger] new_t[a],
        #[trigger] new_t[b],
    ) by {
        if b < i {
        } else if b == i {
        } else if a < i {
            assert(new_t[b] == old_t[b - 1]);
            if b - 1 > i {
                assert(name_lt(old_t[i as int], old_t[b - 1]));
                lemma_name_transitive(xt, old_t[i as int], old_t[b - 1]);
            }
            lemma_name_transitive(old_t[a], xt, old_t[b - 1]);
        } else if a == i {
            if b - 1 > i {
                assert(name_lt(old_t[i as int], old_t[b - 1]));
                lemma_name_transitive(xt, old_t[i as int], old_t[b - 1]);
            }
        } else {
            assert(new_t[a] == old_t[a - 1]);
            assert(new_t[b] == old_t[b - 1]);
        }
    }
    assert forall|y: Seq<char>| new_t.to_set().contains(y) <==> old_t.to_set().insert(
        xt,
    ).contains(y) by {
        if new_t.contains(y) {
            let k = choose|k: int| 0 <= k < new_t.len() && new_t[k] == y;
            if k < i {
                assert(old_t[k] == y);
            } else if k > i {
                assert(old_t[k - 1] == y);
            }
        }
        if old_t.contains(y) {
            let k = choose|k: int| 0 <= k < old_t.len() && old_t[k] == y;
            if k < i {
                assert(new_t[k] == y);
            } else {
                assert(new_t[k + 1] == y);
            }
        }
        if y == xt {
            assert(new_t[i as int] == y);
        }
    }
    assert(new_t.to_set() =~= old_t.to_set().insert(xt));
}

/// The strictly sorted listing of a vector's values (first occurrence of each name).
pub fn sorted_from<T: Named>(items: Vec<T>) -> (r: Vec<T>)
    ensures
        sorted_strict(texts(r@)),
        texts(r@).to_set() == texts(items@).to_set(),
{
    let mut out: Vec<T> = Vec::new();
    let mut rest = items;
    let ghost all = texts(rest@);
    // Items are taken from the back; what is taken plus what remains is everything.
    assert(texts(out@).to_set() =~= Set::<Seq<char>>::empty());
    while rest.len() > 0
        invariant
            sorted_strict(texts(out@)),
            texts(out@).to_set().union(texts(rest@).to_set()) == all.to_set(),
        decreases rest@.len(),
    {
        let ghost before = texts(rest@);
        let x = rest.pop().unwrap();
        proof {
            assert(before =~= texts(rest@).push(x.text()));
            texts(rest@).lemma_push_to_set_commute(x.text());
        }
        sorted_insert(&mut out, x);
    }
    assert(texts(rest@).to_set() =~= Set::<Seq<char>>::empty());
    assert(texts(out@).to_set() =~= all.to_set());
    out
}

/// Whether a sorted vector holds a value of the given name.
pub fn contains_text<T: Named>(v: &Vec<T>, t: &str) -> (r: bool)
    ensures
        r == texts(v@).contains(t@),
{
    let mut i: usize = 0;
    while i < v.len()
        invariant
            0 <= i <= v@.len(),
            forall|k: int| 0 <= k < i ==> (#[trigger] texts(v@)[k]) != t@,
        decreases v@.len() - i,
    {
        if text_eq(v[i].as_text(), t) {
            assert(texts(v@)[i as int] == t@);
            return true;
        }
        i = i + 1;
    }
    false
}

/// Whether every name of `a` is a name of `b`.
pub fn subset_of<T: Named>(a: &Vec<T>, b: &Vec<T>) -> (r: bool)
    ensures
        r == texts(a@).to_set().subset_of(texts(b@).to_set()),
{
    let mut i: usize = 0;
    while i < a.len()
        invariant
            0 <= i <= a@.len(),
            forall|k: int| 0 <= k < i ==> texts(b@).contains(#[trigger] texts(a@)[k]),
        decreases a@.len() - i,
    {
        if !contains_text(b, a[i].as_text()) {
            assert(texts(a@).to_set().contains(texts(a@)[i as int]));
            return false;
        }
        i = i + 1;
    }
    assert forall|x: Seq<char>| texts(a@).to_set().contains(x) implies texts(b@).to_set().contains(
        x,
    ) by {
        let k = choose|k: int| 0 <= k < texts(a@).len() && texts(a@)[k] == x;
    }
    true
}

/// A copy of a vector, value by value.
pub fn duplicate_all<T: Named>(v: &Vec<T>) -> (r: Vec<T>)
    ensures
        texts(r@) == texts(v@),
{
    let mut out: Vec<T> = Vec::new();
    let mut i: usize = 0;
    while i < v.len()
        invariant
            0 <= i <= v@.len(),
            texts(out@) == texts(v@).subrange(0, i as int),
        decreases v@.len() - i,
    {
        let x = v[i].duplicate();
        let ghost before = out@;
        out.push(x);
        assert(out@ == before.push(x));
        assert(texts(out@) =~= texts(before).push(x.text()));
        assert(texts(out@) =~= texts(v@).subrange(0, i + 1));
        i = i + 1;
    }
    assert(texts(v@).subrange(0, v@.len() as int) =~= texts(v@));
    out
}

/// The sorted union of two sorted vectors.
pub fn sorted_union<T: Named>(a: &Vec<T>, b: &Vec<T>) -> (r: Vec<T>)
    requires
        sorted_strict(texts(a@)),
    ensures
        sorted_strict(texts(r@)),
        texts(r@).to_set() == texts(a@).to_set().union(texts(b@).to_set()),
{
    let mut out = duplicate_all(a);
    let mut i: usize = 0;
    while i < b.len()
        invariant
            0 <= i <= b@.len(),
            sorted_strict(texts(out@)),
            texts(out@).to_set() == texts(a@).to_set().union(
                texts(b@).subrange(0, i as int).to_set(),
            ),
        decreases b@.len() - i,
    {
        let x = b[i].duplicate();
        sorted_insert(&mut out, x);
        assert(texts(b@).subrange(0, i + 1) =~= texts(b@).subrange(0, i as int).push(
            texts(b@)[i as int],
        ));
        proof {
            texts(b@).subrange(0, i as int).lemma_push_to_set_commute(texts(b@)[i as int]);
        }
        assert(texts(out@).to_set() =~= texts(a@).to_set().union(
            texts(b@).subrange(0, i + 1).to_set(),
        ));
        i = i + 1;
    }
    assert(texts(b@).subrange(0, b@.len() as int) =~= texts(b@));
    out
}

} // verus!
