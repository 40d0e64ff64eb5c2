//! The model-output side of the Ollama backend: JSON string escaping for requests,
//! extraction of one string field from a response, and the strict `TOOL:` / `PATH:`
//! action grammar. The first `TOOL:` line and the first `PATH:` line win; anything else
//! is ignored, and a response with no tool names the tool `unknown`, which a costimulation gate will
//! deny.
use vstd::prelude::*;
use crate::gate::Action;
use crate::ids::ToolId;
use crate::mimir::backend::{BackendError, BackendProposal};
use crate::text::{chars_of, decimal, push_decimal, push_lit, string_of};

verus! {

/// Unicode `White_Space`, the property `char::is_whitespace` tests.
pub open spec fn white_space(c: char) -> bool {
    let u = c as u32;
    (0x09 <= u <= 0x0d) || u == 0x20 || u == 0x85 || u == 0xa0 || u == 0x1680 || (0x2000 <= u
        <= 0x200a) || u == 0x2028 || u == 0x2029 || u == 0x202f || u == 0x205f || u == 0x3000
}

/// Whether a character has the Unicode `White_Space` property, as `char::is_whitespace`
/// tests.
fn is_ws(c: char) -> (r: bool)
    ensures
        r == white_space(c),
{
    let u = c as u32;
    (0x09 <= u && u <= 0x0d) || u == 0x20 || u == 0x85 || u == 0xa0 || u == 0x1680 || (0x2000 <= u
        && u <= 0x200a) || u == 0x2028 || u == 0x2029 || u == 0x202f || u == 0x205f || u == 0x3000
}



/// Whether a number is a Unicode scalar value.
pub open spec fn is_scalar(cp: u32) -> bool {
    cp < 0xd800 || (0xe000 <= cp && cp <= 0x10ffff)
}

/// `char::from_u32`: the character of a scalar value, `None` for any other number.
#[verifier::external_body]
fn char_from_u32(cp: u32) -> (r: Option<char>)
    ensures
        r is Some <==> is_scalar(cp),
        r matches Some(c) ==> c as u32 == cp && c == cp as char,
{
    char::from_u32(cp)
}

// ---------------------------------------------------------------------------------------
// Escaping.
// ---------------------------------------------------------------------------------------

/// The lowercase hexadecimal digit of a value below sixteen.
pub open spec fn hex_digit(d: u32) -> char {
    if d < 10 {
        (('0' as u32) + d) as char
    } else {
        (('a' as u32) + d - 10) as char
    }
}

/// The JSON escape of one character.
pub open spec fn escape_char(c: char) -> Seq<char> {
    if c == '"' {
        seq!['\\', '"']
    } else if c == '\\' {
        seq!['\\', '\\']
    } else if c == '\n' {
        seq!['\\', 'n']
    } else if c == '\r' {
        seq!['\\', 'r']
    } else if c == '\t' {
        seq!['\\', 't']
    } else if (c as u32) < 0x20 {
        seq!['\\', 'u', '0', '0', hex_digit((c as u32) / 16), hex_digit((c as u32) % 16)]
    } else {
        seq![c]
    }
}

/// The JSON escape of a string: each character escaped in turn.
pub open spec fn escape_all(s: Seq<char>) -> Seq<char>
    decreases s.len(),
{
    if s.len() == 0 {
        Seq::empty()
    } else {
        escape_all(s.drop_last()) + escape_char(s.last())
    }
}

fn hex_char(d: u32) -> (c: char)
    requires
        d < 16,
    ensures
        c == hex_digit(d),
{
    let v: [char; 16] = ['0', '1', '2', '3', '4', '5', '6', '7', '8', '9', 'a', 'b', 'c', 'd', 'e', 'f'];
    let c = v[d as usize];
    assert(c == hex_digit(d)) by {
        assert(v@[d as int] == hex_digit(d));
    }
    c
}

fn push_escaped(out: &mut Vec<char>, c: char)
    ensures
        final(out)@ == old(out)@ + escape_char(c),
{
    if c == '"' {
        out.push('\\');
        out.push('"');
    } else if c == '\\' {
        out.push('\\');
        out.push('\\');
    } else if c == '\n' {
        out.push('\\');
        out.push('n');
    } else if c == '\r' {
        out.push('\\');
        out.push('r');
    } else if c == '\t' {
        out.push('\\');
        out.push('t');
    } else if (c as u32) < 0x20 {
        let u = c as u32;
        out.push('\\');
        out.push('u');
        out.push('0');
        out.push('0');
        out.push(hex_char(u / 16));
        out.push(hex_char(u % 16));
    } else {
        out.push(c);
    }
    assert(final(out)@ =~= old(out)@ + escape_char(c));
}

/// Escapes a string for a JSON string literal: quote, backslash, newline, carriage return
/// and tab get their short escapes, other control characters `\u00XX`.
pub fn json_escape(s: &str) -> (r: String)
    ensures
        r@ == escape_all(s@),
{
    let cs = chars_of(s);
    let mut out: Vec<char> = Vec::new();
    let mut i: usize = 0;
    while i < cs.len()
        invariant
            0 <= i <= cs@.len(),
            out@ == escape_all(cs@.subrange(0, i as int)),
        decreases cs@.len() - i,
    {
        push_escaped(&mut out, cs[i]);
        assert(cs@.subrange(0, i + 1).drop_last() =~= cs@.subrange(0, i as int));
        i = i + 1;
    }
    assert(cs@.subrange(0, cs@.len() as int) =~= cs@);
    string_of(out.as_slice())
}

// ---------------------------------------------------------------------------------------
// Field extraction.
// ---------------------------------------------------------------------------------------

/// Whether `pat` occurs in `t` at `i`.
pub open spec fn occurs_at(t: Seq<char>, pat: Seq<char>, i: int) -> bool {
    0 <= i && i + pat.len() <= t.len() && t.subrange(i, i + pat.len()) == pat
}

/// The first occurrence of `pat` in `t` at or after `k`.
pub open spec fn find_from(t: Seq<char>, pat: Seq<char>, k: int) -> Option<int>
    decreases t.len() + 1 - k,
{
    if k < 0 || k + pat.len() > t.len() {
        None
    } else if occurs_at(t, pat, k) {
        Some(k)
    } else {
        find_from(t, pat, k + 1)
    }
}

fn find(t: &Vec<char>, pat: &Vec<char>, from: usize) -> (r: Option<usize>)
    ensures
        match find_from(t@, pat@, from as int) {
            None => r is None,
            Some(i) => r == Some(i as usize),
        },
{
    let mut k: usize = from;
    while k <= t.len() && pat.len() <= t.len() - k
        invariant
            from <= k,
            find_from(t@, pat@, from as int) == find_from(t@, pat@, k as int),
        decreases t@.len() + 1 - k,
    {
        let mut j: usize = 0;
        let mut same = true;
        assert(t@.subrange(k as int, k as int) =~= pat@.subrange(0, 0));
        while j < pat.len()
            invariant
                0 <= j <= pat@.len(),
                k + pat@.len() <= t.len(),
                same == (t@.subrange(k as int, k + j) == pat@.subrange(0, j as int)),
            decreases pat@.len() - j,
        {
            assert(k + j < t@.len());
            let idx = k + j;
            if same && t[idx] != pat[j] {
                same = false;
            }
            proof {
                if same {
                    assert(t@.subrange(k as int, k + j + 1) =~= pat@.subrange(0, j + 1));
                } else {
                    if t@.subrange(k as int, k + j + 1) == pat@.subrange(0, j + 1) {
                        assert(t@.subrange(k as int, k + j) =~= t@.subrange(k as int, k + j + 1).subrange(0, j as int));
                        assert(pat@.subrange(0, j as int) =~= pat@.subrange(0, j + 1).subrange(0, j as int));
                        if t@.subrange(k as int, k + j) == pat@.subrange(0, j as int) {
                            assert(t@[k + j] == t@.subrange(k as int, k + j + 1)[j as int]);
                            assert(pat@[j as int] == pat@.subrange(0, j + 1)[j as int]);
                        }
                    }
                }
            }
            j = j + 1;
        }
        assert(pat@.subrange(0, pat@.len() as int) =~= pat@);
        if same {
            return Some(k);
        }
        assert(pat@.len() > 0) by {
            if pat@.len() == 0 {
                assert(t@.subrange(k as int, k as int) =~= pat@);
            }
        }
        k = k + 1;
    }
    None
}

/// Where the string value after a colon begins: whitespace may precede the opening quote;
/// anything else before it, or no quote at all, means there is no string value.
pub open spec fn value_start(t: Seq<char>, k: int) -> Option<int>
    decreases t.len() - k,
{
    if k < 0 || k >= t.len() {
        None
    } else if t[k] == '"' {
        Some(k + 1)
    } else if !white_space(t[k]) {
        None
    } else {
        value_start(t, k + 1)
    }
}

/// The value of a hexadecimal digit, if the character is one (either case).
pub open spec fn hex_value(c: char) -> Option<u32> {
    if '0' <= c && c <= '9' {
        Some(((c as u32) - ('0' as u32)) as u32)
    } else if 'a' <= c && c <= 'f' {
        Some(((c as u32) - ('a' as u32) + 10) as u32)
    } else if 'A' <= c && c <= 'F' {
        Some(((c as u32) - ('A' as u32) + 10) as u32)
    } else {
        None
    }
}

/// The value of at most four hexadecimal digits, as `u32::from_str_radix(_, 16)` reads
/// them: an optional leading `+`, then at least one digit, every character a digit.
pub open spec fn hex4(h: Seq<char>) -> Option<u32> {
    let d = if h.len() > 0 && h[0] == '+' {
        h.drop_first()
    } else {
        h
    };
    if d.len() == 0 || d.len() > 4 {
        None
    } else {
        hex_digits(d)
    }
}

pub open spec fn hex_digits(d: Seq<char>) -> Option<u32>
    decreases d.len(),
{
    if d.len() == 0 {
        Some(0)
    } else {
        match (hex_digits(d.drop_last()), hex_value(d.last())) {
            (Some(v), Some(x)) => Some((v * 16 + x) as u32),
            _ => None,
        }
    }
}

/// The decoded string value starting at `i` (just after the opening quote), with what has
/// been decoded so far: `None` when the value is not terminated.
pub open spec fn decode_from(b: Seq<char>, i: int, acc: Seq<char>) -> Option<Seq<char>>
    decreases b.len() - i,
{
    if i < 0 || i >= b.len() {
        None
    } else if b[i] == '"' {
        Some(acc)
    } else if b[i] != '\\' {
        decode_from(b, i + 1, acc.push(b[i]))
    } else if i + 1 >= b.len() {
        None
    } else {
        let e = b[i + 1];
        if e == 'u' {
            let end = if i + 6 <= b.len() {
                i + 6
            } else {
                b.len() as int
            };
            let h = b.subrange(i + 2, end);
            match hex4(h) {
                Some(cp) => if is_scalar(cp) {
                    decode_from(b, end, acc.push(cp as char))
                } else {
                    decode_from(b, end, acc)
                },
                None => decode_from(b, end, acc),
            }
        } else {
            decode_from(b, i + 2, acc.push(unescape(e)))
        }
    }
}

/// What a backslash followed by `e` stands for (other than `\u`).
pub open spec fn unescape(e: char) -> char {
    if e == 'n' {
        '\n'
    } else if e == 't' {
        '\t'
    } else if e == 'r' {
        '\r'
    } else if e == 'b' {
        '\u{08}'
    } else if e == 'f' {
        '\u{0c}'
    } else {
        e
    }
}

/// The quoted key of a field.
pub open spec fn quoted(field: Seq<char>) -> Seq<char> {
    seq!['"'] + field + seq!['"']
}

/// The string value of a field in a JSON text: the first occurrence of the quoted key,
/// then the first colon after it, then optional whitespace and an opening quote, then the
/// value decoded up to its closing quote.
pub open spec fn field_value(t: Seq<char>, field: Seq<char>) -> Option<Seq<char>> {
    match find_from(t, quoted(field), 0) {
        None => None,
        Some(k) => match find_from(t, seq![':'], k + quoted(field).len()) {
            None => None,
            Some(c) => match value_start(t, c + 1) {
                None => None,
                Some(s) => decode_from(t, s, Seq::empty()),
            },
        },
    }
}

fn hex4_of(h: &[char]) -> (r: Option<u32>)
    ensures
        r == hex4(h@),
{
    let start: usize = if h.len() > 0 && h[0] == '+' {
        1
    } else {
        0
    };
    let ghost d = if h@.len() > 0 && h@[0] == '+' {
        h@.drop_first()
    } else {
        h@
    };
    assert(d =~= h@.subrange(start as int, h@.len() as int));
    if h.len() - start == 0 || h.len() - start > 4 {
        return None;
    }
    let mut v: u32 = 0;
    let mut i: usize = start;
    while i < h.len()
        invariant
            start <= i <= h@.len(),
            h@.len() - start <= 4,
            d =~= h@.subrange(start as int, h@.len() as int),
            d == (if h@.len() > 0 && h@[0] == '+' {
                h@.drop_first()
            } else {
                h@
            }),
            h@.len() - start >= 1,
            hex_digits(h@.subrange(start as int, i as int)) == Some(v),
            v < pow16((i - start) as nat),
        decreases h@.len() - i,
    {
        let c = h[i];
        let x: u32 = if '0' <= c && c <= '9' {
            (c as u32) - ('0' as u32)
        } else if 'a' <= c && c <= 'f' {
            (c as u32) - ('a' as u32) + 10
        } else if 'A' <= c && c <= 'F' {
            (c as u32) - ('A' as u32) + 10
        } else {
            assert(hex_value(c) is None);
            assert(d[(i - start) as int] == c);
            proof {
                lemma_hex_digits_none(h@.subrange(start as int, h@.len() as int), (i - start) as int);
            }
            return None;
        };
        assert(h@.subrange(start as int, i + 1).drop_last() =~= h@.subrange(start as int, i as int));
        proof {
            reveal_with_fuel(pow16, 5);
        }
        assert(v * 16 + x < pow16((i + 1 - start) as nat)) by (nonlinear_arith)
            requires
                v < pow16((i - start) as nat),
                pow16((i + 1 - start) as nat) == pow16((i - start) as nat) * 16,
                x < 16,
        ;
        v = v * 16 + x;
        i = i + 1;
    }
    assert(h@.subrange(start as int, h@.len() as int) =~= d);
    Some(v)
}

/// Sixteen to the power `n`.
pub open spec fn pow16(n: nat) -> nat
    decreases n,
{
    if n == 0 {
        1
    } else {
        pow16((n - 1) as nat) * 16
    }
}

/// A non-digit at position `k` makes the whole run of digits unreadable.
proof fn lemma_hex_digits_none(d: Seq<char>, k: int)
    requires
        0 <= k < d.len(),
        hex_value(d[k]) is None,
    ensures
        hex_digits(d) is None,
    decreases d.len(),
{
    if k < d.len() - 1 {
        lemma_hex_digits_none(d.drop_last(), k);
    }
}

fn find_char_from(t: &Vec<char>, ch: char, from: usize) -> (r: Option<usize>)
    ensures
        match find_from(t@, seq![ch], from as int) {
            None => r is None,
            Some(i) => r == Some(i as usize),
        },
{
    let pat = vec![ch];
    assert(pat@ =~= seq![ch]);
    find(t, &pat, from)
}

fn value_start_of(t: &Vec<char>, from: usize) -> (r: Option<usize>)
    ensures
        match value_start(t@, from as int) {
            None => r is None,
            Some(i) => r == Some(i as usize),
        },
{
    let mut k = from;
    while k < t.len()
        invariant
            from <= k,
            value_start(t@, from as int) == value_start(t@, k as int),
        decreases t@.len() - k,
    {
        if t[k] == '"' {
            return Some(k + 1);
        }
        if !is_ws(t[k]) {
            return None;
        }
        k = k + 1;
    }
    None
}

fn unescape_char(e: char) -> (r: char)
    ensures
        r == unescape(e),
{
    if e == 'n' {
        '\n'
    } else if e == 't' {
        '\t'
    } else if e == 'r' {
        '\r'
    } else if e == 'b' {
        '\u{08}'
    } else if e == 'f' {
        '\u{0c}'
    } else {
        e
    }
}

fn decode(t: &Vec<char>, start: usize) -> (r: Option<Vec<char>>)
    ensures
        match decode_from(t@, start as int, Seq::empty()) {
            None => r is None,
            Some(v) => r matches Some(out) && out@ == v,
        },
{
    let mut out: Vec<char> = Vec::new();
    let mut i = start;
    while i < t.len()
        invariant
            decode_from(t@, start as int, Seq::empty()) == decode_from(t@, i as int, out@),
        decreases t@.len() - i,
    {
        let c = t[i];
        if c == '"' {
            return Some(out);
        }
        if c != '\\' {
            out.push(c);
            i = i + 1;
        } else {
            if i + 1 >= t.len() {
                return None;
            }
            let e = t[i + 1];
            if e == 'u' {
                let end = if t.len() - i >= 6 {
                    i + 6
                } else {
                    t.len()
                };
                let h = vstd::slice::slice_subrange(t.as_slice(), i + 2, end);
                match hex4_of(h) {
                    Some(cp) => match char_from_u32(cp) {
                        Some(ch) => {
                            assert(ch == cp as char);
                            out.push(ch);
                        },
                        None => {},
                    },
                    None => {},
                }
                i = end;
            } else {
                out.push(unescape_char(e));
                i = i + 2;
            }
        }
    }
    None
}

fn chars_vec(s: &str) -> (v: Vec<char>)
    ensures
        v@ == s@,
{
    chars_of(s)
}

/// The string value of a field in a JSON text, decoded, as `field_value` describes: the
/// first `"field"`, the first colon after it, optional whitespace, the quoted value up to
/// its unescaped closing quote. `None` when any part is missing or the value is cut off.
pub fn json_string_field(text: &str, field: &str) -> (r: Option<String>)
    ensures
        match field_value(text@, field@) {
            None => r is None,
            Some(v) => r matches Some(s) && s@ == v,
        },
{
    let t = chars_vec(text);
    let f = chars_vec(field);
    let mut key: Vec<char> = Vec::new();
    key.push('"');
    let mut i: usize = 0;
    while i < f.len()
        invariant
            0 <= i <= f@.len(),
            key@ == seq!['"'] + f@.subrange(0, i as int),
        decreases f@.len() - i,
    {
        key.push(f[i]);
        assert(f@.subrange(0, i + 1) =~= f@.subrange(0, i as int).push(f@[i as int]));
        i = i + 1;
    }
    key.push('"');
    assert(key@ =~= quoted(field@));
    proof {
        lemma_find_from_bounds(t@, key@, 0);
    }
    let k = find(&t, &key, 0)?;
    assert(find_from(text@, quoted(field@), 0) == Some(k as int));
    proof {
        lemma_find_from_bounds(t@, seq![':'], k + key@.len());
    }
    let c = find_char_from(&t, ':', k + key.len())?;
    assert(find_from(text@, seq![':'], k + quoted(field@).len()) == Some(c as int));
    proof {
        lemma_value_start_bounds(t@, c + 1);
    }
    let s = value_start_of(&t, c + 1)?;
    assert(value_start(text@, c + 1) == Some(s as int));
    match decode(&t, s) {
        Some(v) => Some(string_of(v.as_slice())),
        None => None,
    }
}

/// Read from the front, an escaped string is its first character's escape, then the
/// rest's.
proof fn lemma_escape_all_front(s: Seq<char>)
    requires
        s.len() > 0,
    ensures
        escape_all(s) == escape_char(s[0]) + escape_all(s.drop_first()),
    decreases s.len(),
{
    if s.len() == 1 {
        assert(s.drop_last() =~= Seq::<char>::empty());
        assert(s.drop_first() =~= Seq::<char>::empty());
        assert(escape_all(s.drop_last()) == Seq::<char>::empty());
        assert(escape_all(s.drop_first()) == Seq::<char>::empty());
        assert(s.last() == s[0]);
        assert(escape_all(s) =~= escape_char(s[0]) + escape_all(s.drop_first()));
    } else {
        let d = s.drop_last();
        lemma_escape_all_front(d);
        assert(d.drop_first() =~= s.drop_first().drop_last());
        assert(s.drop_first().last() == s.last());
        assert(escape_all(s.drop_first()) == escape_all(s.drop_first().drop_last()) + escape_char(
            s.drop_first().last(),
        ));
        assert(escape_all(s) =~= escape_char(s[0]) + escape_all(s.drop_first()));
    }
}

/// A hexadecimal digit reads back as its value.
proof fn lemma_hex_digit_value(d: u32)
    requires
        d < 16,
    ensures
        hex_value(hex_digit(d)) == Some(d),
{
    if d < 10 {
        assert((('0' as u32) + d) as char as u32 == ('0' as u32) + d);
    } else {
        assert((('a' as u32) + d - 10) as char as u32 == ('a' as u32) + d - 10);
    }
}

/// Decoding reads one escaped character back: an escape followed by more text decodes to
/// the character, and decoding goes on after it.
proof fn lemma_decode_escaped_char(b: Seq<char>, i: int, acc: Seq<char>, c: char)
    requires
        0 <= i,
        i + escape_char(c).len() < b.len(),
        b.subrange(i, i + escape_char(c).len()) == escape_char(c),
    ensures
        decode_from(b, i, acc) == decode_from(b, i + escape_char(c).len(), acc.push(c)),
{
    let e = escape_char(c);
    assert(b[i] == e[0]);
    if c == '"' || c == '\\' || c == '\n' || c == '\r' || c == '\t' {
        assert(b[i + 1] == e[1]);
    } else if (c as u32) < 0x20 {
        let u = c as u32;
        assert(b[i + 1] == 'u');
        let h = b.subrange(i + 2, i + 6);
        assert(h =~= seq!['0', '0', hex_digit(u / 16), hex_digit(u % 16)]);
        lemma_hex_digit_value(u / 16);
        lemma_hex_digit_value(u % 16);
        assert(hex_value('0') == Some(0u32));
        let h3 = h.drop_last();
        let h2 = h3.drop_last();
        let h1 = h2.drop_last();
        let h0 = h1.drop_last();
        assert(h0 =~= Seq::<char>::empty());
        assert(h1 =~= seq!['0']);
        assert(h2 =~= seq!['0', '0']);
        assert(h3 =~= seq!['0', '0', hex_digit(u / 16)]);
        assert(hex_digits(h0) == Some(0u32));
        assert(hex_digits(h1) == Some(0u32));
        assert(hex_digits(h2) == Some(0u32));
        assert(hex_digits(h3) == Some(u / 16));
        assert(hex_digits(h) == Some(u)) by {
            assert((u / 16) * 16 + u % 16 == u);
        }
        assert(hex4(h) == Some(u));
        assert(is_scalar(u));
        vstd::utf8::char_u32_cast(c, u);
        assert(u as char == c);
    } else {
    }
}

/// Decoding reads an escaped string back: the escape of `p`, followed by a closing quote,
/// decodes to `p`.
proof fn lemma_decode_escaped(b: Seq<char>, i: int, acc: Seq<char>, p: Seq<char>)
    requires
        0 <= i,
        i + escape_all(p).len() < b.len(),
        b.subrange(i, i + escape_all(p).len()) == escape_all(p),
        b[i + escape_all(p).len()] == '"',
    ensures
        decode_from(b, i, acc) == Some(acc + p),
    decreases p.len(),
{
    if p.len() == 0 {
        assert(escape_all(p) == Seq::<char>::empty());
        assert(acc + p =~= acc);
    } else {
        lemma_escape_all_front(p);
        let e0 = escape_char(p[0]);
        let rest = p.drop_first();
        assert(b.subrange(i, i + e0.len()) =~= escape_all(p).subrange(0, e0.len() as int));
        assert(escape_all(p).subrange(0, e0.len() as int) =~= e0);
        lemma_decode_escaped_char(b, i, acc, p[0]);
        let j = i + e0.len();
        assert(b.subrange(j, j + escape_all(rest).len()) =~= escape_all(p).subrange(
            e0.len() as int,
            escape_all(p).len() as int,
        ));
        assert(escape_all(p).subrange(e0.len() as int, escape_all(p).len() as int) =~= escape_all(
            rest,
        ));
        lemma_decode_escaped(b, j, acc.push(p[0]), rest);
        assert(acc.push(p[0]) + rest =~= acc + p);
    }
}

/// A value escaped with `json_escape` is read back exactly by `json_string_field`: in the
/// object `{"field":"<escaped value>"}`, the field's value is the original string.
pub proof fn lemma_json_escape_roundtrip(field: Seq<char>, value: Seq<char>)
    ensures
        field_value(
            seq!['{'] + quoted(field) + seq![':', '"'] + escape_all(value) + seq!['"', '}'],
            field,
        ) == Some(value),
{
    let q = quoted(field);
    let t = seq!['{'] + q + seq![':', '"'] + escape_all(value) + seq!['"', '}'];
    let n: int = q.len() as int;
    assert(!occurs_at(t, q, 0)) by {
        if occurs_at(t, q, 0) {
            assert(t.subrange(0, n as int)[0] == q[0]);
        }
    }
    assert(occurs_at(t, q, 1)) by {
        assert(t.subrange(1, 1 + n) =~= q);
    }
    assert(find_from(t, q, 1) == Some(1int));
    assert(find_from(t, q, 0) == Some(1int));
    let k: int = 1 + n;
    assert(t[k] == ':');
    assert(occurs_at(t, seq![':'], k)) by {
        assert(t.subrange(k, k + 1) =~= seq![':']);
    }
    assert(find_from(t, seq![':'], k) == Some(k));
    assert(t[k + 1] == '"');
    assert(value_start(t, k + 1) == Some(k + 2));
    let s: int = k + 2;
    let ev = escape_all(value);
    assert(t.subrange(s, s + ev.len() as int) =~= ev);
    assert(t[s + ev.len() as int] == '"');
    lemma_decode_escaped(t, s, Seq::empty(), value);
    assert(Seq::<char>::empty() + value =~= value);
}

/// Where a value starts lies within the text.
proof fn lemma_value_start_bounds(t: Seq<char>, k: int)
    ensures
        value_start(t, k) matches Some(i) ==> k < i <= t.len(),
    decreases t.len() - k,
{
    if 0 <= k < t.len() && t[k] != '"' && white_space(t[k]) {
        lemma_value_start_bounds(t, k + 1);
    }
}

/// What is found is within bounds.
pub proof fn lemma_find_from_bounds(t: Seq<char>, pat: Seq<char>, k: int)
    ensures
        find_from(t, pat, k) matches Some(i) ==> k <= i && i + pat.len() <= t.len(),
    decreases t.len() + 1 - k,
{
    if k >= 0 && k + pat.len() <= t.len() && !occurs_at(t, pat, k) {
        lemma_find_from_bounds(t, pat, k + 1);
    }
}

// ---------------------------------------------------------------------------------------
// The action grammar.
// ---------------------------------------------------------------------------------------

/// ASCII lowercase (other characters unchanged).
pub open spec fn ascii_lower(c: char) -> char {
    if 'A' <= c && c <= 'Z' {
        ((c as u32) + 32) as char
    } else {
        c
    }
}

/// The rest of `s` after a prefix matched ignoring ASCII case.
pub open spec fn prefix_ci(s: Seq<char>, p: Seq<char>) -> Option<Seq<char>> {
    if s.len() >= p.len() && forall|i: int| 0 <= i < p.len() ==> ascii_lower(#[trigger] s[i]) == ascii_lower(p[i]) {
        Some(s.subrange(p.len() as int, s.len() as int))
    } else {
        None
    }
}

/// The characters trimmed: whitespace, or (for `quotes`) the three quote characters.
pub open spec fn trimmed_char(c: char, quotes: bool) -> bool {
    if quotes {
        c == '"' || c == '`' || c == '\''
    } else {
        white_space(c)
    }
}

pub open spec fn strip_start(s: Seq<char>, quotes: bool) -> Seq<char>
    decreases s.len(),
{
    if s.len() > 0 && trimmed_char(s[0], quotes) {
        strip_start(s.drop_first(), quotes)
    } else {
        s
    }
}

pub open spec fn strip_end(s: Seq<char>, quotes: bool) -> Seq<char>
    decreases s.len(),
{
    if s.len() > 0 && trimmed_char(s.last(), quotes) {
        strip_end(s.drop_last(), quotes)
    } else {
        s
    }
}

/// Trimmed at both ends.
pub open spec fn strip(s: Seq<char>, quotes: bool) -> Seq<char> {
    strip_end(strip_start(s, quotes), quotes)
}

/// A value cleaned: trimmed, unquoted, trimmed again.
pub open spec fn clean(s: Seq<char>) -> Seq<char> {
    strip(strip(strip(s, false), true), false)
}

/// A line without a carriage return that ended it.
pub open spec fn strip_cr(l: Seq<char>) -> Seq<char> {
    if l.len() > 0 && l.last() == '\r' {
        l.drop_last()
    } else {
        l
    }
}

/// The lines of a text from `k` on, as `str::lines` splits them: at each newline, a
/// carriage return before it dropped; a final line ending does not start an empty line.
pub open spec fn lines_from(t: Seq<char>, k: int) -> Seq<Seq<char>>
    decreases t.len() - k,
{
    if k < 0 || k >= t.len() {
        Seq::empty()
    } else {
        match find_from(t, seq!['\n'], k) {
            None => seq![t.subrange(k, t.len() as int)],
            Some(e) => {
                proof {
                    lemma_find_from_bounds(t, seq!['\n'], k);
                }
                seq![strip_cr(t.subrange(k, e))] + lines_from(t, e + 1)
            },
        }
    }
}

/// The first tool and first path seen so far.
pub type Scan = (Option<Seq<char>>, Option<Seq<char>>);

/// One line's effect: a `TOOL:` line sets the tool if none is set yet; otherwise a
/// `PATH:` line sets the path if none is set yet.
pub open spec fn scan_line(st: Scan, line: Seq<char>) -> Scan {
    let t = strip(line, false);
    match prefix_ci(t, "TOOL:"@) {
        Some(rest) => (if st.0 is None {
            Some(clean(rest))
        } else {
            st.0
        }, st.1),
        None => match prefix_ci(t, "PATH:"@) {
            Some(rest) => (st.0, if st.1 is None {
                Some(clean(rest))
            } else {
                st.1
            }),
            None => st,
        },
    }
}

pub open spec fn scan_lines(ls: Seq<Seq<char>>, st: Scan) -> Scan
    decreases ls.len(),
{
    if ls.len() == 0 {
        st
    } else {
        scan_lines(ls.drop_first(), scan_line(st, ls[0]))
    }
}

/// The tool a response names: the first `TOOL:` value if it is not empty, else `unknown`.
pub open spec fn action_tool(text: Seq<char>) -> Seq<char> {
    match scan_lines(lines_from(text, 0), (None, None)).0 {
        Some(v) => if v.len() > 0 {
            v
        } else {
            "unknown"@
        },
        None => "unknown"@,
    }
}

/// The path a response names: the first `PATH:` value, or nothing.
pub open spec fn action_detail(text: Seq<char>) -> Seq<char> {
    match scan_lines(lines_from(text, 0), (None, None)).1 {
        Some(v) => v,
        None => Seq::empty(),
    }
}

fn is_trimmed(c: char, quotes: bool) -> (r: bool)
    ensures
        r == trimmed_char(c, quotes),
{
    if quotes {
        c == '"' || c == '`' || c == '\''
    } else {
        is_ws(c)
    }
}

fn strip_range(v: &Vec<char>, a: usize, b: usize, quotes: bool) -> (r: (usize, usize))
    requires
        a <= b <= v@.len(),
    ensures
        r.0 <= r.1 <= v@.len(),
        v@.subrange(r.0 as int, r.1 as int) == strip(v@.subrange(a as int, b as int), quotes),
{
    let mut i = a;
    while i < b && is_trimmed(v[i], quotes)
        invariant
            a <= i <= b <= v@.len(),
            strip_start(v@.subrange(a as int, b as int), quotes) == strip_start(
                v@.subrange(i as int, b as int),
                quotes,
            ),
        decreases b - i,
    {
        assert(v@.subrange(i as int, b as int).drop_first() =~= v@.subrange(i + 1, b as int));
        i = i + 1;
    }
    proof {
        if i < b {
            assert(v@.subrange(i as int, b as int)[0] == v@[i as int]);
        }
    }
    assert(strip_start(v@.subrange(i as int, b as int), quotes) == v@.subrange(i as int, b as int));
    let mut j = b;
    while j > i && is_trimmed(v[j - 1], quotes)
        invariant
            i <= j <= b <= v@.len(),
            strip_end(v@.subrange(i as int, b as int), quotes) == strip_end(
                v@.subrange(i as int, j as int),
                quotes,
            ),
        decreases j - i,
    {
        assert(v@.subrange(i as int, j as int).drop_last() =~= v@.subrange(i as int, j - 1));
        j = j - 1;
    }
    proof {
        if j > i {
            assert(v@.subrange(i as int, j as int).last() == v@[j - 1]);
        }
    }
    (i, j)
}

fn clean_range(v: &Vec<char>, a: usize, b: usize) -> (r: (usize, usize))
    requires
        a <= b <= v@.len(),
    ensures
        r.0 <= r.1 <= v@.len(),
        v@.subrange(r.0 as int, r.1 as int) == clean(v@.subrange(a as int, b as int)),
{
    let (a1, b1) = strip_range(v, a, b, false);
    let (a2, b2) = strip_range(v, a1, b1, true);
    strip_range(v, a2, b2, false)
}

fn lower(c: char) -> (r: char)
    ensures
        r == ascii_lower(c),
{
    if 'A' <= c && c <= 'Z' {
        ((c as u32) + 32) as u8 as char
    } else {
        c
    }
}

/// Whether `v[a..b]` begins with the ASCII prefix `p`, ignoring ASCII case.
fn has_prefix_ci(v: &Vec<char>, a: usize, b: usize, p: &Vec<char>) -> (r: bool)
    requires
        a <= b <= v@.len(),
    ensures
        r == (prefix_ci(v@.subrange(a as int, b as int), p@) is Some),
{
    let ghost s = v@.subrange(a as int, b as int);
    if b - a < p.len() {
        return false;
    }
    let mut i: usize = 0;
    while i < p.len()
        invariant
            0 <= i <= p@.len(),
            a + p@.len() <= b <= v@.len(),
            s == v@.subrange(a as int, b as int),
            forall|k: int| 0 <= k < i ==> ascii_lower(#[trigger] s[k]) == ascii_lower(p@[k]),
        decreases p@.len() - i,
    {
        if lower(v[a + i]) != lower(p[i]) {
            assert(s[i as int] == v@[a + i]);
            return false;
        }
        assert(s[i as int] == v@[a + i]);
        i = i + 1;
    }
    true
}

fn string_range(v: &Vec<char>, a: usize, b: usize) -> (s: String)
    requires
        a <= b <= v@.len(),
    ensures
        s@ == v@.subrange(a as int, b as int),
{
    string_of(vstd::slice::slice_subrange(v.as_slice(), a, b))
}

/// Reads an action from a model's output: the first `TOOL:` line names the tool (the
/// value cleaned of whitespace and quotes; `unknown` when missing or empty) and the first
/// `PATH:` line the detail (empty when missing). Prefixes match ignoring ASCII case;
/// every other line is ignored.
pub fn parse_action(text: &str) -> (a: Action)
    ensures
        a.tool.0@ == action_tool(text@),
        a.detail@ == action_detail(text@),
{
    let t = chars_vec(text);
    let tool_p: Vec<char> = vec!['T', 'O', 'O', 'L', ':'];
    let path_p: Vec<char> = vec!['P', 'A', 'T', 'H', ':'];
    proof {
        reveal_strlit("TOOL:");
        reveal_strlit("PATH:");
    }
    assert(tool_p@ =~= "TOOL:"@);
    assert(path_p@ =~= "PATH:"@);
    let mut tool: Option<(usize, usize)> = None;
    let mut path: Option<(usize, usize)> = None;
    let mut k: usize = 0;
    while k < t.len()
        invariant
            k <= t@.len(),
            tool_p@ == "TOOL:"@,
            path_p@ == "PATH:"@,
            tool_p@.len() == 5,
            path_p@.len() == 5,
            match tool {
                Some(r) => r.0 <= r.1 <= t@.len(),
                None => true,
            },
            match path {
                Some(r) => r.0 <= r.1 <= t@.len(),
                None => true,
            },
            scan_lines(lines_from(t@, 0), (None, None)) == scan_lines(
                lines_from(t@, k as int),
                (
                    match tool {
                        Some(r) => Some(t@.subrange(r.0 as int, r.1 as int)),
                        None => None,
                    },
                    match path {
                        Some(r) => Some(t@.subrange(r.0 as int, r.1 as int)),
                        None => None,
                    },
                ),
            ),
        decreases t@.len() - k,
    {
        let (end, next) = match find_char_from(&t, '\n', k) {
            Some(e) => {
                proof {
                    lemma_find_from_bounds(t@, seq!['\n'], k as int);
                }
                let line_end = if e > k && t[e - 1] == '\r' {
                    e - 1
                } else {
                    e
                };
                assert(t@.subrange(k as int, line_end as int) == strip_cr(t@.subrange(k as int, e as int))) by {
                    if e > k && t@[e - 1] == '\r' {
                        assert(t@.subrange(k as int, e as int).drop_last() =~= t@.subrange(k as int, e - 1));
                    }
                }
                (line_end, e + 1)
            },
            None => (t.len(), t.len()),
        };
        let ghost st = (
            match tool {
                Some(r) => Some(t@.subrange(r.0 as int, r.1 as int)),
                None => None,
            },
            match path {
                Some(r) => Some(t@.subrange(r.0 as int, r.1 as int)),
                None => None,
            },
        );
        let ghost line = t@.subrange(k as int, end as int);
        assert(lines_from(t@, k as int) =~= seq![line] + lines_from(t@, next as int));
        assert((seq![line] + lines_from(t@, next as int)).drop_first() =~= lines_from(t@, next as int));
        let (a, b) = strip_range(&t, k, end, false);
        if has_prefix_ci(&t, a, b, &tool_p) {
            if tool.is_none() {
                let r = clean_range(&t, a + 5, b);
                tool = Some(r);
            }
        } else if has_prefix_ci(&t, a, b, &path_p) {
            if path.is_none() {
                let r = clean_range(&t, a + 5, b);
                path = Some(r);
            }
        }
        proof {
            let tl = t@.subrange(a as int, b as int);
            if prefix_ci(tl, "TOOL:"@) is Some || prefix_ci(tl, "PATH:"@) is Some {
                assert(tl.subrange(5, tl.len() as int) =~= t@.subrange(a + 5, b as int));
            }
        }
        k = next;
    }
    assert(lines_from(t@, k as int) =~= Seq::<Seq<char>>::empty());
    let tool_id = match tool {
        Some(r) => if r.1 > r.0 {
            string_range(&t, r.0, r.1)
        } else {
            "unknown".to_owned()
        },
        None => "unknown".to_owned(),
    };
    let detail = match path {
        Some(r) => string_range(&t, r.0, r.1),
        None => String::new(),
    };
    Action { tool: ToolId(tool_id), detail }
}


// ---------------------------------------------------------------------------------------
// The request and the reply.
// ---------------------------------------------------------------------------------------

/// The default system instruction: ask the model for a strict, parseable coding proposal,
/// kept blunt because a small model follows format instructions weakly.
pub const DEFAULT_SYSTEM: &'static str = "You are a tool-dispatching agent. You do NOT write code, bash, or markdown. You output ONLY these two lines and nothing else:\nTOOL: write_file\nPATH: <absolute path>\nReplace <absolute path> with the path in the user's request. No commentary, no backticks, no code fences, no extra lines.\nExample output:\nTOOL: write_file\nPATH: /tmp/example.txt";

/// The JSON body of a generate request: model, system instruction and prompt, each
/// escaped, no streaming, temperature zero.
pub open spec fn request_body(model: Seq<char>, system: Seq<char>, payload: Seq<char>) -> Seq<
    char,
> {
    "{\"model\":\""@ + escape_all(model) + "\",\"system\":\""@ + escape_all(system)
        + "\",\"prompt\":\""@ + escape_all(payload)
        + "\",\"stream\":false,\"options\":{\"temperature\":0}}"@
}

/// The head of the HTTP request for a body of `len` bytes.
pub open spec fn request_head(host: Seq<char>, len: nat) -> Seq<char> {
    "POST /api/generate HTTP/1.1\r\nHost: "@ + host
        + "\r\nContent-Type: application/json\r\nContent-Length: "@ + decimal(len)
        + "\r\nConnection: close\r\n\r\n"@
}

/// The bytes of the whole request: the head, whose `Content-Length` is the body's length
/// in bytes, then the body.
pub open spec fn request_spec(
    host: Seq<char>,
    model: Seq<char>,
    system: Seq<char>,
    payload: Seq<char>,
) -> Seq<u8> {
    let body = crate::canon::utf8(request_body(model, system, payload));
    crate::canon::utf8(request_head(host, body.len())) + body
}

/// What a reply says: the model's text, or the detail of a backend failure. An `error`
/// field wins; a reply without a `response` field is a failure too.
pub open spec fn reply_outcome(t: Seq<char>) -> Result<Seq<char>, Seq<char>> {
    match field_value(t, "error"@) {
        Some(e) => Err("ollama error: "@ + e),
        None => match field_value(t, "response"@) {
            None => Err("ollama response missing a `response` field"@),
            Some(v) => Ok(v),
        },
    }
}

/// The text that `String::from_utf8_lossy` decodes from a byte string.
pub uninterp spec fn utf8_lossy(bytes: Seq<u8>) -> Seq<char>;

/// `String::from_utf8_lossy`: the bytes decoded as UTF-8, each invalid sequence replaced
/// by U+FFFD; bytes that are valid UTF-8 decode to exactly their characters.
#[verifier::external_body]
fn decode_lossy(b: &[u8]) -> (s: String)
    ensures
        s@ == utf8_lossy(b@),
        vstd::utf8::valid_utf8(b@) ==> s@ == vstd::utf8::decode_utf8(b@),
{
    String::from_utf8_lossy(b).into_owned()
}

fn push_escaped_str(out: &mut Vec<char>, s: &str)
    ensures
        final(out)@ == old(out)@ + escape_all(s@),
{
    let e = json_escape(s);
    push_lit(out, e.as_str());
}

fn string_bytes(s: &String) -> (b: &[u8])
    ensures
        b@ == crate::canon::utf8(s@),
{
    s.as_str().as_bytes()
}

/// A self-hosted model behind ollama's `/api/generate`: the model's name, the system
/// instruction, and the `Host` header the gateway expects. The transport that carries the
/// request and brings back the reply belongs to the caller.
pub struct OllamaBackend {
    model: String,
    system: String,
    host_header: String,
}

impl OllamaBackend {
    pub closed spec fn model_view(&self) -> Seq<char> {
        self.model@
    }

    pub closed spec fn system_view(&self) -> Seq<char> {
        self.system@
    }

    pub closed spec fn host_view(&self) -> Seq<char> {
        self.host_header@
    }

    /// A backend for a model behind a host, with the default system instruction.
    pub fn new(model: String, host_header: String) -> (r: Self)
        ensures
            r.model_view() == model@,
            r.host_view() == host_header@,
            r.system_view() == DEFAULT_SYSTEM@,
    {
        OllamaBackend { model, system: DEFAULT_SYSTEM.to_owned(), host_header }
    }

    /// The same backend with another system instruction.
    pub fn with_system(self, system: String) -> (r: Self)
        ensures
            r.model_view() == self.model_view(),
            r.host_view() == self.host_view(),
            r.system_view() == system@,
    {
        OllamaBackend { model: self.model, system, host_header: self.host_header }
    }

    /// The HTTP request that asks the model about a payload: a POST of the JSON body,
    /// with its length in bytes as `Content-Length`, on a connection that closes after
    /// the reply.
    pub fn request_bytes(&self, payload: &str) -> (r: Vec<u8>)
        ensures
            r@ == request_spec(self.host_view(), self.model_view(), self.system_view(), payload@),
    {
        let mut body: Vec<char> = Vec::new();
        push_lit(&mut body, "{\"model\":\"");
        push_escaped_str(&mut body, self.model.as_str());
        push_lit(&mut body, "\",\"system\":\"");
        push_escaped_str(&mut body, self.system.as_str());
        push_lit(&mut body, "\",\"prompt\":\"");
        push_escaped_str(&mut body, payload);
        push_lit(&mut body, "\",\"stream\":false,\"options\":{\"temperature\":0}}");
        assert(body@ =~= request_body(self.model@, self.system@, payload@));
        let body_s = string_of(body.as_slice());
        let body_b = string_bytes(&body_s);
        let mut head: Vec<char> = Vec::new();
        push_lit(&mut head, "POST /api/generate HTTP/1.1\r\nHost: ");
        push_lit(&mut head, self.host_header.as_str());
        push_lit(&mut head, "\r\nContent-Type: application/json\r\nContent-Length: ");
        push_decimal(&mut head, body_b.len() as u64);
        push_lit(&mut head, "\r\nConnection: close\r\n\r\n");
        assert(head@ =~= request_head(self.host_header@, body_b@.len()));
        let head_s = string_of(head.as_slice());
        let head_b = string_bytes(&head_s);
        let mut c = crate::canon::Canon::new();
        c.put_raw(head_b);
        c.put_raw(body_b);
        c.finish()
    }
}

/// Reads a decoded reply: an `error` field becomes a backend failure that carries it; a
/// reply without a `response` field is a failure; otherwise the model's text is the
/// rationale and the action is what `parse_action` reads from it.
pub fn interpret_reply(raw: &str) -> (r: Result<BackendProposal, BackendError>)
    ensures
        match reply_outcome(raw@) {
            Ok(v) => r matches Ok(p) && p.rationale@ == v && p.action.tool.0@ == action_tool(v)
                && p.action.detail@ == action_detail(v),
            Err(d) => r matches Err(e) && e.detail@ == d,
        },
{
    match json_string_field(raw, "error") {
        Some(err) => {
            let mut d: Vec<char> = Vec::new();
            push_lit(&mut d, "ollama error: ");
            push_lit(&mut d, err.as_str());
            Err(BackendError { detail: string_of(d.as_slice()) })
        },
        None => match json_string_field(raw, "response") {
            None => Err(
                BackendError { detail: "ollama response missing a `response` field".to_owned() },
            ),
            Some(text) => {
                let action = parse_action(text.as_str());
                Ok(BackendProposal { action, rationale: text })
            },
        },
    }
}

/// Reads the raw bytes of a reply: decoded as `String::from_utf8_lossy` decodes them,
/// then read as `interpret_reply` reads a decoded reply.
pub fn read_reply(response: &[u8]) -> (r: Result<BackendProposal, BackendError>)
    ensures
        match reply_outcome(utf8_lossy(response@)) {
            Ok(v) => r matches Ok(p) && p.rationale@ == v && p.action.tool.0@ == action_tool(v)
                && p.action.detail@ == action_detail(v),
            Err(d) => r matches Err(e) && e.detail@ == d,
        },
{
    let raw = decode_lossy(response);
    interpret_reply(raw.as_str())
}

} // verus!
