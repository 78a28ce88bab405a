//! Byte-level string helpers. Every string of the library is modelled by its
//! UTF-8 bytes (`enc(s@)`); the scanners work on those bytes and cut strings
//! only at ASCII positions, which are always character boundaries.

use vstd::prelude::*;
use vstd::utf8::*;
use vstd::string::*;

verus! {

broadcast use {vstd::utf8::encode_utf8_valid_utf8, vstd::utf8::encode_utf8_decode_utf8};

/// The UTF-8 bytes of a character sequence.
pub open spec fn enc(s: Seq<char>) -> Seq<u8> {
    encode_utf8(s)
}

/// Bytes of `s` end with the bytes of `p`.
pub open spec fn has_suffix(s: Seq<char>, p: Seq<char>) -> bool {
    enc(p).is_suffix_of(enc(s))
}

/// Bytes of `s` begin with the bytes of `p`.
pub open spec fn has_prefix(s: Seq<char>, p: Seq<char>) -> bool {
    enc(p).is_prefix_of(enc(s))
}

/// A byte index at which a UTF-8 buffer may be cut: the start, the end, or
/// any byte that does not continue a multi-byte character.
pub open spec fn cut_point(b: Seq<u8>, i: int) -> bool {
    0 <= i <= b.len() && (i == 0 || i == b.len() || !is_continuation_byte(b[i]))
}

/// Encoding is injective.
pub proof fn lemma_enc_injective(a: Seq<char>, b: Seq<char>)
    ensures
        enc(a) == enc(b) <==> a == b,
{
    if enc(a) == enc(b) {
        assert(decode_utf8(encode_utf8(a)) == a);
        assert(decode_utf8(encode_utf8(b)) == b);
    }
}

/// Encoding distributes over concatenation.
pub proof fn lemma_enc_concat(a: Seq<char>, b: Seq<char>)
    ensures
        enc(a + b) == enc(a) + enc(b),
    decreases a.len(),
{
    if a.len() == 0 {
        assert(a + b =~= b);
        assert(enc(a) =~= Seq::<u8>::empty());
        assert(enc(a) + enc(b) =~= enc(b));
    } else {
        lemma_enc_concat(a.drop_first(), b);
        assert((a + b).drop_first() =~= a.drop_first() + b);
        assert((a + b)[0] == a[0]);
        assert(enc(a + b) =~= enc(a) + enc(b));
    }
}

/// A cut point of a valid buffer is a character boundary.
pub proof fn lemma_cut_point_boundary(b: Seq<u8>, i: int)
    requires
        valid_utf8(b),
        cut_point(b, i),
    ensures
        is_char_boundary(b, i),
{
    broadcast use is_char_boundary_start_end_of_seq;

    if 0 < i < b.len() {
        is_char_boundary_iff_not_is_continuation_byte(b, i);
    }
}

/// In valid UTF-8, the byte after an ASCII byte starts a character.
pub proof fn lemma_after_ascii(b: Seq<u8>, i: int)
    requires
        valid_utf8(b),
        0 <= i < b.len(),
        b[i] < 0x80,
    ensures
        cut_point(b, i + 1),
{
    if i + 1 < b.len() {
        is_char_boundary_iff_not_is_continuation_byte(b, i);
        valid_utf8_split(b, i);
        let t = b.subrange(i, b.len() as int);
        assert(t[0] == b[i]);
        let u = pop_first_scalar(t);
        assert(valid_utf8(u));
        assert(u =~= b.subrange(i + 1, b.len() as int));
        assert(u[0] == b[i + 1]);
        assert(valid_first_scalar(u));
    }
}

/// A byte index of valid UTF-8 whose prefix is valid UTF-8 is a cut point.
pub proof fn lemma_valid_prefix_cut(b: Seq<u8>, k: int)
    requires
        valid_utf8(b),
        0 <= k <= b.len(),
        valid_utf8(b.subrange(0, k)),
    ensures
        cut_point(b, k),
{
    if 0 < k < b.len() && is_continuation_byte(b[k]) {
        let rest = b.subrange(k, b.len() as int);
        if valid_utf8(rest) {
            is_char_boundary_start_end_of_seq(rest);
            is_char_boundary_iff_not_is_continuation_byte(rest, 0);
            assert(rest[0] == b[k]);
        }
        partial_valid_partial_invalid_utf8(b, k);
    }
}

/// The part of `s` between two cut points of its bytes.
pub fn substr(s: &str, start: usize, end: usize) -> (r: &str)
    requires
        start <= end <= enc(s@).len(),
        cut_point(enc(s@), start as int),
        cut_point(enc(s@), end as int),
    ensures
        enc(r@) == enc(s@).subrange(start as int, end as int),
{
    let ghost b = enc(s@);
    proof {
        lemma_cut_point_boundary(b, start as int);
    }
    let (_, tail) = s.split_at(start);
    let ghost t = b.subrange(start as int, b.len() as int);
    assert(enc(tail@) == t);
    proof {
        valid_utf8_split(b, start as int);
        let k = end - start;
        if 0 < k < t.len() {
            assert(t[k as int] == b[end as int]);
        }
        lemma_cut_point_boundary(t, (end - start) as int);
    }
    let (mid, _) = tail.split_at(end - start);
    assert(enc(mid@) =~= b.subrange(start as int, end as int));
    mid
}

/// Byte equality of two strings; equal bytes mean equal strings.
pub fn str_eq(a: &str, b: &str) -> (r: bool)
    ensures
        r == (a@ == b@),
{
    let x = a.as_bytes();
    let y = b.as_bytes();
    proof {
        lemma_enc_injective(a@, b@);
    }
    if x.len() != y.len() {
        return false;
    }
    let mut i: usize = 0;
    while i < x.len()
        invariant
            x@ == enc(a@),
            y@ == enc(b@),
            x@.len() == y@.len(),
            0 <= i <= x@.len(),
            forall|j: int| 0 <= j < i ==> x@[j] == y@[j],
        decreases x@.len() - i,
    {
        if x[i] != y[i] {
            return false;
        }
        i = i + 1;
    }
    assert(x@ =~= y@);
    true
}


/// Does `s` begin with the bytes of `p`?
pub fn starts_with(s: &str, p: &str) -> (r: bool)
    ensures
        r == enc(p@).is_prefix_of(enc(s@)),
{
    let x = s.as_bytes();
    let y = p.as_bytes();
    if y.len() > x.len() {
        return false;
    }
    let mut i: usize = 0;
    while i < y.len()
        invariant
            x@ == enc(s@),
            y@ == enc(p@),
            y@.len() <= x@.len(),
            0 <= i <= y@.len(),
            forall|j: int| 0 <= j < i ==> x@[j] == y@[j],
        decreases y@.len() - i,
    {
        if x[i] != y[i] {
            return false;
        }
        i = i + 1;
    }
    assert(y@ =~= x@.subrange(0, y@.len() as int));
    true
}

/// Does `s` end with the bytes of `p`?
pub fn ends_with(s: &str, p: &str) -> (r: bool)
    ensures
        r == enc(p@).is_suffix_of(enc(s@)),
{
    let x = s.as_bytes();
    let y = p.as_bytes();
    if y.len() > x.len() {
        return false;
    }
    let xl = x.len();
    let off = xl - y.len();
    let mut i: usize = 0;
    while i < y.len()
        invariant
            x@ == enc(s@),
            y@ == enc(p@),
            y@.len() <= x@.len(),
            xl == x@.len(),
            off == x@.len() - y@.len(),
            0 <= i <= y@.len(),
            forall|j: int| 0 <= j < i ==> x@[off + j] == y@[j],
        decreases y@.len() - i,
    {
        if x[off + i] != y[i] {
            return false;
        }
        i = i + 1;
    }
    assert(y@ =~= x@.subrange(off as int, x@.len() as int));
    true
}

/// An owned copy of `s`.
pub fn owned(s: &str) -> (r: String)
    ensures
        r@ == s@,
{
    s.to_owned()
}

/// The concatenation of `a` and `b`.
pub fn concat(a: &str, b: &str) -> (r: String)
    ensures
        r@ == a@ + b@,
{
    let mut r = a.to_owned();
    r.append(b);
    r
}


/// Lexicographic order on byte strings (the order of Rust's `str`).
pub open spec fn lex_le(a: Seq<u8>, b: Seq<u8>) -> bool
    decreases a.len(),
{
    if a.len() == 0 {
        true
    } else if b.len() == 0 {
        false
    } else if a[0] < b[0] {
        true
    } else if a[0] > b[0] {
        false
    } else {
        lex_le(a.drop_first(), b.drop_first())
    }
}

/// Strings ordered by their UTF-8 bytes.
pub open spec fn str_le(a: Seq<char>, b: Seq<char>) -> bool {
    lex_le(enc(a), enc(b))
}

pub open spec fn str_order() -> spec_fn(Seq<char>, Seq<char>) -> bool {
    |a: Seq<char>, b: Seq<char>| str_le(a, b)
}

pub proof fn lemma_lex_refl(a: Seq<u8>)
    ensures
        lex_le(a, a),
    decreases a.len(),
{
    if a.len() > 0 {
        lemma_lex_refl(a.drop_first());
    }
}

pub proof fn lemma_lex_antisym(a: Seq<u8>, b: Seq<u8>)
    requires
        lex_le(a, b),
        lex_le(b, a),
    ensures
        a == b,
    decreases a.len(),
{
    if a.len() > 0 && b.len() > 0 {
        lemma_lex_antisym(a.drop_first(), b.drop_first());
        assert(a =~= seq![a[0]] + a.drop_first());
        assert(b =~= seq![b[0]] + b.drop_first());
    } else {
        assert(a =~= b);
    }
}

pub proof fn lemma_lex_trans(a: Seq<u8>, b: Seq<u8>, c: Seq<u8>)
    requires
        lex_le(a, b),
        lex_le(b, c),
    ensures
        lex_le(a, c),
    decreases a.len(),
{
    if a.len() > 0 && b.len() > 0 && c.len() > 0 && a[0] == b[0] && b[0] == c[0] {
        lemma_lex_trans(a.drop_first(), b.drop_first(), c.drop_first());
    }
}

pub proof fn lemma_lex_total(a: Seq<u8>, b: Seq<u8>)
    ensures
        lex_le(a, b) || lex_le(b, a),
    decreases a.len(),
{
    if a.len() > 0 && b.len() > 0 && a[0] == b[0] {
        lemma_lex_total(a.drop_first(), b.drop_first());
    }
}

/// `a <= b` in the byte order of `str`.
pub fn str_le_exec(a: &str, b: &str) -> (r: bool)
    ensures
        r == str_le(a@, b@),
{
    let x = a.as_bytes();
    let y = b.as_bytes();
    let mut i: usize = 0;
    assert(x@.skip(0) =~= x@);
    assert(y@.skip(0) =~= y@);
    while i < x.len() && i < y.len() && x[i] == y[i]
        invariant
            x@ == enc(a@),
            y@ == enc(b@),
            0 <= i <= x@.len(),
            i <= y@.len(),
            lex_le(x@, y@) == lex_le(x@.skip(i as int), y@.skip(i as int)),
        decreases x@.len() - i,
    {
        assert(x@.skip(i as int).drop_first() =~= x@.skip(i + 1));
        assert(y@.skip(i as int).drop_first() =~= y@.skip(i + 1));
        i = i + 1;
    }
    assert(x@.skip(i as int).len() == 0 || x@.skip(i as int)[0] == x@[i as int]);
    assert(y@.skip(i as int).len() == 0 || y@.skip(i as int)[0] == y@[i as int]);
    if i == x.len() {
        true
    } else if i == y.len() {
        false
    } else {
        x[i] < y[i]
    }
}

/// Byte order on strings is a total order.
pub proof fn lemma_str_order_total()
    ensures
        vstd::relations::total_ordering(str_order()),
{
    let r = str_order();
    assert forall|x: Seq<char>| #[trigger] r(x, x) by {
        lemma_lex_refl(enc(x));
    }
    assert forall|x: Seq<char>, y: Seq<char>| #[trigger] r(x, y) && #[trigger] r(y, x) implies x == y by {
        lemma_lex_antisym(enc(x), enc(y));
        lemma_enc_injective(x, y);
    }
    assert forall|x: Seq<char>, y: Seq<char>, z: Seq<char>| #[trigger] r(x, y) && #[trigger] r(y, z) implies r(x, z) by {
        lemma_lex_trans(enc(x), enc(y), enc(z));
    }
    assert forall|x: Seq<char>, y: Seq<char>| #[trigger] r(x, y) || #[trigger] r(y, x) by {
        lemma_lex_total(enc(x), enc(y));
    }
}


/// The Unicode `White_Space` property.
pub open spec fn is_white_space(c: char) -> bool {
    let u = c as u32;
    ||| 0x9 <= u <= 0xd
    ||| u == 0x20 ||| u == 0x85 ||| u == 0xa0 ||| u == 0x1680
    ||| 0x2000 <= u <= 0x200a
    ||| u == 0x2028 ||| u == 0x2029 ||| u == 0x202f ||| u == 0x205f ||| u == 0x3000
}

/// Number of leading white-space characters.
pub open spec fn lead_ws(s: Seq<char>) -> nat
    decreases s.len(),
{
    if s.len() > 0 && is_white_space(s[0]) { 1 + lead_ws(s.drop_first()) } else { 0 }
}

/// Number of trailing white-space characters.
pub open spec fn trail_ws(s: Seq<char>) -> nat
    decreases s.len(),
{
    if s.len() > 0 && is_white_space(s.last()) { 1 + trail_ws(s.drop_last()) } else { 0 }
}

/// `s` without leading and trailing white space.
pub open spec fn trimmed(s: Seq<char>) -> Seq<char> {
    if lead_ws(s) >= s.len() { Seq::empty() } else { s.subrange(lead_ws(s) as int, s.len() - trail_ws(s)) }
}

/// Length of the leading run of characters that are not white space.
pub open spec fn word_len(s: Seq<char>) -> nat
    decreases s.len(),
{
    if s.len() == 0 || is_white_space(s[0]) { 0 } else { 1 + word_len(s.drop_first()) }
}

pub proof fn lemma_lead_ws(s: Seq<char>)
    ensures
        lead_ws(s) <= s.len(),
        lead_ws(s) < s.len() ==> !is_white_space(s[lead_ws(s) as int]),
    decreases s.len(),
{
    if s.len() > 0 && is_white_space(s[0]) {
        lemma_lead_ws(s.drop_first());
        if lead_ws(s) < s.len() {
            assert(s.drop_first()[lead_ws(s.drop_first()) as int] == s[lead_ws(s) as int]);
        }
    }
}

pub proof fn lemma_word_len(s: Seq<char>)
    ensures
        word_len(s) <= s.len(),
        s.len() > 0 && !is_white_space(s[0]) ==> word_len(s) >= 1,
    decreases s.len(),
{
    if s.len() > 0 && !is_white_space(s[0]) {
        lemma_word_len(s.drop_first());
    }
}

/// The maximal runs of characters without the Unicode `White_Space`
/// property, in order.
pub open spec fn words(s: Seq<char>) -> Seq<Seq<char>>
    decreases s.len(),
{
    let t = s.skip(lead_ws(s) as int);
    proof {
        lemma_lead_ws(s);
    }
    if lead_ws(s) >= s.len() {
        Seq::empty()
    } else {
        proof {
            lemma_word_len(t);
        }
        seq![t.take(word_len(t) as int)] + words(t.skip(word_len(t) as int))
    }
}

/// `str::split_whitespace` (std). Claimed: the pieces are the maximal runs
/// of characters without the Unicode `White_Space` property, in order.
#[verifier::external_body]
pub(crate) fn split_whitespace(s: &str) -> (r: Vec<&str>)
    ensures
        r@.map_values(|w: &str| w@) == words(s@),
{
    s.split_whitespace().collect()
}

/// `str::trim` (std). Claimed: the result drops exactly the leading and
/// trailing characters that have the Unicode `White_Space` property.
#[verifier::external_body]
pub(crate) fn trim(s: &str) -> (r: &str)
    ensures
        r@ == trimmed(s@),
{
    s.trim()
}

/// The parts with `sep` between each two.
pub open spec fn join_spec(parts: Seq<Seq<char>>, sep: Seq<char>) -> Seq<char>
    decreases parts.len(),
{
    if parts.len() == 0 {
        Seq::empty()
    } else if parts.len() == 1 {
        parts[0]
    } else {
        join_spec(parts.drop_last(), sep) + sep + parts.last()
    }
}

/// `parts.join(sep)`.
pub fn join(parts: &[String], sep: &str) -> (r: String)
    ensures
        r@ == join_spec(parts@.map_values(|s: String| s@), sep@),
{
    let ghost ps = parts@.map_values(|s: String| s@);
    let mut out = String::new();
    let mut i: usize = 0;
    while i < parts.len()
        invariant
            ps == parts@.map_values(|s: String| s@),
            0 <= i <= parts@.len(),
            out@ == join_spec(ps.subrange(0, i as int), sep@),
        decreases parts@.len() - i,
    {
        proof {
            assert(ps.subrange(0, i + 1).drop_last() =~= ps.subrange(0, i as int));
            assert(ps.subrange(0, i + 1).last() == parts@[i as int]@);
        }
        if i > 0 {
            out.append(sep);
        } else {
            assert(out@ =~= Seq::<char>::empty());
        }
        out.append(parts[i].as_str());
        proof {
            if i == 0 {
                assert(out@ =~= parts@[0]@);
            }
        }
        i = i + 1;
    }
    assert(ps.subrange(0, i as int) =~= ps);
    out
}


// ---------------------------------------------------------------------------
// Words of a space-joined list
// ---------------------------------------------------------------------------

/// A non-empty run of characters without white space.
pub open spec fn is_word(w: Seq<char>) -> bool {
    w.len() > 0 && forall|i: int| 0 <= i < w.len() ==> !is_white_space(#[trigger] w[i])
}

proof fn lemma_word_len_of(w: Seq<char>, rest: Seq<char>)
    requires
        forall|i: int| 0 <= i < w.len() ==> !is_white_space(#[trigger] w[i]),
        rest.len() == 0 || is_white_space(rest[0]),
    ensures
        word_len(w + rest) == w.len(),
    decreases w.len(),
{
    if w.len() > 0 {
        assert((w + rest)[0] == w[0]);
        assert((w + rest).drop_first() =~= w.drop_first() + rest);
        assert forall|i: int| 0 <= i < w.drop_first().len() implies !is_white_space(#[trigger] w.drop_first()[i]) by {
            assert(w.drop_first()[i] == w[i + 1]);
        }
        lemma_word_len_of(w.drop_first(), rest);
    } else {
        assert(w + rest =~= rest);
    }
}

proof fn lemma_run_is_word(t: Seq<char>, n: nat)
    requires
        n <= word_len(t),
    ensures
        forall|i: int| 0 <= i < n ==> !is_white_space(#[trigger] t[i]),
    decreases n,
{
    if n > 0 {
        lemma_word_len(t);
        assert(t.len() > 0 && !is_white_space(t[0]));
        lemma_run_is_word(t.drop_first(), (n - 1) as nat);
        assert forall|i: int| 0 <= i < n implies !is_white_space(#[trigger] t[i]) by {
            if i > 0 {
                assert(t.drop_first()[i - 1] == t[i]);
            }
        }
    }
}

/// Every word of a text is a word.
pub proof fn lemma_words_are_words(s: Seq<char>)
    ensures
        forall|i: int| 0 <= i < words(s).len() ==> is_word(#[trigger] words(s)[i]),
    decreases s.len(),
{
    lemma_lead_ws(s);
    if lead_ws(s) < s.len() {
        let t = s.skip(lead_ws(s) as int);
        assert(t[0] == s[lead_ws(s) as int]);
        lemma_word_len(t);
        lemma_run_is_word(t, word_len(t));
        let w = t.take(word_len(t) as int);
        assert forall|i: int| 0 <= i < w.len() implies !is_white_space(#[trigger] w[i]) by {
            assert(w[i] == t[i]);
        }
        let rest = t.skip(word_len(t) as int);
        lemma_words_are_words(rest);
        assert forall|i: int| 0 <= i < words(s).len() implies is_word(#[trigger] words(s)[i]) by {
            if i > 0 {
                assert(words(s)[i] == words(rest)[i - 1]);
            }
        }
    }
}

proof fn lemma_join_front(ks: Seq<Seq<char>>, sep: Seq<char>)
    requires
        ks.len() >= 2,
    ensures
        join_spec(ks, sep) == ks[0] + sep + join_spec(ks.drop_first(), sep),
    decreases ks.len(),
{
    if ks.len() > 2 {
        lemma_join_front(ks.drop_last(), sep);
        assert(ks.drop_last().drop_first() =~= ks.drop_first().drop_last());
        assert(ks.drop_last()[0] == ks[0]);
        assert(ks.drop_first().last() == ks.last());
        let mid = join_spec(ks.drop_first().drop_last(), sep);
        assert(join_spec(ks.drop_first(), sep) == mid + sep + ks.last());
        assert(join_spec(ks, sep) == (ks[0] + sep + mid) + sep + ks.last());
        assert((ks[0] + sep + mid) + sep + ks.last() =~= ks[0] + sep + (mid + sep + ks.last()));
    } else {
        assert(ks.drop_last() =~= seq![ks[0]]);
        assert(join_spec(ks.drop_last(), sep) == ks[0]);
        assert(ks.drop_first() =~= seq![ks[1]]);
        assert(join_spec(ks.drop_first(), sep) == ks[1]);
        assert(ks.last() == ks[1]);
    }
}

proof fn lemma_words_space(s: Seq<char>)
    ensures
        words(" "@ + s) == words(s),
{
    reveal_strlit(" ");
    let s2 = " "@ + s;
    assert(is_white_space(s2[0]));
    assert(s2.drop_first() =~= s);
    assert(lead_ws(s2) == 1 + lead_ws(s));
    lemma_lead_ws(s);
    assert(s2.skip(lead_ws(s2) as int) =~= s.skip(lead_ws(s) as int));
}

proof fn lemma_words_front(w: Seq<char>, rest: Seq<char>)
    requires
        is_word(w),
        rest.len() == 0 || is_white_space(rest[0]),
    ensures
        words(w + rest) == seq![w] + words(rest),
{
    let j = w + rest;
    assert(j[0] == w[0]);
    assert(lead_ws(j) == 0);
    lemma_word_len_of(w, rest);
    assert(j.skip(0) =~= j);
    assert(j.take(w.len() as int) =~= w);
    assert(j.skip(w.len() as int) =~= rest);
}

proof fn lemma_join_ends(ks: Seq<Seq<char>>)
    requires
        ks.len() > 0,
        forall|i: int| 0 <= i < ks.len() ==> is_word(#[trigger] ks[i]),
    ensures
        join_spec(ks, " "@).len() > 0,
        join_spec(ks, " "@)[0] == ks[0][0],
        join_spec(ks, " "@).last() == ks.last().last(),
{
    let j = join_spec(ks, " "@);
    assert(is_word(ks[0]));
    assert(is_word(ks.last()));
    if ks.len() >= 2 {
        lemma_join_front(ks, " "@);
        assert(j == join_spec(ks.drop_last(), " "@) + " "@ + ks.last());
    }
}

/// Words joined with single spaces split back into the same words, and the
/// joined text has no white space to trim.
pub proof fn lemma_words_of_join(ks: Seq<Seq<char>>)
    requires
        forall|i: int| 0 <= i < ks.len() ==> is_word(#[trigger] ks[i]),
    ensures
        words(join_spec(ks, " "@)) == ks,
        trimmed(join_spec(ks, " "@)) == join_spec(ks, " "@),
    decreases ks.len(),
{
    reveal_strlit(" ");
    let j = join_spec(ks, " "@);
    if ks.len() == 0 {
        assert(words(j) =~= ks);
    } else {
        let w = ks[0];
        assert(is_word(w));
        if ks.len() >= 2 {
            let tail = join_spec(ks.drop_first(), " "@);
            let rest = " "@ + tail;
            lemma_join_front(ks, " "@);
            assert(j =~= w + rest);
            assert(rest[0] == ' ');
            assert forall|i: int| 0 <= i < ks.drop_first().len() implies is_word(#[trigger] ks.drop_first()[i]) by {
                assert(ks.drop_first()[i] == ks[i + 1]);
            }
            lemma_words_of_join(ks.drop_first());
            lemma_words_space(tail);
            lemma_words_front(w, rest);
            assert(words(j) =~= ks);
        } else {
            lemma_words_front(w, Seq::empty());
            assert(j =~= w + Seq::<char>::empty());
            assert(words(Seq::<char>::empty()) =~= Seq::<Seq<char>>::empty());
            assert(words(j) =~= ks);
        }
        lemma_join_ends(ks);
        assert(lead_ws(j) == 0);
        assert(trail_ws(j) == 0);
        assert(j.subrange(0, j.len() as int) =~= j);
    }
}

} // verus!
