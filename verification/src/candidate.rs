//! Class-name parsing: splits a class into its `:`-separated modifiers, the
//! important flag, the base name and the position of the `/` postfix,
//! ignoring separators nested in `[...]` or `(...)`.

use vstd::prelude::*;
use vstd::utf8::*;
use crate::text::{enc, cut_point, substr, starts_with, str_eq, owned, concat, lemma_after_ascii, lemma_enc_concat, str_order, lemma_str_order_total};
use vstd::relations::sorted_by;

verus! {

broadcast use vstd::utf8::encode_utf8_valid_utf8;

#[derive(Debug, Clone, PartialEq)]
pub struct ParsedClass {
    pub modifiers: Vec<String>,
    pub has_important: bool,
    pub base_class_name: String,
    /// Byte position of the `/` postfix separator within `base_class_name`.
    pub maybe_postfix_position: Option<usize>,
    /// Class was external (does not carry the configured prefix).
    pub is_external: bool,
}

/// The meaning of a parsed class, over UTF-8 bytes.
pub struct ParsedModel {
    pub modifiers: Seq<Seq<u8>>,
    pub has_important: bool,
    pub base: Seq<u8>,
    pub postfix: Option<int>,
    pub is_external: bool,
}

/// UTF-8 bytes of each string.
pub open spec fn encs(v: Seq<String>) -> Seq<Seq<u8>> {
    v.map_values(|s: String| enc(s@))
}

impl View for ParsedClass {
    type V = ParsedModel;

    open spec fn view(&self) -> ParsedModel {
        ParsedModel {
            modifiers: encs(self.modifiers@),
            has_important: self.has_important,
            base: enc(self.base_class_name@),
            postfix: match self.maybe_postfix_position {
                Some(p) => Some(p as int),
                None => None,
            },
            is_external: self.is_external,
        }
    }
}

pub open spec fn bracket_step(d: nat, c: u8) -> nat {
    if c == '[' as u8 { d + 1 } else if c == ']' as u8 { if d > 0 { (d - 1) as nat } else { 0 } } else { d }
}

pub open spec fn paren_step(d: nat, c: u8) -> nat {
    if c == '(' as u8 { d + 1 } else if c == ')' as u8 { if d > 0 { (d - 1) as nat } else { 0 } } else { d }
}

/// Bracket and paren nesting depth after the first `i` bytes (closing a
/// level that is not open leaves the depth at zero).
pub open spec fn depths(b: Seq<u8>, i: int) -> (nat, nat)
    decreases i,
{
    if i <= 0 {
        (0, 0)
    } else {
        let (x, y) = depths(b, i - 1);
        (bracket_step(x, b[i - 1]), paren_step(y, b[i - 1]))
    }
}

pub open spec fn top_level(b: Seq<u8>, i: int) -> bool {
    depths(b, i) == (0nat, 0nat)
}

/// A `:` outside any brackets or parens separates modifiers.
pub open spec fn is_separator(b: Seq<u8>, i: int) -> bool {
    0 <= i < b.len() && b[i] == ':' as u8 && top_level(b, i)
}

/// The modifiers ended by separators among the first `n` bytes, and the
/// index where the next piece starts.
pub open spec fn split_modifiers(b: Seq<u8>, n: int) -> (Seq<Seq<u8>>, int)
    decreases n,
{
    if n <= 0 {
        (Seq::empty(), 0)
    } else {
        let (m, s) = split_modifiers(b, n - 1);
        if is_separator(b, n - 1) { (m.push(b.subrange(s, n - 1)), n) } else { (m, s) }
    }
}

/// The first `/` outside brackets and parens among the first `n` bytes.
pub open spec fn first_slash(b: Seq<u8>, n: int) -> Option<int>
    decreases n,
{
    if n <= 0 {
        None
    } else {
        match first_slash(b, n - 1) {
            Some(p) => Some(p),
            None => if b[n - 1] == '/' as u8 && top_level(b, n - 1) { Some(n - 1) } else { None },
        }
    }
}

/// Parsing a class written without a prefix.
pub open spec fn parse_model(b: Seq<u8>) -> ParsedModel {
    let (mods, start) = split_modifiers(b, b.len() as int);
    let w = b.subrange(start, b.len() as int);
    let (important, base) = if w.len() > 0 && w.last() == '!' as u8 {
        (true, w.drop_last())
    } else if w.len() > 0 && w[0] == '!' as u8 {
        (true, w.drop_first())
    } else {
        (false, w)
    };
    ParsedModel {
        modifiers: mods,
        has_important: important,
        base: base,
        // Counted within the base: one less after a leading `!`.
        postfix: match first_slash(b, b.len() as int) {
            Some(p) => if p > start { Some(p - start - if leading_bang(w) { 1int } else { 0int }) } else { None },
            None => None,
        },
        is_external: false,
    }
}

/// The text starts with the legacy important marker `!` (and does not end
/// with the marker).
pub open spec fn leading_bang(w: Seq<u8>) -> bool {
    !(w.len() > 0 && w.last() == '!' as u8) && w.len() > 0 && w[0] == '!' as u8
}

/// Parsing a class under an optional prefix: a class without `prefix:` is
/// external and passes through whole.
pub open spec fn parse_class_model(class: Seq<char>, prefix: Option<Seq<char>>) -> ParsedModel {
    match prefix {
        Some(p) => {
            let full = enc(p + ":"@);
            if full.is_prefix_of(enc(class)) {
                parse_model(enc(class).subrange(full.len() as int, enc(class).len() as int))
            } else {
                ParsedModel {
                    modifiers: Seq::empty(),
                    has_important: false,
                    base: enc(class),
                    postfix: None,
                    is_external: true,
                }
            }
        },
        None => parse_model(enc(class)),
    }
}

proof fn lemma_split_start(b: Seq<u8>, n: int)
    requires
        0 <= n <= b.len(),
    ensures
        0 <= split_modifiers(b, n).1 <= n,
        split_modifiers(b, n).1 == 0 || b[split_modifiers(b, n).1 - 1] == ':' as u8,
    decreases n,
{
    if n > 0 {
        lemma_split_start(b, n - 1);
    }
}

proof fn lemma_depth_bound(b: Seq<u8>, n: int)
    requires
        0 <= n <= b.len(),
    ensures
        depths(b, n).0 <= n,
        depths(b, n).1 <= n,
    decreases n,
{
    if n > 0 {
        lemma_depth_bound(b, n - 1);
    }
}

proof fn lemma_first_slash_bound(b: Seq<u8>, n: int)
    requires
        0 <= n <= b.len(),
    ensures
        first_slash(b, n) matches Some(p) ==> 0 <= p < n,
    decreases n,
{
    if n > 0 {
        lemma_first_slash_bound(b, n - 1);
    }
}

fn parse_inner(class_name: &str) -> (r: ParsedClass)
    ensures
        r@ == parse_model(enc(class_name@)),
{
    let ghost b = enc(class_name@);
    let bytes = class_name.as_bytes();
    let len = bytes.len();
    let mut modifiers: Vec<String> = Vec::new();
    let mut bracket_depth: usize = 0;
    let mut paren_depth: usize = 0;
    let mut modifier_start: usize = 0;
    let mut postfix_modifier_position: Option<usize> = None;
    let mut i: usize = 0;
    while i < len
        invariant
            bytes@ == b,
            b == enc(class_name@),
            len == b.len(),
            0 <= i <= len,
            (bracket_depth as nat, paren_depth as nat) == depths(b, i as int),
            bracket_depth <= i,
            paren_depth <= i,
            (encs(modifiers@), modifier_start as int) == split_modifiers(b, i as int),
            postfix_modifier_position == (match first_slash(b, i as int) {
                Some(p) => Some(p as usize),
                None => None::<usize>,
            }),
        decreases len - i,
    {
        let c = bytes[i];
        proof {
            lemma_split_start(b, i as int);
            lemma_first_slash_bound(b, i as int);
        }
        if bracket_depth == 0 && paren_depth == 0 {
            if c == 58u8 {
                proof {
                    if modifier_start > 0 {
                        lemma_after_ascii(b, modifier_start - 1);
                    }
                }
                let piece = substr(class_name, modifier_start, i);
                let ghost old_mods = modifiers@;
                modifiers.push(owned(piece));
                assert(encs(modifiers@) =~= encs(old_mods).push(b.subrange(modifier_start as int, i as int)));
                modifier_start = i + 1;
                i = i + 1;
                continue;
            }
            if c == 47u8 && postfix_modifier_position.is_none() {
                postfix_modifier_position = Some(i);
                i = i + 1;
                continue;
            }
        }
        if c == 91u8 {
            bracket_depth = bracket_depth + 1;
        } else if c == 93u8 {
            bracket_depth = if bracket_depth > 0 { bracket_depth - 1 } else { 0 };
        } else if c == 40u8 {
            paren_depth = paren_depth + 1;
        } else if c == 41u8 {
            paren_depth = if paren_depth > 0 { paren_depth - 1 } else { 0 };
        }
        i = i + 1;
    }
    proof {
        lemma_split_start(b, len as int);
        lemma_first_slash_bound(b, len as int);
        if modifier_start > 0 {
            lemma_after_ascii(b, modifier_start - 1);
        }
    }
    let with_important = substr(class_name, modifier_start, len);
    let ghost w = b.subrange(modifier_start as int, len as int);
    let wb = with_important.as_bytes();
    let wl = wb.len();
    let mut has_important = false;
    let mut leading: usize = 0;
    let base_class_name: String;
    if wl > 0 && wb[wl - 1] == 33u8 {
        base_class_name = owned(substr(with_important, 0, wl - 1));
        assert(w.drop_last() =~= w.subrange(0, wl - 1));
        has_important = true;
    } else if wl > 0 && wb[0] == 33u8 {
        proof {
            lemma_after_ascii(w, 0);
        }
        base_class_name = owned(substr(with_important, 1, wl));
        assert(w.drop_first() =~= w.subrange(1, wl as int));
        has_important = true;
        leading = 1;
    } else {
        base_class_name = owned(with_important);
    }
    let maybe_postfix_position = match postfix_modifier_position {
        Some(p) => if p > modifier_start { Some(p - modifier_start - leading) } else { None },
        None => None,
    };
    ParsedClass { modifiers, has_important, base_class_name, maybe_postfix_position, is_external: false }
}

/// Parse a class; with a prefix, only `prefix:`-classes are parsed, any
/// other class is external.
pub fn parse_class_name(class_name: &str, prefix: Option<&str>) -> (r: ParsedClass)
    ensures
        r@ == parse_class_model(class_name@, match prefix { Some(p) => Some(p@), None => None }),
{
    match prefix {
        Some(p) => {
            let full = concat(p, ":");
            let ghost b = enc(class_name@);
            proof {
                lemma_enc_concat(p@, ":"@);
                reveal_strlit(":");
                is_ascii_chars_encode_utf8(":"@);
                assert(enc(":"@) =~= seq![58u8]);
            }
            if starts_with(class_name, full.as_str()) {
                let n = class_name.as_bytes().len();
                let k = full.as_str().as_bytes().len();
                proof {
                    assert(b[k - 1] == enc(full@)[k - 1]);
                    lemma_after_ascii(b, k - 1);
                }
                let rest = substr(class_name, k, n);
                parse_inner(rest)
            } else {
                let r = ParsedClass {
                    modifiers: Vec::new(),
                    has_important: false,
                    base_class_name: owned(class_name),
                    maybe_postfix_position: None,
                    is_external: true,
                };
                assert(encs(r.modifiers@) =~= Seq::<Seq<u8>>::empty());
                r
            }
        },
        None => parse_inner(class_name),
    }
}

proof fn lemma_first_slash_char(b: Seq<u8>, n: int)
    requires
        0 <= n <= b.len(),
    ensures
        first_slash(b, n) matches Some(q) ==> 0 <= q < n && b[q] == '/' as u8,
    decreases n,
{
    if n > 0 {
        lemma_first_slash_char(b, n - 1);
    }
}

/// The base without its postfix: the bytes before the postfix position.
pub open spec fn base_without_postfix_bytes(m: ParsedModel) -> Seq<u8> {
    match m.postfix {
        Some(p) => m.base.subrange(0, p),
        None => m.base,
    }
}

proof fn lemma_parse_model_postfix(b: Seq<u8>)
    requires
        valid_utf8(b),
    ensures
        parse_model(b).postfix matches Some(p) ==> 0 <= p < parse_model(b).base.len() && parse_model(b).base[p] == '/' as u8
            && cut_point(parse_model(b).base, p),
{
    let (mods, start) = split_modifiers(b, b.len() as int);
    lemma_split_start(b, b.len() as int);
    lemma_first_slash_char(b, b.len() as int);
    let w = b.subrange(start, b.len() as int);
    match first_slash(b, b.len() as int) {
        Some(q) => {
            if q > start {
                let p = q - start;
                assert(w[p] == '/' as u8);
                if w.len() > 0 && w.last() == '!' as u8 {
                } else if w.len() > 0 && w[0] == '!' as u8 {
                    if start > 0 {
                        lemma_after_ascii(b, start - 1);
                    }
                    assert(w.drop_first()[p - 1] == w[p]);
                }
            }
        },
        None => {},
    }
}

/// The postfix position of a parsed class is a cut point of its base.
pub proof fn lemma_postfix_cut(class: Seq<char>, prefix: Option<Seq<char>>)
    ensures
        parse_class_model(class, prefix).postfix matches Some(p) ==> 0 <= p < parse_class_model(class, prefix).base.len()
            && parse_class_model(class, prefix).base[p] == '/' as u8
            && cut_point(parse_class_model(class, prefix).base, p),
{
    match prefix {
        Some(pr) => {
            let full = enc(pr + ":"@);
            let b = enc(class);
            if full.is_prefix_of(b) {
                lemma_enc_concat(pr, ":"@);
                reveal_strlit(":");
                is_ascii_chars_encode_utf8(":"@);
                assert(enc(":"@) =~= seq![58u8]);
                assert(b[full.len() - 1] == full[full.len() - 1]);
                lemma_after_ascii(b, full.len() - 1);
                crate::text::lemma_cut_point_boundary(b, full.len() as int);
                valid_utf8_split(b, full.len() as int);
                lemma_parse_model_postfix(b.subrange(full.len() as int, b.len() as int));
            }
        },
        None => {
            lemma_parse_model_postfix(enc(class));
        },
    }
}

impl ParsedClass {
    /// The base name up to the postfix separator.
    pub fn base_without_postfix(&self) -> (r: &str)
        requires
            self.maybe_postfix_position matches Some(p) ==> cut_point(enc(self.base_class_name@), p as int),
        ensures
            enc(r@) == match self.maybe_postfix_position {
                Some(p) => enc(self.base_class_name@).subrange(0, p as int),
                None => enc(self.base_class_name@),
            },
    {
        match self.maybe_postfix_position {
            Some(p) => substr(self.base_class_name.as_str(), 0, p),
            None => self.base_class_name.as_str(),
        }
    }
}


// ---------------------------------------------------------------------------
// Modifier order
// ---------------------------------------------------------------------------

/// Order-sensitive modifiers keep their relative position when sorting.
/// The order-sensitive modifiers: they keep their relative position when
/// modifiers are sorted.
pub open spec fn order_sensitive_names() -> Seq<Seq<char>> {
    seq![
        "*"@, "**"@, "after"@, "backdrop"@, "before"@, "details-content"@, "file"@, "first-letter"@, "first-line"@, "marker"@, "placeholder"@, "selection"@,
    ]
}

/// The order-sensitive modifiers: they keep their relative position when
/// modifiers are sorted.
pub fn order_sensitive_modifiers() -> (r: Vec<&'static str>)
    ensures
        r@.map_values(|s: &str| s@) == order_sensitive_names(),
{
    let mut v: Vec<&'static str> = Vec::new();
    v.push("*");
    v.push("**");
    v.push("after");
    v.push("backdrop");
    v.push("before");
    v.push("details-content");
    v.push("file");
    v.push("first-letter");
    v.push("first-line");
    v.push("marker");
    v.push("placeholder");
    v.push("selection");
    assert(v@.map_values(|s: &str| s@) =~= order_sensitive_names());
    v
}

pub open spec fn spec_is_order_sensitive(m: Seq<char>) -> bool {
    m == "*"@ || m == "**"@ || m == "after"@ || m == "backdrop"@ || m == "before"@ || m == "details-content"@ || m == "file"@ || m == "first-letter"@ || m == "first-line"@ || m == "marker"@ || m == "placeholder"@ || m == "selection"@
}

pub fn is_order_sensitive(m: &str) -> (r: bool)
    ensures
        r == spec_is_order_sensitive(m@),
{
    str_eq(m, "*") || str_eq(m, "**") || str_eq(m, "after") || str_eq(m, "backdrop") || str_eq(m, "before") || str_eq(m, "details-content") || str_eq(m, "file") || str_eq(m, "first-letter") || str_eq(m, "first-line") || str_eq(m, "marker") || str_eq(m, "placeholder") || str_eq(m, "selection")
}

/// A modifier that never moves: arbitrary (`[...]`) or order-sensitive.
pub open spec fn is_anchor(m: Seq<char>) -> bool {
    (enc(m).len() > 0 && enc(m)[0] == '[' as u8) || spec_is_order_sensitive(m)
}

/// A run of modifiers in byte order.
pub open spec fn sort_run(s: Seq<Seq<char>>) -> Seq<Seq<char>> {
    s.sort_by(str_order())
}

/// The modifiers `ms`, with the pending run `cur` in front: every maximal run
/// between anchors is sorted, anchors stay where they are.
pub open spec fn sorted_runs(ms: Seq<Seq<char>>, cur: Seq<Seq<char>>) -> Seq<Seq<char>>
    decreases ms.len(),
{
    if ms.len() == 0 {
        sort_run(cur)
    } else if is_anchor(ms[0]) {
        sort_run(cur) + seq![ms[0]] + sorted_runs(ms.drop_first(), Seq::empty())
    } else {
        sorted_runs(ms.drop_first(), cur.push(ms[0]))
    }
}

pub open spec fn spec_sort_modifiers(ms: Seq<Seq<char>>) -> Seq<Seq<char>> {
    sorted_runs(ms, Seq::empty())
}

/// Sorts the strings with `<[String]>::sort` (std). Claimed: the result is
/// a permutation of the input, ordered by `Ord for String`, which compares
/// the UTF-8 bytes lexicographically.
#[verifier::external_body]
pub(crate) fn sort_strings(v: &mut Vec<String>)
    ensures
        final(v).deep_view().to_multiset() == old(v).deep_view().to_multiset(),
        sorted_by(final(v).deep_view(), str_order()),
{
    v.sort();
}

proof fn lemma_sort_run_unique(s: Seq<Seq<char>>, t: Seq<Seq<char>>)
    requires
        sorted_by(t, str_order()),
        t.to_multiset() == s.to_multiset(),
    ensures
        sort_run(s) == t,
{
    lemma_str_order_total();
    s.lemma_sort_by_ensures(str_order());
    vstd::seq_lib::lemma_sorted_unique(sort_run(s), t, str_order());
}

pub(crate) fn sort_segment(v: &mut Vec<String>)
    ensures
        final(v).deep_view() == sort_run(old(v).deep_view()),
{
    sort_strings(v);
    proof {
        lemma_sort_run_unique(old(v).deep_view(), v.deep_view());
    }
}

fn is_anchor_exec(m: &String) -> (r: bool)
    ensures
        r == is_anchor(m@),
{
    let b = m.as_str().as_bytes();
    (b.len() > 0 && b[0] == 91u8) || is_order_sensitive(m.as_str())
}

/// Sorts modifiers alphabetically while arbitrary (`[...]`) and
/// order-sensitive modifiers keep their positions.
pub fn sort_modifiers(modifiers: &[String]) -> (r: Vec<String>)
    ensures
        r.deep_view() == spec_sort_modifiers(modifiers@.map_values(|s: String| s@)),
{
    let ghost ms = modifiers@.map_values(|s: String| s@);
    let mut result: Vec<String> = Vec::new();
    let mut current: Vec<String> = Vec::new();
    let mut i: usize = 0;
    assert(ms.skip(0) =~= ms);
    assert(current.deep_view() =~= Seq::<Seq<char>>::empty());
    assert(result.deep_view() + sorted_runs(ms, current.deep_view()) =~= sorted_runs(ms, current.deep_view()));
    while i < modifiers.len()
        invariant
            ms == modifiers@.map_values(|s: String| s@),
            0 <= i <= ms.len(),
            spec_sort_modifiers(ms) == result.deep_view() + sorted_runs(ms.skip(i as int), current.deep_view()),
        decreases ms.len() - i,
    {
        let m = &modifiers[i];
        let ghost rest = ms.skip(i as int);
        assert(rest[0] == m@);
        assert(rest.drop_first() =~= ms.skip(i + 1));
        if is_anchor_exec(m) {
            let ghost before = result.deep_view();
            let ghost cur = current.deep_view();
            sort_segment(&mut current);
            let ghost sorted = current.deep_view();
            result.append(&mut current);
            assert(result.deep_view() =~= before + sorted);
            result.push(m.clone());
            assert(result.deep_view() =~= before + sorted + seq![m@]);
            assert(current.deep_view() =~= Seq::<Seq<char>>::empty());
            assert(before + sorted_runs(rest, cur) =~= result.deep_view() + sorted_runs(ms.skip(i + 1), current.deep_view()));
        } else {
            let ghost cur = current.deep_view();
            current.push(m.clone());
            assert(current.deep_view() =~= cur.push(m@));
        }
        i = i + 1;
    }
    assert(ms.skip(i as int) =~= Seq::<Seq<char>>::empty());
    let ghost before = result.deep_view();
    sort_segment(&mut current);
    let ghost sorted = current.deep_view();
    result.append(&mut current);
    assert(result.deep_view() =~= before + sorted);
    result
}

// ---------------------------------------------------------------------------
// Laws of the modifier order
// ---------------------------------------------------------------------------

proof fn lemma_sort_run_props(s: Seq<Seq<char>>)
    ensures
        sort_run(s).to_multiset() == s.to_multiset(),
        sort_run(s).len() == s.len(),
        sorted_by(sort_run(s), str_order()),
        forall|x: Seq<char>| #[trigger] sort_run(s).contains(x) ==> s.contains(x),
{
    broadcast use vstd::seq_lib::group_to_multiset_ensures;
    lemma_str_order_total();
    s.lemma_sort_by_ensures(str_order());
    assert(sort_run(s).to_multiset().len() == s.to_multiset().len());
}

/// Runs with the same elements sort the same.
proof fn lemma_runs_multiset(ms: Seq<Seq<char>>, c1: Seq<Seq<char>>, c2: Seq<Seq<char>>)
    requires
        c1.to_multiset() == c2.to_multiset(),
    ensures
        sorted_runs(ms, c1) == sorted_runs(ms, c2),
    decreases ms.len(),
{
    broadcast use vstd::seq_lib::group_to_multiset_ensures;
    lemma_sort_run_props(c1);
    lemma_sort_run_props(c2);
    if ms.len() == 0 || is_anchor(ms[0]) {
        lemma_sort_run_unique(c1, sort_run(c2));
    } else {
        assert(c1.push(ms[0]).to_multiset() =~= c2.push(ms[0]).to_multiset());
        lemma_runs_multiset(ms.drop_first(), c1.push(ms[0]), c2.push(ms[0]));
    }
}

proof fn lemma_runs_shape(ms: Seq<Seq<char>>, cur: Seq<Seq<char>>)
    ensures
        sorted_runs(ms, cur).len() == cur.len() + ms.len(),
        sorted_runs(ms, cur).to_multiset() == (cur + ms).to_multiset(),
        forall|j: int| 0 <= j < ms.len() && is_anchor(#[trigger] ms[j]) ==> sorted_runs(ms, cur)[cur.len() + j] == ms[j],
    decreases ms.len(),
{
    broadcast use vstd::seq_lib::group_to_multiset_ensures;
    lemma_sort_run_props(cur);
    if ms.len() == 0 {
        assert(cur + ms =~= cur);
    } else {
        let rest = ms.drop_first();
        if is_anchor(ms[0]) {
            lemma_runs_shape(rest, Seq::empty());
            let tail = sorted_runs(rest, Seq::empty());
            let r = sort_run(cur) + seq![ms[0]] + tail;
            assert(Seq::<Seq<char>>::empty() + rest =~= rest);
            vstd::seq_lib::lemma_multiset_commutative(sort_run(cur) + seq![ms[0]], tail);
            vstd::seq_lib::lemma_multiset_commutative(sort_run(cur), seq![ms[0]]);
            vstd::seq_lib::lemma_multiset_commutative(cur + seq![ms[0]], rest);
            vstd::seq_lib::lemma_multiset_commutative(cur, seq![ms[0]]);
            assert(cur + ms =~= cur + seq![ms[0]] + rest);
            assert forall|j: int| 0 <= j < ms.len() && is_anchor(#[trigger] ms[j]) implies r[cur.len() + j] == ms[j] by {
                if j > 0 {
                    assert(rest[j - 1] == ms[j]);
                    assert(r[cur.len() + j] == tail[j - 1]);
                }
            }
        } else {
            lemma_runs_shape(rest, cur.push(ms[0]));
            assert(cur.push(ms[0]) + rest =~= cur + ms);
            assert forall|j: int| 0 <= j < ms.len() && is_anchor(#[trigger] ms[j]) implies sorted_runs(ms, cur)[cur.len() + j] == ms[j] by {
                assert(j > 0);
                assert(rest[j - 1] == ms[j]);
            }
        }
    }
}

/// Sorting modifiers only reorders them, and arbitrary and order-sensitive
/// modifiers stay at their positions.
pub proof fn law_sort_modifiers_permutes_and_keeps_anchors(ms: Seq<Seq<char>>)
    ensures
        spec_sort_modifiers(ms).to_multiset() == ms.to_multiset(),
        spec_sort_modifiers(ms).len() == ms.len(),
        forall|j: int| 0 <= j < ms.len() && is_anchor(#[trigger] ms[j]) ==> spec_sort_modifiers(ms)[j] == ms[j],
{
    lemma_runs_shape(ms, Seq::empty());
    assert(Seq::<Seq<char>>::empty() + ms =~= ms);
}

proof fn lemma_runs_swap(ms: Seq<Seq<char>>, cur: Seq<Seq<char>>, i: int)
    requires
        0 <= i,
        i + 1 < ms.len(),
        !is_anchor(ms[i]),
        !is_anchor(ms[i + 1]),
    ensures
        sorted_runs(ms.update(i, ms[i + 1]).update(i + 1, ms[i]), cur) == sorted_runs(ms, cur),
    decreases ms.len(),
{
    broadcast use vstd::seq_lib::group_to_multiset_ensures;
    let sw = ms.update(i, ms[i + 1]).update(i + 1, ms[i]);
    if i == 0 {
        let rest2 = ms.drop_first().drop_first();
        assert(sw.drop_first().drop_first() =~= rest2);
        assert(sw[0] == ms[1] && sw[1] == ms[0]);
        assert(sw.drop_first()[0] == ms[0]);
        assert(ms.drop_first()[0] == ms[1]);
        assert(cur.push(ms[1]).push(ms[0]).to_multiset() =~= cur.push(ms[0]).push(ms[1]).to_multiset());
        lemma_runs_multiset(rest2, cur.push(ms[1]).push(ms[0]), cur.push(ms[0]).push(ms[1]));
        assert(sorted_runs(sw, cur) == sorted_runs(sw.drop_first(), cur.push(ms[1])));
        assert(sorted_runs(sw.drop_first(), cur.push(ms[1])) == sorted_runs(rest2, cur.push(ms[1]).push(ms[0])));
        assert(sorted_runs(ms, cur) == sorted_runs(ms.drop_first(), cur.push(ms[0])));
        assert(sorted_runs(ms.drop_first(), cur.push(ms[0])) == sorted_runs(rest2, cur.push(ms[0]).push(ms[1])));
    } else {
        assert(sw[0] == ms[0]);
        let r = ms.drop_first();
        assert(sw.drop_first() =~= r.update(i - 1, r[i]).update(i, r[i - 1]));
        if is_anchor(ms[0]) {
            lemma_runs_swap(r, Seq::empty(), i - 1);
        } else {
            lemma_runs_swap(r, cur.push(ms[0]), i - 1);
        }
    }
}

/// Swapping two neighbouring modifiers that are neither arbitrary nor
/// order-sensitive does not change the sorted modifiers: `hover:focus:` and
/// `focus:hover:` are one variant.
pub proof fn law_sort_modifiers_ignores_swaps(ms: Seq<Seq<char>>, i: int)
    requires
        0 <= i,
        i + 1 < ms.len(),
        !is_anchor(ms[i]),
        !is_anchor(ms[i + 1]),
    ensures
        spec_sort_modifiers(ms.update(i, ms[i + 1]).update(i + 1, ms[i])) == spec_sort_modifiers(ms),
{
    lemma_runs_swap(ms, Seq::empty(), i);
}

proof fn lemma_runs_plain_prefix(x: Seq<Seq<char>>, y: Seq<Seq<char>>, cur: Seq<Seq<char>>)
    requires
        forall|j: int| 0 <= j < x.len() ==> !is_anchor(#[trigger] x[j]),
    ensures
        sorted_runs(x + y, cur) == sorted_runs(y, cur + x),
    decreases x.len(),
{
    if x.len() == 0 {
        assert(x + y =~= y);
        assert(cur + x =~= cur);
    } else {
        assert((x + y)[0] == x[0]);
        assert((x + y).drop_first() =~= x.drop_first() + y);
        assert(cur.push(x[0]) + x.drop_first() =~= cur + x);
        lemma_runs_plain_prefix(x.drop_first(), y, cur.push(x[0]));
    }
}

proof fn lemma_runs_idempotent(ms: Seq<Seq<char>>, cur: Seq<Seq<char>>)
    requires
        forall|j: int| 0 <= j < cur.len() ==> !is_anchor(#[trigger] cur[j]),
    ensures
        spec_sort_modifiers(sorted_runs(ms, cur)) == sorted_runs(ms, cur),
    decreases ms.len(),
{
    lemma_sort_run_props(cur);
    let sc = sort_run(cur);
    assert forall|j: int| 0 <= j < sc.len() implies !is_anchor(#[trigger] sc[j]) by {
        assert(sc.contains(sc[j]));
        assert(cur.contains(sc[j]));
        let k = choose|k: int| 0 <= k < cur.len() && cur[k] == sc[j];
        assert(!is_anchor(cur[k]));
    }
    lemma_sort_run_unique(sc, sc);
    if ms.len() == 0 {
        lemma_runs_plain_prefix(sc, Seq::empty(), Seq::empty());
        assert(sc + Seq::<Seq<char>>::empty() =~= sc);
        assert(Seq::<Seq<char>>::empty() + sc =~= sc);
    } else if is_anchor(ms[0]) {
        let tail = sorted_runs(ms.drop_first(), Seq::empty());
        lemma_runs_idempotent(ms.drop_first(), Seq::empty());
        let y = seq![ms[0]] + tail;
        assert(sc + seq![ms[0]] + tail =~= sc + y);
        lemma_runs_plain_prefix(sc, y, Seq::empty());
        assert(Seq::<Seq<char>>::empty() + sc =~= sc);
        assert(y[0] == ms[0]);
        assert(y.drop_first() =~= tail);
    } else {
        assert forall|j: int| 0 <= j < cur.push(ms[0]).len() implies !is_anchor(#[trigger] cur.push(ms[0])[j]) by {
            if j < cur.len() {
                assert(cur.push(ms[0])[j] == cur[j]);
            }
        }
        lemma_runs_idempotent(ms.drop_first(), cur.push(ms[0]));
    }
}

/// Sorting sorted modifiers changes nothing.
pub proof fn law_sort_modifiers_idempotent(ms: Seq<Seq<char>>)
    ensures
        spec_sort_modifiers(spec_sort_modifiers(ms)) == spec_sort_modifiers(ms),
{
    lemma_runs_idempotent(ms, Seq::empty());
}

/// Without arbitrary or order-sensitive modifiers, the order in which the
/// modifiers are written does not matter: any two arrangements of the same
/// modifiers sort the same.
pub proof fn law_sort_modifiers_ignores_order(ms: Seq<Seq<char>>, ms2: Seq<Seq<char>>)
    requires
        forall|j: int| 0 <= j < ms.len() ==> !is_anchor(#[trigger] ms[j]),
        ms2.to_multiset() == ms.to_multiset(),
    ensures
        spec_sort_modifiers(ms2) == spec_sort_modifiers(ms),
{
    broadcast use vstd::seq_lib::group_to_multiset_ensures;
    assert forall|j: int| 0 <= j < ms2.len() implies !is_anchor(#[trigger] ms2[j]) by {
        assert(ms2.to_multiset().count(ms2[j]) > 0);
        assert(ms.contains(ms2[j]));
    }
    lemma_runs_plain_prefix(ms, Seq::empty(), Seq::empty());
    lemma_runs_plain_prefix(ms2, Seq::empty(), Seq::empty());
    assert(ms + Seq::<Seq<char>>::empty() =~= ms);
    assert(ms2 + Seq::<Seq<char>>::empty() =~= ms2);
    assert(Seq::<Seq<char>>::empty() + ms =~= ms);
    assert(Seq::<Seq<char>>::empty() + ms2 =~= ms2);
    lemma_sort_run_props(ms);
    lemma_sort_run_unique(ms2, sort_run(ms));
}

/// The modifiers, each followed by its `:` separator.
pub open spec fn modifier_prefix(mods: Seq<Seq<u8>>) -> Seq<u8>
    decreases mods.len(),
{
    if mods.len() == 0 {
        Seq::empty()
    } else {
        modifier_prefix(mods.drop_last()) + mods.last() + seq![':' as u8]
    }
}

proof fn lemma_split_rebuilds(b: Seq<u8>, n: int)
    requires
        0 <= n <= b.len(),
    ensures
        modifier_prefix(split_modifiers(b, n).0) == b.subrange(0, split_modifiers(b, n).1),
    decreases n,
{
    if n > 0 {
        lemma_split_rebuilds(b, n - 1);
        lemma_split_start(b, n - 1);
        let (m, st) = split_modifiers(b, n - 1);
        if is_separator(b, n - 1) {
            let m2 = m.push(b.subrange(st, n - 1));
            assert(m2.drop_last() =~= m);
            assert(b.subrange(0, st) + b.subrange(st, n - 1) + seq![':' as u8] =~= b.subrange(0, n));
        }
    }
}

/// A class under a prefix: `prefix:rest` parses as `rest` does without a
/// prefix; any other class is external and stays whole, with no modifiers,
/// no important marker and no postfix.
pub proof fn law_parse_under_prefix(p: Seq<char>, class: Seq<char>, rest: Seq<char>)
    ensures
        parse_class_model(p + ":"@ + rest, Some(p)) == parse_class_model(rest, None),
        !enc(p + ":"@).is_prefix_of(enc(class)) ==> parse_class_model(class, Some(p)) == (ParsedModel {
            modifiers: Seq::empty(),
            has_important: false,
            base: enc(class),
            postfix: None,
            is_external: true,
        }),
{
    lemma_enc_concat(p + ":"@, rest);
    let full = enc(p + ":"@);
    let b = enc(p + ":"@ + rest);
    assert(b == full + enc(rest));
    assert(full.is_prefix_of(b)) by {
        assert(b.subrange(0, full.len() as int) =~= full);
    }
    assert(b.subrange(full.len() as int, b.len() as int) =~= enc(rest));
}

/// Parsing loses nothing: without a prefix a class is its modifiers, each
/// followed by `:`, then its base, with the important marker `!` after or
/// before the base exactly when the class is important.
pub proof fn law_parse_rebuilds_class(class: Seq<char>)
    ensures
        !parse_class_model(class, None).is_external,
        !parse_class_model(class, None).has_important ==> enc(class) == modifier_prefix(parse_class_model(class, None).modifiers)
            + parse_class_model(class, None).base,
        parse_class_model(class, None).has_important ==> (
            enc(class) == modifier_prefix(parse_class_model(class, None).modifiers) + parse_class_model(class, None).base + seq!['!' as u8]
            || enc(class) == modifier_prefix(parse_class_model(class, None).modifiers) + seq!['!' as u8] + parse_class_model(class, None).base),
{
    let b = enc(class);
    lemma_split_rebuilds(b, b.len() as int);
    lemma_split_start(b, b.len() as int);
    let (mods, start) = split_modifiers(b, b.len() as int);
    let w = b.subrange(start, b.len() as int);
    assert(b =~= b.subrange(0, start) + w);
    if w.len() > 0 && w.last() == '!' as u8 {
        assert(w =~= w.drop_last() + seq!['!' as u8]);
        assert(b =~= b.subrange(0, start) + w.drop_last() + seq!['!' as u8]);
    } else if w.len() > 0 && w[0] == '!' as u8 {
        assert(w =~= seq!['!' as u8] + w.drop_first());
        assert(b =~= b.subrange(0, start) + seq!['!' as u8] + w.drop_first());
    }
}

/// A modifier is order-sensitive exactly when it is in the list of
/// order-sensitive modifiers.
pub proof fn law_order_sensitive_list(m: Seq<char>)
    ensures
        spec_is_order_sensitive(m) <==> order_sensitive_names().contains(m),
{
    let l = order_sensitive_names();
    if spec_is_order_sensitive(m) {
        if m == "*"@ { assert(l[0] == m); }
        else if m == "**"@ { assert(l[1] == m); }
        else if m == "after"@ { assert(l[2] == m); }
        else if m == "backdrop"@ { assert(l[3] == m); }
        else if m == "before"@ { assert(l[4] == m); }
        else if m == "details-content"@ { assert(l[5] == m); }
        else if m == "file"@ { assert(l[6] == m); }
        else if m == "first-letter"@ { assert(l[7] == m); }
        else if m == "first-line"@ { assert(l[8] == m); }
        else if m == "marker"@ { assert(l[9] == m); }
        else if m == "placeholder"@ { assert(l[10] == m); }
        else { assert(l[11] == m); }
    }
}

} // verus!

verus! {

/// The byte that closes a group opened by `open` (`(` or `[`).
pub open spec fn group_closer(open: u8) -> u8 {
    if open == '(' as u8 { ')' as u8 } else { ']' as u8 }
}

/// Byte `i` lies inside a group: some `(` or `[` before it is not closed
/// before it.
pub open spec fn inside_group(b: Seq<u8>, i: int) -> bool {
    exists|j: int| 0 <= j < i && (b[j] == '(' as u8 || b[j] == '[' as u8)
        && forall|k: int| j < k < i ==> #[trigger] b[k] != group_closer(b[j])
}

proof fn lemma_open_group_depth(b: Seq<u8>, j: int, i: int)
    requires
        0 <= j < i <= b.len(),
        b[j] == '(' as u8 || b[j] == '[' as u8,
        forall|k: int| j < k < i ==> #[trigger] b[k] != group_closer(b[j]),
    ensures
        b[j] == '(' as u8 ==> depths(b, i).1 >= 1,
        b[j] == '[' as u8 ==> depths(b, i).0 >= 1,
    decreases i,
{
    if i > j + 1 {
        lemma_open_group_depth(b, j, i - 1);
        assert(b[i - 1] != group_closer(b[j]));
    }
}

proof fn lemma_first_slash_top_level(b: Seq<u8>, n: int)
    requires
        0 <= n <= b.len(),
    ensures
        first_slash(b, n) matches Some(p) ==> 0 <= p < n && b[p] == '/' as u8 && top_level(b, p),
    decreases n,
{
    if n > 0 {
        lemma_first_slash_top_level(b, n - 1);
    }
}

proof fn lemma_no_separator_no_modifiers(b: Seq<u8>, n: int)
    requires
        0 <= n <= b.len(),
        forall|i: int| 0 <= i < n ==> !is_separator(b, i),
    ensures
        split_modifiers(b, n) == (Seq::<Seq<u8>>::empty(), 0int),
    decreases n,
{
    if n > 0 {
        lemma_no_separator_no_modifiers(b, n - 1);
    }
}

/// A `:` or `/` inside an open `(...)` or `[...]` group is never a
/// separator: it neither ends a modifier nor starts the postfix.
pub proof fn law_nested_separators_are_text(b: Seq<u8>, i: int)
    requires
        0 <= i < b.len(),
        inside_group(b, i),
    ensures
        !is_separator(b, i),
        forall|n: int| 0 <= n <= b.len() ==> first_slash(b, n) != Some(i),
{
    let j = choose|j: int| 0 <= j < i && (b[j] == '(' as u8 || b[j] == '[' as u8)
        && forall|k: int| j < k < i ==> #[trigger] b[k] != group_closer(b[j]);
    lemma_open_group_depth(b, j, i);
    assert forall|n: int| 0 <= n <= b.len() implies first_slash(b, n) != Some(i) by {
        lemma_first_slash_top_level(b, n);
    }
}

/// A class whose every `:` lies inside a `(...)` or `[...]` group, such as
/// `bg-(image:--my-bg)` or `[mask-type:luminance]`, has no modifiers.
pub proof fn law_nested_colons_make_no_modifiers(class: Seq<char>)
    requires
        forall|i: int| 0 <= i < enc(class).len() && enc(class)[i] == ':' as u8 ==> inside_group(enc(class), i),
    ensures
        parse_class_model(class, None).modifiers.len() == 0,
{
    let b = enc(class);
    assert forall|i: int| 0 <= i < b.len() implies !is_separator(b, i) by {
        if b[i] == ':' as u8 {
            law_nested_separators_are_text(b, i);
        }
    }
    lemma_no_separator_no_modifiers(b, b.len() as int);
}


proof fn lemma_flat_depth(b: Seq<u8>, i: int)
    requires
        0 <= i <= b.len(),
        forall|k: int| 0 <= k < i ==> #[trigger] b[k] != '(' as u8 && b[k] != '[' as u8,
    ensures
        depths(b, i) == (0nat, 0nat),
    decreases i,
{
    if i > 0 {
        lemma_flat_depth(b, i - 1);
    }
}

/// A `:` with no `(` or `[` before it separates a modifier, and a `/` there
/// starts the postfix when no earlier one does.
pub proof fn law_plain_separators_split(b: Seq<u8>, i: int)
    requires
        0 <= i < b.len(),
        forall|k: int| 0 <= k < i ==> #[trigger] b[k] != '(' as u8 && b[k] != '[' as u8,
    ensures
        b[i] == ':' as u8 ==> is_separator(b, i),
        b[i] == '/' as u8 && first_slash(b, i) is None ==> first_slash(b, i + 1) == Some(i),
{
    lemma_flat_depth(b, i);
}

} // verus!
