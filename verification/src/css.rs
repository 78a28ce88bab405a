//! Minimal CSS reader. Only the constructs the design system needs are kept:
//! `@theme` custom properties, `@utility` rules with their declarations, and
//! the names of `@variant` / `@custom-variant` declarations. Everything else
//! (selectors, media queries, other at-rules, comments) is skipped.

use vstd::prelude::*;
use vstd::utf8::*;
use crate::text::{enc, cut_point, substr, str_eq, starts_with, owned, trim, trimmed, lemma_after_ascii};

verus! {

broadcast use {vstd::utf8::encode_utf8_valid_utf8, vstd::utf8::encode_utf8_decode_utf8};

// ---------------------------------------------------------------------------
// The reader's meaning, over the UTF-8 bytes of the stylesheet
// ---------------------------------------------------------------------------

/// What a stylesheet declares.
pub struct CssModel {
    pub theme_vars: Seq<(Seq<char>, Seq<char>)>,
    pub utilities: Seq<(Seq<char>, Seq<(Seq<char>, Seq<char>)>)>,
    pub variant_names: Seq<Seq<char>>,
}

pub open spec fn empty_model() -> CssModel {
    CssModel { theme_vars: Seq::empty(), utilities: Seq::empty(), variant_names: Seq::empty() }
}

/// The characters of the bytes `b[s..e]`.
pub open spec fn text(b: Seq<u8>, s: int, e: int) -> Seq<char> {
    decode_utf8(b.subrange(s, e))
}

/// `(c as char).is_whitespace()` for one byte.
pub open spec fn byte_ws(c: u8) -> bool {
    (9 <= c <= 13) || c == 32 || c == 0x85 || c == 0xa0
}

/// `u8::is_ascii_whitespace`.
pub open spec fn ascii_ws(c: u8) -> bool {
    c == 9 || c == 10 || c == 12 || c == 13 || c == 32
}

pub open spec fn is_quote(c: u8) -> bool {
    c == '"' as u8 || c == '\'' as u8
}

pub open spec fn ident_byte(c: u8) -> bool {
    (48 <= c <= 57) || (65 <= c <= 90) || (97 <= c <= 122) || c == '-' as u8 || c == '_' as u8
}

/// Utility names may contain dashes, `*`, `@`, digits and brackets.
pub open spec fn utility_name_byte(c: u8) -> bool {
    ident_byte(c) || c == '*' as u8 || c == '@' as u8 || c == '.' as u8 || c == '%' as u8
        || c == '[' as u8 || c == ']' as u8 || c == '(' as u8 || c == ')' as u8
}

pub open spec fn ws_end(b: Seq<u8>, i: int) -> int
    decreases b.len() - i,
{
    if 0 <= i < b.len() && byte_ws(b[i]) { ws_end(b, i + 1) } else { i }
}

pub open spec fn ident_end(b: Seq<u8>, i: int) -> int
    decreases b.len() - i,
{
    if 0 <= i < b.len() && ident_byte(b[i]) { ident_end(b, i + 1) } else { i }
}

pub open spec fn utility_name_end(b: Seq<u8>, i: int) -> int
    decreases b.len() - i,
{
    if 0 <= i < b.len() && utility_name_byte(b[i]) { utility_name_end(b, i + 1) } else { i }
}

/// The `*` of the first `*/` at or after `j` (or where the search gives up).
pub open spec fn comment_scan(b: Seq<u8>, j: int) -> int
    decreases b.len() - j,
{
    if 0 <= j && j + 1 < b.len() && !(b[j] == '*' as u8 && b[j + 1] == '/' as u8) { comment_scan(b, j + 1) } else { j }
}

/// Just past the comment that opens at `i`.
pub open spec fn comment_end(b: Seq<u8>, i: int) -> int {
    let e = comment_scan(b, i + 2) + 2;
    if e < b.len() { e } else { b.len() as int }
}

/// The closing quote of a string whose body starts at `j` (a backslash
/// escapes the next byte); past the end when the string is not closed.
pub open spec fn quote_end(b: Seq<u8>, j: int, q: u8) -> int
    decreases b.len() + 1 - j,
{
    if 0 <= j < b.len() && b[j] != q {
        if b[j] == '\\' as u8 { quote_end(b, j + 2, q) } else { quote_end(b, j + 1, q) }
    } else {
        j
    }
}

pub proof fn lemma_quote_end(b: Seq<u8>, j: int, q: u8)
    requires
        0 <= j,
    ensures
        j <= quote_end(b, j, q),
        j <= b.len() ==> quote_end(b, j, q) <= b.len() + 1,
        quote_end(b, j, q) < b.len() ==> b[quote_end(b, j, q)] == q,
    decreases b.len() + 1 - j,
{
    if 0 <= j < b.len() && b[j] != q {
        if b[j] == '\\' as u8 { lemma_quote_end(b, j + 2, q) } else { lemma_quote_end(b, j + 1, q) }
    }
}

/// Just past the `}` that closes the block, with `d` levels open.
pub open spec fn block_end(b: Seq<u8>, i: int, d: nat) -> int
    decreases b.len() + 2 - i,
{
    if i < 0 || i >= b.len() {
        i
    } else if b[i] == '{' as u8 {
        block_end(b, i + 1, d + 1)
    } else if b[i] == '}' as u8 {
        if d <= 1 { i + 1 } else { block_end(b, i + 1, (d - 1) as nat) }
    } else if is_quote(b[i]) {
        proof { lemma_quote_end(b, i + 1, b[i]); }
        block_end(b, quote_end(b, i + 1, b[i]) + 1, d)
    } else {
        block_end(b, i + 1, d)
    }
}

pub proof fn lemma_block_end(b: Seq<u8>, i: int, d: nat)
    requires
        0 <= i <= b.len(),
    ensures
        i <= block_end(b, i, d) <= b.len() + 2,
        i < b.len() ==> i < block_end(b, i, d),
        block_end(b, i, d) <= b.len() ==> block_end(b, i, d) == b.len() || (block_end(b, i, d) > 0
            && b[block_end(b, i, d) - 1] == '}' as u8),
    decreases b.len() + 2 - i,
{
    if 0 <= i < b.len() {
        if b[i] == '{' as u8 {
            lemma_block_end(b, i + 1, d + 1);
        } else if b[i] == '}' as u8 {
            if d > 1 {
                lemma_block_end(b, i + 1, (d - 1) as nat);
            }
        } else if is_quote(b[i]) {
            lemma_quote_end(b, i + 1, b[i]);
            let k = quote_end(b, i + 1, b[i]) + 1;
            if k <= b.len() {
                lemma_block_end(b, k, d);
            } else {
                assert(block_end(b, k, d) == k);
            }
            assert(block_end(b, i, d) == block_end(b, k, d));
        } else {
            lemma_block_end(b, i + 1, d);
        }
    }
}

/// Where a skip up to `;` or `{` stops (quoted strings are skipped whole).
pub open spec fn semi_scan(b: Seq<u8>, i: int) -> int
    decreases b.len() + 2 - i,
{
    if 0 <= i < b.len() && b[i] != ';' as u8 && b[i] != '{' as u8 {
        if is_quote(b[i]) {
            proof { lemma_quote_end(b, i + 1, b[i]); }
            semi_scan(b, quote_end(b, i + 1, b[i]) + 1)
        } else {
            semi_scan(b, i + 1)
        }
    } else {
        i
    }
}

/// Skip to the next `;` or `{`; a `;` is consumed.
pub open spec fn semi_end(b: Seq<u8>, i: int) -> int {
    let j = semi_scan(b, i);
    if 0 <= j < b.len() && b[j] == ';' as u8 { j + 1 } else { j }
}

pub proof fn lemma_semi_scan(b: Seq<u8>, i: int)
    requires
        0 <= i <= b.len() + 2,
    ensures
        i <= semi_scan(b, i) <= b.len() + 2,
        semi_scan(b, i) < b.len() ==> (b[semi_scan(b, i)] == ';' as u8 || b[semi_scan(b, i)] == '{' as u8),
    decreases b.len() + 2 - i,
{
    if 0 <= i < b.len() && b[i] != ';' as u8 && b[i] != '{' as u8 {
        if is_quote(b[i]) {
            lemma_quote_end(b, i + 1, b[i]);
            lemma_semi_scan(b, quote_end(b, i + 1, b[i]) + 1);
        } else {
            lemma_semi_scan(b, i + 1);
        }
    }
}

pub proof fn lemma_scan_ends(b: Seq<u8>, i: int)
    requires
        0 <= i,
    ensures
        i <= ws_end(b, i),
        i <= ident_end(b, i),
        i <= utility_name_end(b, i),
        i <= b.len() ==> ws_end(b, i) <= b.len() && ident_end(b, i) <= b.len() && utility_name_end(b, i) <= b.len(),
        i <= b.len() ==> forall|k: int| i <= k < ident_end(b, i) ==> ident_byte(#[trigger] b[k]),
        i <= b.len() ==> forall|k: int| i <= k < utility_name_end(b, i) ==> utility_name_byte(#[trigger] b[k]),
    decreases b.len() - i,
{
    if 0 <= i < b.len() {
        lemma_scan_ends(b, i + 1);
    }
}

pub proof fn lemma_comment_scan(b: Seq<u8>, j: int)
    requires
        0 <= j,
    ensures
        j <= comment_scan(b, j),
    decreases b.len() - j,
{
    if 0 <= j && j + 1 < b.len() && !(b[j] == '*' as u8 && b[j + 1] == '/' as u8) {
        lemma_comment_scan(b, j + 1);
    }
}

// ---------------------------------------------------------------------------
// Declarations
// ---------------------------------------------------------------------------

/// Where a property name ends: at a `:` (comments are skipped) or the end.
pub open spec fn prop_end(d: Seq<u8>, j: int) -> int
    decreases d.len() - j,
{
    if 0 <= j < d.len() && d[j] != ':' as u8 {
        if d[j] == '/' as u8 && j + 1 < d.len() && d[j + 1] == '*' as u8 {
            proof { lemma_comment_scan(d, j + 2); }
            prop_end(d, comment_end(d, j))
        } else {
            prop_end(d, j + 1)
        }
    } else {
        j
    }
}

/// Where a value ends: at a `;` or `}` outside parens and brackets, or the end.
pub open spec fn value_end(d: Seq<u8>, j: int, depth: nat) -> int
    decreases d.len() + 2 - j,
{
    if j < 0 || j >= d.len() {
        j
    } else if d[j] == '(' as u8 || d[j] == '[' as u8 {
        value_end(d, j + 1, depth + 1)
    } else if d[j] == ')' as u8 || d[j] == ']' as u8 {
        value_end(d, j + 1, if depth > 0 { (depth - 1) as nat } else { 0 })
    } else if (d[j] == ';' as u8 || d[j] == '}' as u8) && depth == 0 {
        j
    } else if is_quote(d[j]) {
        proof { lemma_quote_end(d, j + 1, d[j]); }
        value_end(d, quote_end(d, j + 1, d[j]) + 1, depth)
    } else {
        value_end(d, j + 1, depth)
    }
}

/// The declarations of a block, from byte `j` on, after `out`; `None` when
/// an unterminated string runs a value past the end of the block.
pub open spec fn decls_from(d: Seq<u8>, j: int, out: Seq<(Seq<char>, Seq<char>)>) -> Option<Seq<(Seq<char>, Seq<char>)>>
    decreases d.len() + 2 - j,
{
    if j < 0 || j >= d.len() {
        Some(out)
    } else if ascii_ws(d[j]) || d[j] == '{' as u8 || d[j] == '}' as u8 {
        decls_from(d, j + 1, out)
    } else {
        let pe = prop_end(d, j);
        proof { lemma_prop_end(d, j); }
        if pe >= d.len() || d[pe] != ':' as u8 {
            Some(out)
        } else {
            let ve = value_end(d, pe + 1, 0);
            proof { lemma_value_end(d, pe + 1, 0); }
            if ve > d.len() {
                None
            } else {
                let prop = trimmed(text(d, j, pe));
                let value = trimmed(text(d, pe + 1, ve));
                let out2 = if prop.len() > 0 { out.push((prop, value)) } else { out };
                let next = if ve < d.len() && d[ve] == ';' as u8 { ve + 1 } else { ve };
                decls_from(d, next, out2)
            }
        }
    }
}

pub open spec fn decls(d: Seq<u8>) -> Option<Seq<(Seq<char>, Seq<char>)>> {
    decls_from(d, 0, Seq::empty())
}

pub proof fn lemma_prop_end(d: Seq<u8>, j: int)
    requires
        0 <= j <= d.len(),
    ensures
        j <= prop_end(d, j) <= d.len(),
    decreases d.len() - j,
{
    if 0 <= j < d.len() && d[j] != ':' as u8 {
        if d[j] == '/' as u8 && j + 1 < d.len() && d[j + 1] == '*' as u8 {
            lemma_comment_scan(d, j + 2);
            lemma_prop_end(d, comment_end(d, j));
        } else {
            lemma_prop_end(d, j + 1);
        }
    }
}

pub proof fn lemma_value_end(d: Seq<u8>, j: int, depth: nat)
    requires
        0 <= j <= d.len(),
    ensures
        j <= value_end(d, j, depth) <= d.len() + 2,
        value_end(d, j, depth) < d.len() ==> (d[value_end(d, j, depth)] == ';' as u8 || d[value_end(d, j, depth)] == '}' as u8),
    decreases d.len() + 2 - j,
{
    if 0 <= j < d.len() {
        if d[j] == '(' as u8 || d[j] == '[' as u8 {
            lemma_value_end(d, j + 1, depth + 1);
        } else if d[j] == ')' as u8 || d[j] == ']' as u8 {
            lemma_value_end(d, j + 1, if depth > 0 { (depth - 1) as nat } else { 0 });
        } else if (d[j] == ';' as u8 || d[j] == '}' as u8) && depth == 0 {
        } else if is_quote(d[j]) {
            lemma_quote_end(d, j + 1, d[j]);
            let k = quote_end(d, j + 1, d[j]) + 1;
            if k <= d.len() {
                lemma_value_end(d, k, depth);
            }
        } else {
            lemma_value_end(d, j + 1, depth);
        }
    }
}


// ---------------------------------------------------------------------------
// The stylesheet
// ---------------------------------------------------------------------------

/// First index at or after `i` whose key is `k`.
pub open spec fn key_index(vars: Seq<(Seq<char>, Seq<char>)>, k: Seq<char>, i: int) -> Option<int>
    decreases vars.len() - i,
{
    if i < 0 || i >= vars.len() {
        None
    } else if vars[i].0 == k {
        Some(i)
    } else {
        key_index(vars, k, i + 1)
    }
}

/// Map insertion on an association list: a present key gets the new value
/// in place, a new key is appended.
pub open spec fn assoc_insert(vars: Seq<(Seq<char>, Seq<char>)>, k: Seq<char>, v: Seq<char>) -> Seq<(Seq<char>, Seq<char>)> {
    match key_index(vars, k, 0) {
        Some(i) => vars.update(i, (k, v)),
        None => vars.push((k, v)),
    }
}

/// The custom properties (`--name`) of a `@theme` block, added in order.
pub open spec fn theme_add(vars: Seq<(Seq<char>, Seq<char>)>, ds: Seq<(Seq<char>, Seq<char>)>) -> Seq<(Seq<char>, Seq<char>)>
    decreases ds.len(),
{
    if ds.len() == 0 {
        vars
    } else {
        let (p, v) = ds[0];
        let vars2 = if enc("--"@).is_prefix_of(enc(p)) { assoc_insert(vars, p, v) } else { vars };
        theme_add(vars2, ds.drop_first())
    }
}

/// The declarations of the block that opens at `k`, and where it ends.
pub open spec fn block_decls(b: Seq<u8>, k: int) -> Option<(Seq<(Seq<char>, Seq<char>)>, int)> {
    let be = block_end(b, k, 0);
    if be > b.len() {
        None
    } else {
        match decls(enc(text(b, k, be))) {
            Some(ds) => Some((ds, be)),
            None => None,
        }
    }
}

/// An at-rule whose name ends at `i`: the new model and where reading goes on.
pub open spec fn at_rule(b: Seq<u8>, name: Seq<char>, i0: int, m: CssModel) -> Option<(CssModel, int)> {
    let i = ws_end(b, i0);
    if name == "theme"@ {
        let ie = ident_end(b, i);
        let k = if ie > i { ws_end(b, ie) } else { ie };
        if 0 <= k < b.len() && b[k] == '{' as u8 {
            match block_decls(b, k) {
                Some((ds, be)) => Some((CssModel { theme_vars: theme_add(m.theme_vars, ds), ..m }, be)),
                None => None,
            }
        } else {
            Some((m, k))
        }
    } else if name == "utility"@ {
        let ue = utility_name_end(b, i);
        if ue == i {
            let k = semi_end(b, i);
            if 0 <= k < b.len() && b[k] == '{' as u8 { Some((m, block_end(b, k, 0))) } else { Some((m, k)) }
        } else {
            let k = ws_end(b, ue);
            if 0 <= k < b.len() && b[k] == '{' as u8 {
                match block_decls(b, k) {
                    Some((ds, be)) => Some((CssModel { utilities: m.utilities.push((text(b, i, ue), ds)), ..m }, be)),
                    None => None,
                }
            } else {
                Some((m, k))
            }
        }
    } else {
        let ne = ident_end(b, i);
        let m2 = if ne > i { CssModel { variant_names: m.variant_names.push(text(b, i, ne)), ..m } } else { m };
        let k = semi_end(b, ne);
        if 0 <= k < b.len() && b[k] == '{' as u8 { Some((m2, block_end(b, k, 0))) } else { Some((m2, k)) }
    }
}

pub open spec fn kept_at_rule(name: Seq<char>) -> bool {
    name == "theme"@ || name == "utility"@ || name == "variant"@ || name == "custom-variant"@
}

/// Reading from byte `i0` on with `m` read so far; `None` when a declaration
/// block ends inside an unterminated string.
pub open spec fn parse_from(b: Seq<u8>, i0: int, m: CssModel) -> Option<CssModel>
    decreases b.len() + 3 - i0,
{
    if i0 < 0 {
        None
    } else {
        let i = ws_end(b, i0);
        proof { lemma_scan_ends(b, i0); }
        if i >= b.len() {
            Some(m)
        } else if b[i] == '/' as u8 && i + 1 < b.len() && b[i + 1] == '*' as u8 {
            proof { lemma_comment_scan(b, i + 2); }
            parse_from(b, comment_end(b, i), m)
        } else if b[i] == '@' as u8 {
            let ne = ident_end(b, i + 1);
            proof { lemma_scan_ends(b, i + 1); }
            let name = text(b, i + 1, ne);
            if kept_at_rule(name) {
                proof { lemma_at_rule(b, name, ne, m); }
                match at_rule(b, name, ne, m) {
                    Some((m2, k)) => parse_from(b, k, m2),
                    None => None,
                }
            } else {
                let k = ws_end(b, ne);
                proof { lemma_scan_ends(b, ne); }
                if k < b.len() && b[k] == '{' as u8 {
                    proof { lemma_block_end(b, k, 0); }
                    parse_from(b, block_end(b, k, 0), m)
                } else {
                    proof { lemma_semi_scan(b, k); }
                    parse_from(b, semi_end(b, k), m)
                }
            }
        } else if b[i] == '{' as u8 {
            proof { lemma_block_end(b, i, 0); }
            parse_from(b, block_end(b, i, 0), m)
        } else if b[i] == '}' as u8 {
            parse_from(b, i + 1, m)
        } else {
            let k = semi_end(b, i);
            proof { lemma_semi_scan(b, i); }
            if k < b.len() && b[k] == '{' as u8 {
                proof { lemma_block_end(b, k, 0); }
                parse_from(b, block_end(b, k, 0), m)
            } else {
                parse_from(b, k, m)
            }
        }
    }
}

/// What the stylesheet with these bytes declares.
pub open spec fn css_parse(b: Seq<u8>) -> Option<CssModel> {
    parse_from(b, 0, empty_model())
}

pub proof fn lemma_at_rule(b: Seq<u8>, name: Seq<char>, i0: int, m: CssModel)
    requires
        0 <= i0 <= b.len(),
    ensures
        at_rule(b, name, i0, m) matches Some((_, k)) ==> i0 <= k <= b.len() + 2,
{
    let i = ws_end(b, i0);
    lemma_scan_ends(b, i0);
    lemma_scan_ends(b, i);
    let ie = ident_end(b, i);
    lemma_scan_ends(b, ie);
    lemma_semi_scan(b, i);
    let ue = utility_name_end(b, i);
    lemma_scan_ends(b, ue);
    let ne = ident_end(b, i);
    lemma_semi_scan(b, ne);
    let k1 = if ie > i { ws_end(b, ie) } else { ie };
    if 0 <= k1 < b.len() {
        lemma_block_end(b, k1, 0);
    }
    let k2 = semi_end(b, i);
    if 0 <= k2 < b.len() {
        lemma_block_end(b, k2, 0);
    }
    let k3 = ws_end(b, ue);
    if 0 <= k3 < b.len() {
        lemma_block_end(b, k3, 0);
    }
    let k4 = semi_end(b, ne);
    if 0 <= k4 < b.len() {
        lemma_block_end(b, k4, 0);
    }
}


// ---------------------------------------------------------------------------
// The reader
// ---------------------------------------------------------------------------

#[derive(Debug, Clone, Default)]
pub struct CssProgram {
    /// Custom properties found in `@theme` blocks, e.g. `--color-red-500`,
    /// each name once, in the order of first appearance.
    pub theme_vars: Vec<(String, String)>,
    /// `@utility` rules in source order: (name, list of declarations).
    pub utilities: Vec<(String, Vec<(String, String)>)>,
    /// Names of `@variant` / `@custom-variant` declarations.
    pub variant_names: Vec<String>,
}

pub open spec fn pairs(v: Seq<(String, String)>) -> Seq<(Seq<char>, Seq<char>)> {
    v.map_values(|p: (String, String)| (p.0@, p.1@))
}

pub open spec fn rules(v: Seq<(String, Vec<(String, String)>)>) -> Seq<(Seq<char>, Seq<(Seq<char>, Seq<char>)>)> {
    v.map_values(|r: (String, Vec<(String, String)>)| (r.0@, pairs(r.1@)))
}

pub open spec fn names(v: Seq<String>) -> Seq<Seq<char>> {
    v.map_values(|s: String| s@)
}

impl View for CssProgram {
    type V = CssModel;

    open spec fn view(&self) -> CssModel {
        CssModel {
            theme_vars: pairs(self.theme_vars@),
            utilities: rules(self.utilities@),
            variant_names: names(self.variant_names@),
        }
    }
}

impl CssProgram {
    /// The value of a theme custom property.
    pub fn theme_var(&self, key: &str) -> (r: Option<&String>)
        ensures
            r matches Some(v) ==> exists|i: int| 0 <= i < self.theme_vars@.len() && self.theme_vars@[i].0@ == key@
                && self.theme_vars@[i].1 == *v,
            r is None ==> forall|i: int| 0 <= i < self.theme_vars@.len() ==> self.theme_vars@[i].0@ != key@,
    {
        let mut i: usize = 0;
        while i < self.theme_vars.len()
            invariant
                0 <= i <= self.theme_vars@.len(),
                forall|j: int| 0 <= j < i ==> self.theme_vars@[j].0@ != key@,
            decreases self.theme_vars@.len() - i,
        {
            if str_eq(self.theme_vars[i].0.as_str(), key) {
                return Some(&self.theme_vars[i].1);
            }
            i = i + 1;
        }
        None
    }
}

fn skip_ws(b: &[u8], i: usize) -> (r: usize)
    ensures
        r == ws_end(b@, i as int),
{
    let mut j = i;
    while j < b.len() && ((9 <= b[j] && b[j] <= 13) || b[j] == 32u8 || b[j] == 0x85u8 || b[j] == 0xa0u8)
        invariant
            i <= j,
            ws_end(b@, i as int) == ws_end(b@, j as int),
        decreases b@.len() - j,
    {
        j = j + 1;
    }
    j
}

fn skip_comment(b: &[u8], i: usize) -> (r: usize)
    requires
        i + 1 < b@.len(),
        b@.len() + 3 <= usize::MAX,
    ensures
        r == comment_end(b@, i as int),
{
    let mut j = i + 2;
    while j + 1 < b.len() && !(b[j] == 42u8 && b[j + 1] == 47u8)
        invariant
            i + 2 <= j,
            j <= b@.len(),
            b@.len() + 3 <= usize::MAX,
            comment_scan(b@, i + 2) == comment_scan(b@, j as int),
        decreases b@.len() - j,
    {
        j = j + 1;
    }
    if j + 2 < b.len() { j + 2 } else { b.len() }
}

fn skip_string(b: &[u8], j: usize, q: u8) -> (r: usize)
    requires
        j <= b@.len(),
        b@.len() + 3 <= usize::MAX,
    ensures
        r == quote_end(b@, j as int, q),
        j <= r <= b@.len() + 1,
{
    let mut k = j;
    proof { lemma_quote_end(b@, j as int, q); }
    while k < b.len() && b[k] != q
        invariant
            j <= k <= b@.len() + 1,
            b@.len() + 3 <= usize::MAX,
            quote_end(b@, j as int, q) == quote_end(b@, k as int, q),
        decreases b@.len() + 1 - k,
    {
        if b[k] == 92u8 {
            k = k + 1;
        }
        k = k + 1;
    }
    k
}

fn skip_block(b: &[u8], i: usize) -> (r: usize)
    requires
        i < b@.len(),
        b@[i as int] == '{' as u8,
        b@.len() + 3 <= usize::MAX,
    ensures
        r == block_end(b@, i as int, 0),
{
    let mut j = i;
    let mut depth: usize = 0;
    while j < b.len()
        invariant
            i <= j <= b@.len() + 2,
            i < b@.len(),
            b@[i as int] == '{' as u8,
            b@.len() + 3 <= usize::MAX,
            depth <= j,
            depth >= 1 || (j == i && depth == 0),
            block_end(b@, i as int, 0) == block_end(b@, j as int, depth as nat),
        decreases b@.len() + 2 - j,
    {
        let c = b[j];
        if c == 123u8 {
            depth = depth + 1;
        } else if c == 125u8 {
            depth = depth - 1;
            if depth == 0 {
                return j + 1;
            }
        } else if c == 34u8 || c == 39u8 {
            j = skip_string(b, j + 1, c);
        }
        j = j + 1;
    }
    j
}

fn skip_until_semicolon_or_brace(b: &[u8], i: usize) -> (r: usize)
    requires
        i <= b@.len() + 2,
        b@.len() + 3 <= usize::MAX,
    ensures
        r == semi_end(b@, i as int),
{
    let mut j = i;
    proof { lemma_semi_scan(b@, i as int); }
    while j < b.len() && b[j] != 59u8 && b[j] != 123u8
        invariant
            i <= j <= b@.len() + 2,
            b@.len() + 3 <= usize::MAX,
            semi_scan(b@, i as int) == semi_scan(b@, j as int),
        decreases b@.len() + 2 - j,
    {
        if b[j] == 34u8 || b[j] == 39u8 {
            let q = b[j];
            j = skip_string(b, j + 1, q);
        }
        j = j + 1;
    }
    if j < b.len() && b[j] == 59u8 { j + 1 } else { j }
}

/// The text of `s` between two cut points of its bytes.
fn slice_text(s: &str, b: &[u8], start: usize, end: usize) -> (r: String)
    requires
        b@ == enc(s@),
        start <= end <= b@.len(),
        cut_point(b@, start as int),
        cut_point(b@, end as int),
    ensures
        r@ == text(b@, start as int, end as int),
{
    let piece = substr(s, start, end);
    owned(piece)
}

fn read_ident(s: &str, b: &[u8], i: usize) -> (r: (String, usize))
    requires
        b@ == enc(s@),
        i <= b@.len(),
    ensures
        r.1 == ident_end(b@, i as int),
        r.0@ == text(b@, i as int, r.1 as int),
{
    let mut j = i;
    while j < b.len() && ((48 <= b[j] && b[j] <= 57) || (65 <= b[j] && b[j] <= 90) || (97 <= b[j] && b[j] <= 122)
        || b[j] == 45u8 || b[j] == 95u8)
        invariant
            i <= j <= b@.len(),
            ident_end(b@, i as int) == ident_end(b@, j as int),
            forall|k: int| i <= k < j ==> ident_byte(#[trigger] b@[k]),
        decreases b@.len() - j,
    {
        j = j + 1;
    }
    if j == i {
        assert(b@.subrange(i as int, i as int) =~= enc(Seq::<char>::empty()));
        return (String::new(), j);
    }
    proof {
        lemma_after_ascii(b@, j - 1);
        assert(ident_byte(b@[i as int]));
    }
    (slice_text(s, b, i, j), j)
}

fn read_utility_name(s: &str, b: &[u8], i: usize) -> (r: (String, usize))
    requires
        b@ == enc(s@),
        i <= b@.len(),
    ensures
        r.1 == utility_name_end(b@, i as int),
        r.0@ == text(b@, i as int, r.1 as int),
{
    let mut j = i;
    while j < b.len() && ((48 <= b[j] && b[j] <= 57) || (65 <= b[j] && b[j] <= 90) || (97 <= b[j] && b[j] <= 122)
        || b[j] == 45u8 || b[j] == 95u8 || b[j] == 42u8 || b[j] == 64u8 || b[j] == 46u8 || b[j] == 37u8
        || b[j] == 91u8 || b[j] == 93u8 || b[j] == 40u8 || b[j] == 41u8)
        invariant
            i <= j <= b@.len(),
            utility_name_end(b@, i as int) == utility_name_end(b@, j as int),
            forall|k: int| i <= k < j ==> utility_name_byte(#[trigger] b@[k]),
        decreases b@.len() - j,
    {
        j = j + 1;
    }
    if j == i {
        assert(b@.subrange(i as int, i as int) =~= enc(Seq::<char>::empty()));
        return (String::new(), j);
    }
    proof {
        lemma_after_ascii(b@, j - 1);
        assert(utility_name_byte(b@[i as int]));
    }
    (slice_text(s, b, i, j), j)
}

fn scan_prop(d: &[u8], j: usize) -> (r: usize)
    requires
        j <= d@.len(),
        d@.len() + 3 <= usize::MAX,
    ensures
        r == prop_end(d@, j as int),
        j <= r <= d@.len(),
{
    let mut k = j;
    proof { lemma_prop_end(d@, j as int); }
    while k < d.len() && d[k] != 58u8
        invariant
            j <= k <= d@.len(),
            d@.len() + 3 <= usize::MAX,
            prop_end(d@, j as int) == prop_end(d@, k as int),
        decreases d@.len() - k,
    {
        if d[k] == 47u8 && k + 1 < d.len() && d[k + 1] == 42u8 {
            proof { lemma_comment_scan(d@, k + 2); }
            k = skip_comment(d, k);
        } else {
            k = k + 1;
        }
    }
    k
}

fn scan_value(d: &[u8], j: usize) -> (r: usize)
    requires
        j <= d@.len(),
        d@.len() + 3 <= usize::MAX,
    ensures
        r == value_end(d@, j as int, 0),
{
    let mut k = j;
    let mut depth: usize = 0;
    while k < d.len()
        invariant
            j <= k <= d@.len() + 2,
            d@.len() + 3 <= usize::MAX,
            depth <= k,
            value_end(d@, j as int, 0) == value_end(d@, k as int, depth as nat),
        decreases d@.len() + 2 - k,
    {
        let c = d[k];
        if c == 40u8 || c == 91u8 {
            depth = depth + 1;
        } else if c == 41u8 || c == 93u8 {
            depth = if depth > 0 { depth - 1 } else { 0 };
        } else if (c == 59u8 || c == 125u8) && depth == 0 {
            return k;
        } else if c == 34u8 || c == 39u8 {
            k = skip_string(d, k + 1, c);
        }
        k = k + 1;
    }
    k
}

/// The declarations of a `{ ... }` block.
fn parse_declarations(block: &str) -> (r: Option<Vec<(String, String)>>)
    requires
        enc(block@).len() + 3 <= usize::MAX,
    ensures
        r is Some <==> decls(enc(block@)) is Some,
        r matches Some(v) ==> decls(enc(block@)) == Some(pairs(v@)),
{
    let d = block.as_bytes();
    let ghost db = d@;
    let len = d.len();
    let mut out: Vec<(String, String)> = Vec::new();
    let mut j: usize = 0;
    assert(pairs(out@) =~= Seq::<(Seq<char>, Seq<char>)>::empty());
    while j < len
        invariant
            d@ == db,
            db == enc(block@),
            len == db.len(),
            len + 3 <= usize::MAX,
            j <= len,
            cut_point(db, j as int),
            decls(db) == decls_from(db, j as int, pairs(out@)),
        decreases len + 2 - j,
    {
        let c = d[j];
        if c == 9u8 || c == 10u8 || c == 12u8 || c == 13u8 || c == 32u8 || c == 123u8 || c == 125u8 {
            proof { lemma_after_ascii(db, j as int); }
            j = j + 1;
            continue;
        }
        let pe = scan_prop(d, j);
        if pe >= len || d[pe] != 58u8 {
            return Some(out);
        }
        let ve = scan_value(d, pe + 1);
        proof { lemma_value_end(db, pe + 1, 0); }
        if ve > len {
            return None;
        }
        proof {
            lemma_after_ascii(db, pe as int);
            if ve < len {
                assert(db[ve as int] == ';' as u8 || db[ve as int] == '}' as u8);
            }
        }
        let prop = trim(substr(block, j, pe));
        let value = trim(substr(block, pe + 1, ve));
        let ghost before = pairs(out@);
        if !prop.is_empty() {
            out.push((owned(prop), owned(value)));
            assert(pairs(out@) =~= before.push((prop@, value@)));
        }
        if ve < len && d[ve] == 59u8 {
            proof { lemma_after_ascii(db, ve as int); }
            j = ve + 1;
        } else {
            j = ve;
        }
    }
    Some(out)
}

fn read_declaration_block(s: &str, b: &[u8], k: usize) -> (r: Option<(Vec<(String, String)>, usize)>)
    requires
        b@ == enc(s@),
        k < b@.len(),
        b@[k as int] == '{' as u8,
        b@.len() + 3 <= usize::MAX,
    ensures
        r is Some <==> block_decls(b@, k as int) is Some,
        r matches Some((v, e)) ==> block_decls(b@, k as int) == Some((pairs(v@), e as int)),
{
    let be = skip_block(b, k);
    if be > b.len() {
        return None;
    }
    proof {
        lemma_block_end(b@, k as int, 0);
        if be < b@.len() {
            lemma_after_ascii(b@, be - 1);
        }
    }
    let block = substr(s, k, be);
    assert(enc(block@) == enc(text(b@, k as int, be as int)));
    match parse_declarations(block) {
        Some(v) => Some((v, be)),
        None => None,
    }
}

/// Map insertion on the theme's association list.
pub(crate) fn theme_insert(vars: &mut Vec<(String, String)>, k: String, v: String)
    ensures
        pairs(final(vars)@) == assoc_insert(pairs(old(vars)@), k@, v@),
{
    let ghost old_pairs = pairs(vars@);
    let mut i: usize = 0;
    let mut found = false;
    while i < vars.len()
        invariant_except_break
            !found,
            key_index(old_pairs, k@, 0) == key_index(old_pairs, k@, i as int),
        invariant
            pairs(vars@) == old_pairs,
            0 <= i <= vars@.len(),
        ensures
            pairs(vars@) == old_pairs,
            found ==> i < vars@.len() && key_index(old_pairs, k@, 0) == Some(i as int),
            !found ==> key_index(old_pairs, k@, 0) is None,
        decreases vars@.len() - i,
    {
        if str_eq(vars[i].0.as_str(), k.as_str()) {
            assert(old_pairs[i as int].0 == k@);
            found = true;
            break;
        }
        i = i + 1;
    }
    if found {
        vars.set(i, (k, v));
        assert(pairs(vars@) =~= old_pairs.update(i as int, (k@, v@)));
    } else {
        vars.push((k, v));
        assert(pairs(vars@) =~= old_pairs.push((k@, v@)));
    }
}

fn theme_add_all(vars: &mut Vec<(String, String)>, ds: Vec<(String, String)>)
    ensures
        pairs(final(vars)@) == theme_add(pairs(old(vars)@), pairs(ds@)),
{
    let ghost all = pairs(ds@);
    let mut i: usize = 0;
    assert(all.skip(0) =~= all);
    while i < ds.len()
        invariant
            all == pairs(ds@),
            0 <= i <= ds@.len(),
            theme_add(pairs(old(vars)@), all) == theme_add(pairs(vars@), all.skip(i as int)),
        decreases ds@.len() - i,
    {
        let p = ds[i].0.clone();
        let v = ds[i].1.clone();
        assert(all.skip(i as int)[0] == (p@, v@));
        assert(all.skip(i as int).drop_first() =~= all.skip(i + 1));
        if starts_with(p.as_str(), "--") {
            theme_insert(vars, p, v);
        }
        i = i + 1;
    }
    assert(all.skip(i as int) =~= Seq::<(Seq<char>, Seq<char>)>::empty());
}

fn handle_at_rule(prog: CssProgram, name: &str, s: &str, b: &[u8], i0: usize) -> (r: Option<(CssProgram, usize)>)
    requires
        b@ == enc(s@),
        i0 <= b@.len(),
        b@.len() + 3 <= usize::MAX,
    ensures
        r is Some <==> at_rule(b@, name@, i0 as int, prog@) is Some,
        r matches Some((p, k)) ==> at_rule(b@, name@, i0 as int, prog@) == Some((p@, k as int)),
{
    let mut prog = prog;
    let i = skip_ws(b, i0);
    proof { lemma_scan_ends(b@, i0 as int); }
    if str_eq(name, "theme") {
        let (ident, ie) = read_ident(s, b, i);
        proof { lemma_scan_ends(b@, i as int); }
        let k = if ie > i { skip_ws(b, ie) } else { ie };
        proof { lemma_scan_ends(b@, ie as int); }
        if k < b.len() && b[k] == 123u8 {
            match read_declaration_block(s, b, k) {
                Some((ds, be)) => {
                    theme_add_all(&mut prog.theme_vars, ds);
                    Some((prog, be))
                },
                None => None,
            }
        } else {
            Some((prog, k))
        }
    } else if str_eq(name, "utility") {
        let (uname, ue) = read_utility_name(s, b, i);
        proof { lemma_scan_ends(b@, i as int); }
        if ue == i {
            let k = skip_until_semicolon_or_brace(b, i);
            if k < b.len() && b[k] == 123u8 {
                Some((prog, skip_block(b, k)))
            } else {
                Some((prog, k))
            }
        } else {
            let k = skip_ws(b, ue);
            proof { lemma_scan_ends(b@, ue as int); }
            if k < b.len() && b[k] == 123u8 {
                match read_declaration_block(s, b, k) {
                    Some((ds, be)) => {
                        let ghost before = rules(prog.utilities@);
                        prog.utilities.push((uname, ds));
                        assert(rules(prog.utilities@) =~= before.push((text(b@, i as int, ue as int), pairs(ds@))));
                        Some((prog, be))
                    },
                    None => None,
                }
            } else {
                Some((prog, k))
            }
        }
    } else {
        let (vname, ne) = read_ident(s, b, i);
        proof { lemma_scan_ends(b@, i as int); }
        if ne > i {
            let ghost before = names(prog.variant_names@);
            prog.variant_names.push(vname);
            assert(names(prog.variant_names@) =~= before.push(text(b@, i as int, ne as int)));
        }
        let k = skip_until_semicolon_or_brace(b, ne);
        if k < b.len() && b[k] == 123u8 {
            Some((prog, skip_block(b, k)))
        } else {
            Some((prog, k))
        }
    }
}

/// Reads a stylesheet; `None` where a kept declaration block ends inside an
/// unterminated string.
pub fn try_parse(css: &str) -> (r: Option<CssProgram>)
    requires
        enc(css@).len() + 3 <= usize::MAX,
    ensures
        r is Some <==> css_parse(enc(css@)) is Some,
        r matches Some(p) ==> css_parse(enc(css@)) == Some(p@),
{
    let b = css.as_bytes();
    let len = b.len();
    let mut prog = CssProgram { theme_vars: Vec::new(), utilities: Vec::new(), variant_names: Vec::new() };
    assert(prog@ =~= empty_model()) by {
        assert(pairs(prog.theme_vars@) =~= Seq::<(Seq<char>, Seq<char>)>::empty());
        assert(rules(prog.utilities@) =~= Seq::<(Seq<char>, Seq<(Seq<char>, Seq<char>)>)>::empty());
        assert(names(prog.variant_names@) =~= Seq::<Seq<char>>::empty());
    }
    let mut i: usize = 0;
    loop
        invariant
            b@ == enc(css@),
            len == b@.len(),
            len + 3 <= usize::MAX,
            i <= len + 2,
            css_parse(b@) == parse_from(b@, i as int, prog@),
        decreases len + 3 - i,
    {
        let j = skip_ws(b, i);
        proof { lemma_scan_ends(b@, i as int); }
        if j >= len {
            return Some(prog);
        }
        let c = b[j];
        if c == 47u8 && j + 1 < len && b[j + 1] == 42u8 {
            proof { lemma_comment_scan(b@, j + 2); }
            i = skip_comment(b, j);
        } else if c == 64u8 {
            let (name, ne) = read_ident(css, b, j + 1);
            proof { lemma_scan_ends(b@, j + 1); }
            if str_eq(name.as_str(), "theme") || str_eq(name.as_str(), "utility") || str_eq(name.as_str(), "variant")
                || str_eq(name.as_str(), "custom-variant") {
                proof { lemma_at_rule(b@, name@, ne as int, prog@); }
                match handle_at_rule(prog, name.as_str(), css, b, ne) {
                    Some((p, k)) => {
                        prog = p;
                        i = k;
                    },
                    None => {
                        return None;
                    },
                }
            } else {
                let k = skip_ws(b, ne);
                proof { lemma_scan_ends(b@, ne as int); }
                if k < len && b[k] == 123u8 {
                    proof { lemma_block_end(b@, k as int, 0); }
                    i = skip_block(b, k);
                } else {
                    proof { lemma_semi_scan(b@, k as int); }
                    i = skip_until_semicolon_or_brace(b, k);
                }
            }
        } else if c == 123u8 {
            proof { lemma_block_end(b@, j as int, 0); }
            i = skip_block(b, j);
        } else if c == 125u8 {
            i = j + 1;
        } else {
            proof { lemma_semi_scan(b@, j as int); }
            let k = skip_until_semicolon_or_brace(b, j);
            if k < len && b[k] == 123u8 {
                proof { lemma_block_end(b@, k as int, 0); }
                i = skip_block(b, k);
            } else {
                i = k;
            }
        }
    }
}

/// Reads a stylesheet.
pub fn parse(css: &str) -> (r: CssProgram)
    requires
        enc(css@).len() + 3 <= usize::MAX,
        css_parse(enc(css@)) is Some,
    ensures
        css_parse(enc(css@)) == Some(r@),
{
    match try_parse(css) {
        Some(p) => p,
        None => CssProgram { theme_vars: Vec::new(), utilities: Vec::new(), variant_names: Vec::new() },
    }
}

} // verus!
