//! Pattern table: encodes every utility of the design system (keywords,
//! theme-key sets and value grammars from the theme and the `@utility`
//! catalog), so the generated JS can also resolve classes the scanned project
//! never used (tailwind-merge-style heuristics such as `text-1000xl` being a
//! font-size class).

use vstd::prelude::*;
use vstd::relations::{sorted_by, total_ordering};
use crate::text::{enc, lex_le, has_prefix, has_suffix, starts_with, substr, owned, str_eq, str_le, str_le_exec, str_order, lemma_str_order_total, lemma_lex_refl, lemma_lex_antisym, lemma_lex_trans, lemma_lex_total, lemma_enc_injective, ends_with};
use crate::utility::{strs, names_of, DesignSystem, ItemModel, SpecModel, AltModel, CatalogModel, entry_index, SpecItem, ValueSpec, Alternative, items_view, props_view};
use crate::theme::Theme;
use crate::candidate::sort_segment;
use crate::conflict::{increasing, no_repeats, push_unique, sort_ids, lemma_id_set_push, id_set, lemma_increasing_unique, name_index, id_in, make_key_spec, key_ids, register};
use crate::families::{spec_prop_family, prop_family, conflict_edges, spec_conflict_edges};
use crate::candidate::sort_run;
use crate::css::text;

verus! {

broadcast use {vstd::utf8::encode_utf8_valid_utf8, vstd::utf8::encode_utf8_decode_utf8};

/// Spec code for "never matches" (unknown types, `size`, ...).
pub const TYPE_NEVER: usize = 0;
/// Spec code base for keyword items.
pub const KW_OFFSET: usize = 4000;
/// Spec code base for theme-set items.
pub const TH_OFFSET: usize = 5000;

/// Every type a `--value(...)` marker can reference, in code order.
pub open spec fn type_names() -> Seq<Seq<char>> {
    seq![
        "any"@, "number"@, "integer"@, "percentage"@, "fraction"@, "tshirt"@, "length"@, "shadow"@, "image"@, "url"@, "position"@, "ratio"@, "weight"@, "family-name"@, "angle"@, "time"@, "custom-ident"@, "spacing"@, "any-non-arbitrary"@, "a-length"@, "a-number"@, "a-integer"@, "a-percent"@, "a-fraction"@, "a-size"@, "a-position"@, "a-shadow"@, "a-image"@, "a-weight"@, "a-family-name"@, "a-angle"@, "a-time"@, "a-ratio"@, "a-ident"@, "a-url"@, "a-string"@, "a-custom-property"@, "a-function"@, "a-any"@, "v-length"@, "v-number"@, "v-integer"@, "v-percent"@, "v-fraction"@, "v-size"@, "v-position"@, "v-shadow"@, "v-image"@, "v-weight"@, "v-family-name"@, "v-angle"@, "v-time"@, "v-ident"@, "v-url"@, "v-string"@, "v-custom-property"@, "v-any"@,
    ]
}

/// Every type a `--value(...)` marker can reference, in code order.
pub fn types() -> (r: Vec<&'static str>)
    ensures
        r@.map_values(|s: &str| s@) == type_names(),
{
    let mut v: Vec<&'static str> = Vec::new();
    v.push("any");
    v.push("number");
    v.push("integer");
    v.push("percentage");
    v.push("fraction");
    v.push("tshirt");
    v.push("length");
    v.push("shadow");
    v.push("image");
    v.push("url");
    v.push("position");
    v.push("ratio");
    v.push("weight");
    v.push("family-name");
    v.push("angle");
    v.push("time");
    v.push("custom-ident");
    v.push("spacing");
    v.push("any-non-arbitrary");
    v.push("a-length");
    v.push("a-number");
    v.push("a-integer");
    v.push("a-percent");
    v.push("a-fraction");
    v.push("a-size");
    v.push("a-position");
    v.push("a-shadow");
    v.push("a-image");
    v.push("a-weight");
    v.push("a-family-name");
    v.push("a-angle");
    v.push("a-time");
    v.push("a-ratio");
    v.push("a-ident");
    v.push("a-url");
    v.push("a-string");
    v.push("a-custom-property");
    v.push("a-function");
    v.push("a-any");
    v.push("v-length");
    v.push("v-number");
    v.push("v-integer");
    v.push("v-percent");
    v.push("v-fraction");
    v.push("v-size");
    v.push("v-position");
    v.push("v-shadow");
    v.push("v-image");
    v.push("v-weight");
    v.push("v-family-name");
    v.push("v-angle");
    v.push("v-time");
    v.push("v-ident");
    v.push("v-url");
    v.push("v-string");
    v.push("v-custom-property");
    v.push("v-any");
    assert(v@.map_values(|s: &str| s@) =~= type_names());
    v
}

/// Code of a type name: its 1-based position in the list of every type a
/// `--value(...)` marker can reference; `TYPE_NEVER` when unknown.
pub open spec fn type_code_spec(name: Seq<char>) -> nat {
    if name == "any"@ { 1 }
    else if name == "number"@ { 2 }
    else if name == "integer"@ { 3 }
    else if name == "percentage"@ { 4 }
    else if name == "fraction"@ { 5 }
    else if name == "tshirt"@ { 6 }
    else if name == "length"@ { 7 }
    else if name == "shadow"@ { 8 }
    else if name == "image"@ { 9 }
    else if name == "url"@ { 10 }
    else if name == "position"@ { 11 }
    else if name == "ratio"@ { 12 }
    else if name == "weight"@ { 13 }
    else if name == "family-name"@ { 14 }
    else if name == "angle"@ { 15 }
    else if name == "time"@ { 16 }
    else if name == "custom-ident"@ { 17 }
    else if name == "spacing"@ { 18 }
    else if name == "any-non-arbitrary"@ { 19 }
    else if name == "a-length"@ { 20 }
    else if name == "a-number"@ { 21 }
    else if name == "a-integer"@ { 22 }
    else if name == "a-percent"@ { 23 }
    else if name == "a-fraction"@ { 24 }
    else if name == "a-size"@ { 25 }
    else if name == "a-position"@ { 26 }
    else if name == "a-shadow"@ { 27 }
    else if name == "a-image"@ { 28 }
    else if name == "a-weight"@ { 29 }
    else if name == "a-family-name"@ { 30 }
    else if name == "a-angle"@ { 31 }
    else if name == "a-time"@ { 32 }
    else if name == "a-ratio"@ { 33 }
    else if name == "a-ident"@ { 34 }
    else if name == "a-url"@ { 35 }
    else if name == "a-string"@ { 36 }
    else if name == "a-custom-property"@ { 37 }
    else if name == "a-function"@ { 38 }
    else if name == "a-any"@ { 39 }
    else if name == "v-length"@ { 40 }
    else if name == "v-number"@ { 41 }
    else if name == "v-integer"@ { 42 }
    else if name == "v-percent"@ { 43 }
    else if name == "v-fraction"@ { 44 }
    else if name == "v-size"@ { 45 }
    else if name == "v-position"@ { 46 }
    else if name == "v-shadow"@ { 47 }
    else if name == "v-image"@ { 48 }
    else if name == "v-weight"@ { 49 }
    else if name == "v-family-name"@ { 50 }
    else if name == "v-angle"@ { 51 }
    else if name == "v-time"@ { 52 }
    else if name == "v-ident"@ { 53 }
    else if name == "v-url"@ { 54 }
    else if name == "v-string"@ { 55 }
    else if name == "v-custom-property"@ { 56 }
    else if name == "v-any"@ { 57 }
    else { TYPE_NEVER as nat }
}

/// Code of a type name: 1-based index into the type list, `TYPE_NEVER` if unknown.
pub fn type_code(name: &str) -> (r: usize)
    ensures
        r as nat == type_code_spec(name@),
{
    if str_eq(name, "any") { 1 }
    else if str_eq(name, "number") { 2 }
    else if str_eq(name, "integer") { 3 }
    else if str_eq(name, "percentage") { 4 }
    else if str_eq(name, "fraction") { 5 }
    else if str_eq(name, "tshirt") { 6 }
    else if str_eq(name, "length") { 7 }
    else if str_eq(name, "shadow") { 8 }
    else if str_eq(name, "image") { 9 }
    else if str_eq(name, "url") { 10 }
    else if str_eq(name, "position") { 11 }
    else if str_eq(name, "ratio") { 12 }
    else if str_eq(name, "weight") { 13 }
    else if str_eq(name, "family-name") { 14 }
    else if str_eq(name, "angle") { 15 }
    else if str_eq(name, "time") { 16 }
    else if str_eq(name, "custom-ident") { 17 }
    else if str_eq(name, "spacing") { 18 }
    else if str_eq(name, "any-non-arbitrary") { 19 }
    else if str_eq(name, "a-length") { 20 }
    else if str_eq(name, "a-number") { 21 }
    else if str_eq(name, "a-integer") { 22 }
    else if str_eq(name, "a-percent") { 23 }
    else if str_eq(name, "a-fraction") { 24 }
    else if str_eq(name, "a-size") { 25 }
    else if str_eq(name, "a-position") { 26 }
    else if str_eq(name, "a-shadow") { 27 }
    else if str_eq(name, "a-image") { 28 }
    else if str_eq(name, "a-weight") { 29 }
    else if str_eq(name, "a-family-name") { 30 }
    else if str_eq(name, "a-angle") { 31 }
    else if str_eq(name, "a-time") { 32 }
    else if str_eq(name, "a-ratio") { 33 }
    else if str_eq(name, "a-ident") { 34 }
    else if str_eq(name, "a-url") { 35 }
    else if str_eq(name, "a-string") { 36 }
    else if str_eq(name, "a-custom-property") { 37 }
    else if str_eq(name, "a-function") { 38 }
    else if str_eq(name, "a-any") { 39 }
    else if str_eq(name, "v-length") { 40 }
    else if str_eq(name, "v-number") { 41 }
    else if str_eq(name, "v-integer") { 42 }
    else if str_eq(name, "v-percent") { 43 }
    else if str_eq(name, "v-fraction") { 44 }
    else if str_eq(name, "v-size") { 45 }
    else if str_eq(name, "v-position") { 46 }
    else if str_eq(name, "v-shadow") { 47 }
    else if str_eq(name, "v-image") { 48 }
    else if str_eq(name, "v-weight") { 49 }
    else if str_eq(name, "v-family-name") { 50 }
    else if str_eq(name, "v-angle") { 51 }
    else if str_eq(name, "v-time") { 52 }
    else if str_eq(name, "v-ident") { 53 }
    else if str_eq(name, "v-url") { 54 }
    else if str_eq(name, "v-string") { 55 }
    else if str_eq(name, "v-custom-property") { 56 }
    else if str_eq(name, "v-any") { 57 }
    else { TYPE_NEVER }
}

/// Utilities in pattern order: exact names before wildcards; exact names
/// ascending; wildcards by prefix length (longest first), then ascending.
pub open spec fn pattern_le(a: Seq<char>, b: Seq<char>) -> bool {
    let aw = has_suffix(a, "*"@);
    let bw = has_suffix(b, "*"@);
    if !aw && bw {
        true
    } else if aw && !bw {
        false
    } else if aw && bw {
        enc(a).len() > enc(b).len() || (enc(a).len() == enc(b).len() && str_le(a, b))
    } else {
        str_le(a, b)
    }
}

pub open spec fn pattern_order() -> spec_fn(Seq<char>, Seq<char>) -> bool {
    |a: Seq<char>, b: Seq<char>| pattern_le(a, b)
}

pub proof fn lemma_pattern_order_total()
    ensures
        total_ordering(pattern_order()),
{
    let r = pattern_order();
    assert forall|x: Seq<char>| #[trigger] r(x, x) by {
        lemma_lex_refl(enc(x));
    }
    assert forall|x: Seq<char>, y: Seq<char>| #[trigger] r(x, y) && #[trigger] r(y, x) implies x == y by {
        if has_suffix(x, "*"@) == has_suffix(y, "*"@) {
            lemma_lex_antisym(enc(x), enc(y));
            lemma_enc_injective(x, y);
        }
    }
    assert forall|x: Seq<char>, y: Seq<char>, z: Seq<char>| #[trigger] r(x, y) && #[trigger] r(y, z) implies r(x, z) by {
        if lex_le(enc(x), enc(y)) && lex_le(enc(y), enc(z)) {
            lemma_lex_trans(enc(x), enc(y), enc(z));
        }
    }
    assert forall|x: Seq<char>, y: Seq<char>| #[trigger] r(x, y) || #[trigger] r(y, x) by {
        lemma_lex_total(enc(x), enc(y));
    }
}

fn pattern_le_exec(a: &str, b: &str) -> (r: bool)
    ensures
        r == pattern_le(a@, b@),
{
    let aw = ends_with(a, "*");
    let bw = ends_with(b, "*");
    if !aw && bw {
        true
    } else if aw && !bw {
        false
    } else if aw && bw {
        let al = a.as_bytes().len();
        let bl = b.as_bytes().len();
        al > bl || (al == bl && str_le_exec(a, b))
    } else {
        str_le_exec(a, b)
    }
}

/// The names in pattern order (a stable insertion sort).
fn sort_names(v: Vec<String>) -> (r: Vec<String>)
    ensures
        strs(r@) == strs(v@).sort_by(pattern_order()),
{
    broadcast use vstd::seq_lib::group_to_multiset_ensures;
    let ghost sv = strs(v@);
    let mut out: Vec<String> = Vec::new();
    let mut i: usize = 0;
    proof { lemma_pattern_order_total(); }
    assert(strs(out@).to_multiset() =~= sv.subrange(0, 0).to_multiset());
    while i < v.len()
        invariant
            sv == strs(v@),
            0 <= i <= v@.len(),
            total_ordering(pattern_order()),
            sorted_by(strs(out@), pattern_order()),
            strs(out@).to_multiset() == sv.subrange(0, i as int).to_multiset(),
        decreases v@.len() - i,
    {
        let s = &v[i];
        let mut k: usize = 0;
        while k < out.len() && pattern_le_exec(out[k].as_str(), s.as_str())
            invariant
                0 <= k <= out@.len(),
                forall|j: int| 0 <= j < k ==> pattern_le(out@[j]@, s@),
            decreases out@.len() - k,
        {
            k = k + 1;
        }
        let ghost before = strs(out@);
        out.insert(k, s.clone());
        proof {
            assert(strs(out@) =~= before.insert(k as int, s@));
            if k < before.len() {
                assert(!pattern_le(before[k as int], s@));
                assert(pattern_order()(before[k as int], s@) == pattern_le(before[k as int], s@));
                assert(pattern_order()(before[k as int], s@) || pattern_order()(s@, before[k as int]));
                assert(pattern_order()(s@, before[k as int]));
            }
            assert forall|a: int, b: int| 0 <= a < b < strs(out@).len() implies #[trigger] pattern_order()(strs(out@)[a], strs(out@)[b]) by {
                if a < k && b < k {
                    assert(pattern_order()(before[a], before[b]));
                } else if a < k && b == k {
                } else if a < k && b > k {
                    assert(pattern_order()(before[a], before[b - 1]));
                } else if a == k && b > k {
                    if b - 1 > k {
                        assert(pattern_order()(before[k as int], before[b - 1]));
                    }
                } else {
                    assert(pattern_order()(before[a - 1], before[b - 1]));
                }
            }
            assert(sv.subrange(0, i + 1) =~= sv.subrange(0, i as int).push(s@));
            vstd::seq_lib::to_multiset_build(sv.subrange(0, i as int), s@);
            vstd::seq_lib::to_multiset_insert(before, k as int, s@);
        }
        i = i + 1;
    }
    proof {
        assert(sv.subrange(0, i as int) =~= sv);
        sv.lemma_sort_by_ensures(pattern_order());
        vstd::seq_lib::lemma_sorted_unique(strs(out@), sv.sort_by(pattern_order()), pattern_order());
    }
    out
}


// ---------------------------------------------------------------------------
// The table and its model
// ---------------------------------------------------------------------------

/// One resolution alternative of a utility.
pub struct PatternAlt {
    /// Family id of the resolved alternative (also in `conflict_sets[..]`).
    pub family_id: u16,
    /// Index into `PatternTable::conflict_sets`.
    pub conflict_wid: u16,
    /// One spec-code group per `--value(...)` marker: any item of a group
    /// must match, all groups must pass.
    pub groups: Vec<Vec<u16>>,
}

/// One utility. `name` keeps the trailing `*` for wildcards; `wildcard` =
/// name ends with `*`.
pub struct PatternUtility {
    pub name: String,
    pub wildcard: bool,
    pub alts: Vec<PatternAlt>,
}

/// The full pattern table of a design system.
pub struct PatternTable {
    /// Family id -> name (ids in first-seen order).
    pub family_names: Vec<String>,
    /// Deduplicated conflict id lists (wid = index), each increasing.
    pub conflict_sets: Vec<Vec<u16>>,
    /// Every utility with its resolution alternatives.
    pub utilities: Vec<PatternUtility>,
    /// Deduplicated keyword items (code = KW_OFFSET + index).
    pub keywords: Vec<String>,
    /// Deduplicated theme-key sets (code = TH_OFFSET + index).
    pub theme_sets: Vec<Vec<String>>,
    /// CSS property -> family id, for arbitrary-property classes
    /// (`[padding:1rem]` -> `p`), sorted by property.
    pub prop_family: Vec<(String, u16)>,
    pub leading: Option<u16>,
    pub font_size: Option<u16>,
    pub container_type: Option<u16>,
    pub container_named: Option<u16>,
}

pub struct AltModelP {
    pub family_id: u16,
    pub conflict_wid: u16,
    pub groups: Seq<Seq<u16>>,
}

pub struct UtilModelP {
    pub name: Seq<char>,
    pub wildcard: bool,
    pub alts: Seq<AltModelP>,
}

pub struct PatternModel {
    pub family_names: Seq<Seq<char>>,
    pub conflict_sets: Seq<Seq<u16>>,
    pub utilities: Seq<UtilModelP>,
    pub keywords: Seq<Seq<char>>,
    pub theme_sets: Seq<Seq<Seq<char>>>,
    pub prop_family: Seq<(Seq<char>, u16)>,
    pub leading: Option<u16>,
    pub font_size: Option<u16>,
    pub container_type: Option<u16>,
    pub container_named: Option<u16>,
}

pub open spec fn groups_view(v: Seq<Vec<u16>>) -> Seq<Seq<u16>> {
    v.map_values(|g: Vec<u16>| g@)
}

impl View for PatternAlt {
    type V = AltModelP;

    open spec fn view(&self) -> AltModelP {
        AltModelP { family_id: self.family_id, conflict_wid: self.conflict_wid, groups: groups_view(self.groups@) }
    }
}

pub open spec fn alts_view_p(v: Seq<PatternAlt>) -> Seq<AltModelP> {
    v.map_values(|a: PatternAlt| a@)
}

impl View for PatternUtility {
    type V = UtilModelP;

    open spec fn view(&self) -> UtilModelP {
        UtilModelP { name: self.name@, wildcard: self.wildcard, alts: alts_view_p(self.alts@) }
    }
}

pub open spec fn utils_view_p(v: Seq<PatternUtility>) -> Seq<UtilModelP> {
    v.map_values(|u: PatternUtility| u@)
}

pub open spec fn sets_view(v: Seq<Vec<String>>) -> Seq<Seq<Seq<char>>> {
    v.map_values(|s: Vec<String>| strs(s@))
}

pub open spec fn prop_ids_view(v: Seq<(String, u16)>) -> Seq<(Seq<char>, u16)> {
    v.map_values(|p: (String, u16)| (p.0@, p.1))
}

impl View for PatternTable {
    type V = PatternModel;

    open spec fn view(&self) -> PatternModel {
        PatternModel {
            family_names: strs(self.family_names@),
            conflict_sets: groups_view(self.conflict_sets@),
            utilities: utils_view_p(self.utilities@),
            keywords: strs(self.keywords@),
            theme_sets: sets_view(self.theme_sets@),
            prop_family: prop_ids_view(self.prop_family@),
            leading: self.leading,
            font_size: self.font_size,
            container_type: self.container_type,
            container_named: self.container_named,
        }
    }
}

// ---------------------------------------------------------------------------
// Building the table
// ---------------------------------------------------------------------------

/// The ids of a set, in increasing order.
pub open spec fn ascending(s: Set<u16>) -> Seq<u16> {
    choose|q: Seq<u16>| increasing(q) && id_set(q) == s
}

proof fn lemma_ascending(q: Seq<u16>)
    requires
        increasing(q),
    ensures
        ascending(id_set(q)) == q,
{
    let a = ascending(id_set(q));
    assert(increasing(a) && id_set(a) == id_set(q));
    lemma_increasing_unique(a, q);
}

/// The suffixes of the theme keys that start with `prefix`, in theme order.
pub open spec fn theme_suffixes(vars: Seq<(Seq<char>, Seq<char>)>, prefix: Seq<char>) -> Seq<Seq<char>>
    decreases vars.len(),
{
    if vars.len() == 0 {
        Seq::empty()
    } else {
        let r = theme_suffixes(vars.drop_last(), prefix);
        let k = vars.last().0;
        if has_prefix(k, prefix) { r.push(text(enc(k), enc(prefix).len() as int, enc(k).len() as int)) } else { r }
    }
}

/// Runs of equal neighbors reduced to one.
pub open spec fn dedup_adjacent(s: Seq<Seq<char>>) -> Seq<Seq<char>>
    decreases s.len(),
{
    if s.len() == 0 {
        s
    } else {
        let r = dedup_adjacent(s.drop_last());
        if r.len() > 0 && r.last() == s.last() { r } else { r.push(s.last()) }
    }
}

/// The values a theme-key item accepts: sorted suffixes, each once.
pub open spec fn theme_values(vars: Seq<(Seq<char>, Seq<char>)>, prefix: Seq<char>) -> Seq<Seq<char>> {
    dedup_adjacent(sort_run(theme_suffixes(vars, prefix)))
}

/// The state threaded through the build.
pub struct BuildModel {
    pub names: Seq<Seq<char>>,
    pub sets: Seq<Seq<u16>>,
    pub keywords: Seq<Seq<char>>,
    pub prefixes: Seq<Seq<char>>,
    pub theme_sets: Seq<Seq<Seq<char>>>,
    pub utilities: Seq<UtilModelP>,
}

/// Code of one spec item; keywords and theme sets are numbered in order of
/// first use.
pub open spec fn code_of(b: BuildModel, theme: Seq<(Seq<char>, Seq<char>)>, item: ItemModel) -> (BuildModel, u16) {
    match item {
        ItemModel::Keyword(k) => match name_index(b.keywords, k, 0) {
            Some(i) => (b, ((KW_OFFSET + i) % 65536) as u16),
            None => (BuildModel { keywords: b.keywords.push(k), ..b }, ((KW_OFFSET + b.keywords.len()) % 65536) as u16),
        },
        // A `<color>` value is any value, as the matcher checks it.
        ItemModel::Type(t) => (b, type_code_spec(if t == "color"@ { "any"@ } else { t }) as u16),
        ItemModel::ThemeKey(prefix, has_star) => if prefix == "--spacing"@ && !has_star {
            (b, type_code_spec("spacing"@) as u16)
        } else {
            match name_index(b.prefixes, prefix, 0) {
                Some(i) => (b, ((TH_OFFSET + i) % 65536) as u16),
                None => (
                    BuildModel { prefixes: b.prefixes.push(prefix), theme_sets: b.theme_sets.push(theme_values(theme, prefix)), ..b },
                    ((TH_OFFSET + b.prefixes.len()) % 65536) as u16,
                ),
            }
        },
    }
}

pub open spec fn codes_of(b: BuildModel, theme: Seq<(Seq<char>, Seq<char>)>, items: Seq<ItemModel>) -> (BuildModel, Seq<u16>)
    decreases items.len(),
{
    if items.len() == 0 {
        (b, Seq::empty())
    } else {
        let (b1, cs) = codes_of(b, theme, items.drop_last());
        let (b2, c) = code_of(b1, theme, items.last());
        (b2, cs.push(c))
    }
}

/// One code group per marker of an alternative.
pub open spec fn groups_of(b: BuildModel, theme: Seq<(Seq<char>, Seq<char>)>, props: Seq<(Seq<char>, Option<SpecModel>)>) -> (BuildModel, Seq<Seq<u16>>)
    decreases props.len(),
{
    if props.len() == 0 {
        (b, Seq::empty())
    } else {
        let (b1, gs) = groups_of(b, theme, props.drop_last());
        match props.last().1 {
            Some(SpecModel::Items(items)) => {
                let (b2, cs) = codes_of(b1, theme, items);
                (b2, gs.push(cs))
            },
            _ => (b1, gs),
        }
    }
}

/// First index of a conflict list.
pub open spec fn set_index(sets: Seq<Seq<u16>>, c: Seq<u16>, i: int) -> Option<int>
    decreases sets.len() - i,
{
    if i < 0 || i >= sets.len() {
        None
    } else if sets[i] == c {
        Some(i)
    } else {
        set_index(sets, c, i + 1)
    }
}

/// One alternative: its family, its (deduplicated) conflict list, and its
/// code groups.
pub open spec fn alt_pattern(b: BuildModel, theme: Seq<(Seq<char>, Seq<char>)>, a: AltModel) -> (BuildModel, AltModelP) {
    let (n2, key) = make_key_spec(b.names, a.resolved);
    let c = ascending(key.ids);
    let (sets2, wid) = match set_index(b.sets, c, 0) {
        Some(j) => (b.sets, j),
        None => (b.sets.push(c), b.sets.len() as int),
    };
    let (b3, groups) = groups_of(BuildModel { names: n2, sets: sets2, ..b }, theme, a.props);
    (b3, AltModelP { family_id: id_in(n2, a.resolved.family), conflict_wid: (wid % 65536) as u16, groups })
}

pub open spec fn alts_pattern(b: BuildModel, theme: Seq<(Seq<char>, Seq<char>)>, alts: Seq<AltModel>) -> (BuildModel, Seq<AltModelP>)
    decreases alts.len(),
{
    if alts.len() == 0 {
        (b, Seq::empty())
    } else {
        let (b1, ps) = alts_pattern(b, theme, alts.drop_last());
        let (b2, p) = alt_pattern(b1, theme, alts.last());
        (b2, ps.push(p))
    }
}

/// The alternatives of a utility name in the catalog.
pub open spec fn alts_named(cat: Seq<(Seq<char>, Seq<AltModel>)>, name: Seq<char>) -> Seq<AltModel> {
    match entry_index(cat, name, 0) {
        Some(i) => cat[i].1,
        None => Seq::empty(),
    }
}

/// The utilities, in the given order; names without alternatives are left out.
pub open spec fn utils_pattern(b: BuildModel, ds: CatalogModel, names: Seq<Seq<char>>) -> BuildModel
    decreases names.len(),
{
    if names.len() == 0 {
        b
    } else {
        let b1 = utils_pattern(b, ds, names.drop_last());
        let name = names.last();
        let alts = alts_named(ds.utilities, name);
        if alts.len() == 0 {
            b1
        } else {
            let (b2, ps) = alts_pattern(b1, ds.theme, alts);
            BuildModel { utilities: b2.utilities.push(UtilModelP { name, wildcard: has_suffix(name, "*"@), alts: ps }), ..b2 }
        }
    }
}


struct Builder {
    names: Vec<String>,
    sets: Vec<Vec<u16>>,
    keywords: Vec<String>,
    prefixes: Vec<String>,
    theme_sets: Vec<Vec<String>>,
    utilities: Vec<PatternUtility>,
}

impl View for Builder {
    type V = BuildModel;

    closed spec fn view(&self) -> BuildModel {
        BuildModel {
            names: strs(self.names@),
            sets: groups_view(self.sets@),
            keywords: strs(self.keywords@),
            prefixes: strs(self.prefixes@),
            theme_sets: sets_view(self.theme_sets@),
            utilities: utils_view_p(self.utilities@),
        }
    }
}

/// `(base + idx) as u16`, the code of the `idx`-th keyword or theme set.
fn offset_code(base: usize, idx: usize) -> (r: u16)
    requires
        base < 65536,
    ensures
        r == ((base + idx) % 65536) as u16,
{
    let low = (idx % 65536) as u16;
    let b16 = base as u16;
    let r = b16.wrapping_add(low);
    assert((base + idx) % 65536 == (base + idx % 65536) % 65536) by (nonlinear_arith)
        requires base < 65536;
    r
}

fn find_str(v: &Vec<String>, s: &str) -> (r: Option<usize>)
    ensures
        r matches Some(i) ==> name_index(strs(v@), s@, 0) == Some(i as int) && i < v@.len(),
        r is None ==> name_index(strs(v@), s@, 0) is None,
{
    let ghost sv = strs(v@);
    let mut i: usize = 0;
    while i < v.len()
        invariant
            sv == strs(v@),
            0 <= i <= v@.len(),
            name_index(sv, s@, 0) == name_index(sv, s@, i as int),
        decreases v@.len() - i,
    {
        if str_eq(v[i].as_str(), s) {
            assert(sv[i as int] == s@);
            return Some(i);
        }
        i = i + 1;
    }
    None
}

fn same_ids(a: &Vec<u16>, b: &Vec<u16>) -> (r: bool)
    ensures
        r == (a@ == b@),
{
    if a.len() != b.len() {
        return false;
    }
    let mut i: usize = 0;
    while i < a.len()
        invariant
            a@.len() == b@.len(),
            0 <= i <= a@.len(),
            forall|j: int| 0 <= j < i ==> a@[j] == b@[j],
        decreases a@.len() - i,
    {
        if a[i] != b[i] {
            return false;
        }
        i = i + 1;
    }
    assert(a@ =~= b@);
    true
}

fn find_set(sets: &Vec<Vec<u16>>, c: &Vec<u16>) -> (r: Option<usize>)
    ensures
        r matches Some(i) ==> set_index(groups_view(sets@), c@, 0) == Some(i as int) && i < sets@.len(),
        r is None ==> set_index(groups_view(sets@), c@, 0) is None,
{
    let ghost sv = groups_view(sets@);
    let mut i: usize = 0;
    while i < sets.len()
        invariant
            sv == groups_view(sets@),
            0 <= i <= sets@.len(),
            set_index(sv, c@, 0) == set_index(sv, c@, i as int),
        decreases sets@.len() - i,
    {
        if same_ids(&sets[i], c) {
            assert(sv[i as int] == c@);
            return Some(i);
        }
        i = i + 1;
    }
    None
}

fn theme_values_of(theme: &Theme, prefix: &str) -> (r: Vec<String>)
    ensures
        strs(r@) == theme_values(theme@, prefix@),
{
    let ghost tv = theme@;
    let mut values: Vec<String> = Vec::new();
    let mut i: usize = 0;
    let plen = prefix.as_bytes().len();
    assert(tv.subrange(0, 0) =~= Seq::<(Seq<char>, Seq<char>)>::empty());
    while i < theme.vars.len()
        invariant
            tv == theme@,
            plen == enc(prefix@).len(),
            0 <= i <= theme.vars@.len(),
            strs(values@) == theme_suffixes(tv.subrange(0, i as int), prefix@),
        decreases theme.vars@.len() - i,
    {
        let k = theme.vars[i].0.as_str();
        proof {
            assert(tv.subrange(0, i + 1).drop_last() =~= tv.subrange(0, i as int));
            assert(tv.subrange(0, i + 1).last().0 == k@);
        }
        if starts_with(k, prefix) {
            let kl = k.as_bytes().len();
            proof {
                assert(enc(k@).subrange(0, plen as int) =~= enc(prefix@));
                crate::text::lemma_valid_prefix_cut(enc(k@), plen as int);
            }
            let suffix = owned(substr(k, plen, kl));
            let ghost before = strs(values@);
            values.push(suffix);
            assert(strs(values@) =~= before.push(text(enc(k@), plen as int, kl as int)));
        }
        i = i + 1;
    }
    assert(tv.subrange(0, i as int) =~= tv);
    assert(values.deep_view() =~= strs(values@));
    sort_segment(&mut values);
    assert(values.deep_view() =~= strs(values@));
    let ghost sorted = strs(values@);
    let mut out: Vec<String> = Vec::new();
    let mut j: usize = 0;
    assert(sorted.subrange(0, 0) =~= Seq::<Seq<char>>::empty());
    while j < values.len()
        invariant
            sorted == strs(values@),
            0 <= j <= values@.len(),
            strs(out@) == dedup_adjacent(sorted.subrange(0, j as int)),
        decreases values@.len() - j,
    {
        proof {
            assert(sorted.subrange(0, j + 1).drop_last() =~= sorted.subrange(0, j as int));
            assert(sorted.subrange(0, j + 1).last() == values@[j as int]@);
        }
        let n = out.len();
        if n == 0 || !str_eq(out[n - 1].as_str(), values[j].as_str()) {
            let ghost before = strs(out@);
            out.push(values[j].clone());
            assert(strs(out@) =~= before.push(values@[j as int]@));
        } else {
            assert(strs(out@).last() == out@[n - 1]@);
        }
        j = j + 1;
    }
    assert(sorted.subrange(0, j as int) =~= sorted);
    out
}

impl Builder {
    fn code(&mut self, theme: &Theme, item: &SpecItem) -> (r: u16)
        ensures
            (final(self)@, r) == code_of(old(self)@, theme@, item@),
            final(self).names == old(self).names,
            final(self).sets == old(self).sets,
            final(self).utilities == old(self).utilities,
    {
        match item {
            SpecItem::Keyword(k) => {
                match find_str(&self.keywords, k.as_str()) {
                    Some(i) => offset_code(KW_OFFSET, i),
                    None => {
                        let n = self.keywords.len();
                        let ghost before = strs(self.keywords@);
                        self.keywords.push(k.clone());
                        assert(strs(self.keywords@) =~= before.push(k@));
                        offset_code(KW_OFFSET, n)
                    },
                }
            },
            SpecItem::Type(t) => {
                let c = if str_eq(t, "color") { type_code("any") } else { type_code(t) };
                assert(c < 65536);
                c as u16
            },
            SpecItem::ThemeKey { prefix, has_star } => {
                if str_eq(prefix.as_str(), "--spacing") && !*has_star {
                    let c = type_code("spacing");
                    assert(c < 65536);
                    return c as u16;
                }
                match find_str(&self.prefixes, prefix.as_str()) {
                    Some(i) => offset_code(TH_OFFSET, i),
                    None => {
                        let n = self.prefixes.len();
                        let values = theme_values_of(theme, prefix.as_str());
                        let ghost before_p = strs(self.prefixes@);
                        let ghost before_s = sets_view(self.theme_sets@);
                        self.prefixes.push(prefix.clone());
                        let ghost vv = strs(values@);
                        self.theme_sets.push(values);
                        assert(strs(self.prefixes@) =~= before_p.push(prefix@));
                        assert(sets_view(self.theme_sets@) =~= before_s.push(vv));
                        offset_code(TH_OFFSET, n)
                    },
                }
            },
        }
    }

    fn codes(&mut self, theme: &Theme, items: &Vec<SpecItem>) -> (r: Vec<u16>)
        ensures
            (final(self)@, r@) == codes_of(old(self)@, theme@, items_view(items@)),
            final(self).names == old(self).names,
            final(self).sets == old(self).sets,
            final(self).utilities == old(self).utilities,
    {
        let ghost iv = items_view(items@);
        let ghost b0 = self@;
        let mut out: Vec<u16> = Vec::new();
        let mut i: usize = 0;
        assert(iv.subrange(0, 0) =~= Seq::<ItemModel>::empty());
        while i < items.len()
            invariant
                iv == items_view(items@),
                0 <= i <= items@.len(),
                (self@, out@) == codes_of(b0, theme@, iv.subrange(0, i as int)),
                self.names == old(self).names,
                self.sets == old(self).sets,
                self.utilities == old(self).utilities,
            decreases items@.len() - i,
        {
            proof {
                assert(iv.subrange(0, i + 1).drop_last() =~= iv.subrange(0, i as int));
                assert(iv.subrange(0, i + 1).last() == items@[i as int]@);
            }
            let c = self.code(theme, &items[i]);
            out.push(c);
            i = i + 1;
        }
        assert(iv.subrange(0, i as int) =~= iv);
        out
    }

    fn groups(&mut self, theme: &Theme, props: &Vec<(String, Option<ValueSpec>)>) -> (r: Vec<Vec<u16>>)
        ensures
            (final(self)@, groups_view(r@)) == groups_of(old(self)@, theme@, props_view(props@)),
            final(self).names == old(self).names,
            final(self).sets == old(self).sets,
            final(self).utilities == old(self).utilities,
    {
        let ghost pv = props_view(props@);
        let ghost b0 = self@;
        let mut out: Vec<Vec<u16>> = Vec::new();
        let mut i: usize = 0;
        assert(pv.subrange(0, 0) =~= Seq::<(Seq<char>, Option<SpecModel>)>::empty());
        assert(groups_view(out@) =~= Seq::<Seq<u16>>::empty());
        while i < props.len()
            invariant
                pv == props_view(props@),
                0 <= i <= props@.len(),
                (self@, groups_view(out@)) == groups_of(b0, theme@, pv.subrange(0, i as int)),
                self.names == old(self).names,
                self.sets == old(self).sets,
                self.utilities == old(self).utilities,
            decreases props@.len() - i,
        {
            proof {
                assert(pv.subrange(0, i + 1).drop_last() =~= pv.subrange(0, i as int));
                assert(pv.subrange(0, i + 1).last() == pv[i as int]);
            }
            match &props[i].1 {
                Some(ValueSpec::Items(items)) => {
                    assert(pv[i as int].1 == Some(SpecModel::Items(items_view(items@))));
                    let cs = self.codes(theme, items);
                    let ghost before = groups_view(out@);
                    let ghost cv = cs@;
                    out.push(cs);
                    assert(groups_view(out@) =~= before.push(cv));
                },
                Some(ValueSpec::Literal) => {
                    assert(pv[i as int].1 == Some(SpecModel::Literal));
                },
                None => {},
            }
            i = i + 1;
        }
        assert(pv.subrange(0, i as int) =~= pv);
        out
    }

    fn alt(&mut self, theme: &Theme, a: &Alternative) -> (r: PatternAlt)
        ensures
            (final(self)@, r@) == alt_pattern(old(self)@, theme@, a@),
            final(self).utilities == old(self).utilities,
            final(self)@.names.len() >= old(self)@.names.len(),
            final(self)@.sets.len() >= old(self)@.sets.len(),
            (r.family_id as int) < final(self)@.names.len(),
            (r.conflict_wid as int) < final(self)@.sets.len(),
    {
        let ghost b0 = self@;
        let ids = key_ids(&mut self.names, &a.resolved);
        proof {
            lemma_ascending(ids@);
            let n2 = strs(self.names@);
            crate::conflict::lemma_register_all(b0.names, crate::conflict::key_families(a@.resolved));
        }
        let f = crate::conflict::register_name(&mut self.names, a.resolved.family.as_str());
        proof {
            assert(crate::conflict::registered(strs(self.names@), a.resolved.family@));
            crate::conflict::lemma_id_bound(strs(self.names@), a.resolved.family@);
            assert(b0.names.is_prefix_of(strs(self.names@)));
        }
        let wid = match find_set(&self.sets, &ids) {
            Some(j) => j,
            None => {
                let n = self.sets.len();
                let ghost before = groups_view(self.sets@);
                let ghost iv = ids@;
                self.sets.push(ids);
                assert(groups_view(self.sets@) =~= before.push(iv));
                n
            },
        };
        let wid16 = offset_code(0, wid);
        assert(wid16 as int <= wid) by {
            assert((0 + wid) % 65536 <= wid);
        }
        let groups = self.groups(theme, &a.props);
        PatternAlt { family_id: f, conflict_wid: wid16, groups }
    }
}


/// Each property once, in order of first appearance.
pub open spec fn add_props(acc: Seq<Seq<char>>, props: Seq<(Seq<char>, Option<SpecModel>)>) -> Seq<Seq<char>>
    decreases props.len(),
{
    if props.len() == 0 {
        acc
    } else {
        let a = add_props(acc, props.drop_last());
        let p = props.last().0;
        if a.contains(p) { a } else { a.push(p) }
    }
}

pub open spec fn add_alt_props(acc: Seq<Seq<char>>, alts: Seq<AltModel>) -> Seq<Seq<char>>
    decreases alts.len(),
{
    if alts.len() == 0 { acc } else { add_props(add_alt_props(acc, alts.drop_last()), alts.last().props) }
}

pub open spec fn all_props(cat: Seq<(Seq<char>, Seq<AltModel>)>) -> Seq<Seq<char>>
    decreases cat.len(),
{
    if cat.len() == 0 { Seq::empty() } else { add_alt_props(all_props(cat.drop_last()), cat.last().1) }
}

/// The family of each property as an arbitrary property, registered in order.
pub open spec fn prop_families_spec(names: Seq<Seq<char>>, props: Seq<Seq<char>>) -> (Seq<Seq<char>>, Seq<(Seq<char>, u16)>)
    decreases props.len(),
{
    if props.len() == 0 {
        (names, Seq::empty())
    } else {
        let (n1, pf) = prop_families_spec(names, props.drop_last());
        let fam = spec_prop_family(props.last(), "arbitrary-property"@);
        let n2 = register(n1, fam);
        (n2, pf.push((props.last(), id_in(n2, fam))))
    }
}

pub open spec fn opt_id(names: Seq<Seq<char>>, n: Seq<char>) -> Option<u16> {
    match name_index(names, n, 0) {
        Some(i) => Some((i % 65536) as u16),
        None => None,
    }
}

pub open spec fn empty_build() -> BuildModel {
    BuildModel {
        names: Seq::empty(),
        sets: Seq::empty(),
        keywords: Seq::empty(),
        prefixes: Seq::empty(),
        theme_sets: Seq::empty(),
        utilities: Seq::empty(),
    }
}

/// The pattern table of a design system: every utility in pattern order
/// (exact names ascending, then wildcards longest first), the named
/// container family, and the family of every property as an arbitrary
/// property (properties ascending).
pub open spec fn pattern_spec(ds: CatalogModel) -> PatternModel {
    let b = utils_pattern(empty_build(), ds, names_of(ds.utilities).sort_by(pattern_order()));
    let n1 = register(b.names, "container-named"@);
    let (n2, pf) = prop_families_spec(n1, sort_run(all_props(ds.utilities)));
    PatternModel {
        family_names: n2,
        conflict_sets: b.sets,
        utilities: b.utilities,
        keywords: b.keywords,
        theme_sets: b.theme_sets,
        prop_family: pf,
        leading: opt_id(n2, "leading"@),
        font_size: opt_id(n2, "font-size"@),
        container_type: opt_id(n2, "container-type"@),
        container_named: opt_id(n2, "container-named"@),
    }
}

/// Every alternative names a family and a conflict list of the table.
pub open spec fn alts_in_range(us: Seq<UtilModelP>, n: nat, s: nat) -> bool {
    forall|i: int, j: int| 0 <= i < us.len() && 0 <= j < us[i].alts.len() ==> (#[trigger] us[i].alts[j]).family_id < n
        && us[i].alts[j].conflict_wid < s
}

impl PatternTable {
    /// The ids the table refers to exist.
    pub open spec fn wf(&self) -> bool {
        let m = self@;
        &&& alts_in_range(m.utilities, m.family_names.len(), m.conflict_sets.len())
        &&& forall|i: int| 0 <= i < m.prop_family.len() ==> ((#[trigger] m.prop_family[i]).1 as int) < m.family_names.len()
        &&& m.leading matches Some(x) ==> (x as int) < m.family_names.len()
        &&& m.font_size matches Some(x) ==> (x as int) < m.family_names.len()
        &&& m.container_type matches Some(x) ==> (x as int) < m.family_names.len()
        &&& m.container_named matches Some(x) ==> (x as int) < m.family_names.len()
        &&& sets_below(m.conflict_sets, m.family_names.len())
    }
}

/// Every id of every conflict set is below `n`.
pub open spec fn sets_below(sets: Seq<Seq<u16>>, n: nat) -> bool {
    forall|w: int, k: int| 0 <= w < sets.len() && 0 <= k < sets[w].len() ==> (#[trigger] sets[w][k] as int) < n
}

proof fn lemma_opt_id(names: Seq<Seq<char>>, n: Seq<char>)
    ensures
        opt_id(names, n) matches Some(x) ==> (x as int) < names.len(),
{
    crate::conflict::lemma_name_index(names, n, 0);
}

impl Builder {
    fn alts(&mut self, theme: &Theme, alts: &Vec<Alternative>) -> (r: Vec<PatternAlt>)
        requires
            alts_in_range(old(self)@.utilities, old(self)@.names.len(), old(self)@.sets.len()),
        ensures
            (final(self)@, alts_view_p(r@)) == alts_pattern(old(self)@, theme@, crate::utility::alts_view(alts@)),
            final(self).utilities == old(self).utilities,
            alts_in_range(final(self)@.utilities, final(self)@.names.len(), final(self)@.sets.len()),
            forall|j: int| 0 <= j < r@.len() ==> ((#[trigger] r@[j]).family_id as int) < final(self)@.names.len()
                && (r@[j].conflict_wid as int) < final(self)@.sets.len(),
    {
        let ghost av = crate::utility::alts_view(alts@);
        let ghost b0 = self@;
        let mut out: Vec<PatternAlt> = Vec::new();
        let mut i: usize = 0;
        assert(av.subrange(0, 0) =~= Seq::<AltModel>::empty());
        assert(alts_view_p(out@) =~= Seq::<AltModelP>::empty());
        while i < alts.len()
            invariant
                av == crate::utility::alts_view(alts@),
                0 <= i <= alts@.len(),
                (self@, alts_view_p(out@)) == alts_pattern(b0, theme@, av.subrange(0, i as int)),
                self.utilities == old(self).utilities,
                alts_in_range(self@.utilities, self@.names.len(), self@.sets.len()),
                forall|j: int| 0 <= j < out@.len() ==> ((#[trigger] out@[j]).family_id as int) < self@.names.len()
                    && (out@[j].conflict_wid as int) < self@.sets.len(),
            decreases alts@.len() - i,
        {
            proof {
                assert(av.subrange(0, i + 1).drop_last() =~= av.subrange(0, i as int));
                assert(av.subrange(0, i + 1).last() == alts@[i as int]@);
            }
            let ghost nb = self@.names.len();
            let ghost sb = self@.sets.len();
            let a = self.alt(theme, &alts[i]);
            let ghost before = alts_view_p(out@);
            let ghost a_v = a@;
            out.push(a);
            assert(alts_view_p(out@) =~= before.push(a_v));
            i = i + 1;
        }
        assert(av.subrange(0, i as int) =~= av);
        out
    }
}


fn contains_name(v: &Vec<String>, s: &str) -> (r: bool)
    ensures
        r == strs(v@).contains(s@),
{
    let mut i: usize = 0;
    while i < v.len()
        invariant
            0 <= i <= v@.len(),
            forall|j: int| 0 <= j < i ==> v@[j]@ != s@,
        decreases v@.len() - i,
    {
        if str_eq(v[i].as_str(), s) {
            assert(strs(v@)[i as int] == s@);
            return true;
        }
        i = i + 1;
    }
    false
}

/// Every property of the catalog, each once, in order of first appearance.
fn collect_props(ds: &DesignSystem) -> (r: Vec<String>)
    ensures
        strs(r@) == all_props(ds@.utilities),
{
    let ghost cat = ds@.utilities;
    let mut out: Vec<String> = Vec::new();
    let mut u: usize = 0;
    assert(cat.subrange(0, 0) =~= Seq::<(Seq<char>, Seq<AltModel>)>::empty());
    while u < ds.utilities.len()
        invariant
            cat == ds@.utilities,
            0 <= u <= ds.utilities@.len(),
            strs(out@) == all_props(cat.subrange(0, u as int)),
        decreases ds.utilities@.len() - u,
    {
        let alts = &ds.utilities[u].1;
        let ghost av = crate::utility::alts_view(alts@);
        let ghost start = strs(out@);
        let mut a: usize = 0;
        assert(av.subrange(0, 0) =~= Seq::<AltModel>::empty());
        while a < alts.len()
            invariant
                av == crate::utility::alts_view(alts@),
                0 <= a <= alts@.len(),
                strs(out@) == add_alt_props(start, av.subrange(0, a as int)),
            decreases alts@.len() - a,
        {
            let props = &alts[a].props;
            let ghost pv = props_view(props@);
            let ghost mid = strs(out@);
            let mut p: usize = 0;
            assert(pv.subrange(0, 0) =~= Seq::<(Seq<char>, Option<SpecModel>)>::empty());
            while p < props.len()
                invariant
                    pv == props_view(props@),
                    0 <= p <= props@.len(),
                    strs(out@) == add_props(mid, pv.subrange(0, p as int)),
                decreases props@.len() - p,
            {
                proof {
                    assert(pv.subrange(0, p + 1).drop_last() =~= pv.subrange(0, p as int));
                    assert(pv.subrange(0, p + 1).last().0 == props@[p as int].0@);
                }
                if !contains_name(&out, props[p].0.as_str()) {
                    let ghost before = strs(out@);
                    out.push(props[p].0.clone());
                    assert(strs(out@) =~= before.push(props@[p as int].0@));
                }
                p = p + 1;
            }
            proof {
                assert(pv.subrange(0, p as int) =~= pv);
                assert(av.subrange(0, a + 1).drop_last() =~= av.subrange(0, a as int));
                assert(av.subrange(0, a + 1).last().props == pv);
            }
            a = a + 1;
        }
        proof {
            assert(av.subrange(0, a as int) =~= av);
            assert(cat.subrange(0, u + 1).drop_last() =~= cat.subrange(0, u as int));
            assert(cat.subrange(0, u + 1).last().1 == av);
        }
        u = u + 1;
    }
    assert(cat.subrange(0, u as int) =~= cat);
    out
}

fn position_of(names: &Vec<String>, n: &str) -> (r: Option<u16>)
    ensures
        r == opt_id(strs(names@), n@),
{
    match find_str(names, n) {
        Some(i) => Some(offset_code(0, i)),
        None => None,
    }
}

impl PatternTable {
    /// Encode every utility of the design system (see `pattern_spec`).
    pub fn from_design_system(ds: &DesignSystem) -> (r: PatternTable)
        ensures
            r@ == pattern_spec(ds@),
            r.wf(),
    {
        proof { lemma_pattern_sets_below(ds@); }
        let ghost cat = ds@.utilities;
        let mut all_names: Vec<String> = Vec::new();
        let mut i: usize = 0;
        while i < ds.utilities.len()
            invariant
                cat == ds@.utilities,
                0 <= i <= ds.utilities@.len(),
                strs(all_names@) == names_of(cat).subrange(0, i as int),
            decreases ds.utilities@.len() - i,
        {
            let ghost before = strs(all_names@);
            all_names.push(ds.utilities[i].0.clone());
            assert(strs(all_names@) =~= before.push(cat[i as int].0));
            assert(names_of(cat).subrange(0, i + 1) =~= names_of(cat).subrange(0, i as int).push(cat[i as int].0));
            i = i + 1;
        }
        assert(names_of(cat).subrange(0, i as int) =~= names_of(cat));
        let sorted = sort_names(all_names);
        let ghost sv = strs(sorted@);
        let mut b = Builder {
            names: Vec::new(),
            sets: Vec::new(),
            keywords: Vec::new(),
            prefixes: Vec::new(),
            theme_sets: Vec::new(),
            utilities: Vec::new(),
        };
        assert(b@ =~= empty_build()) by {
            assert(strs(b.names@) =~= Seq::<Seq<char>>::empty());
            assert(groups_view(b.sets@) =~= Seq::<Seq<u16>>::empty());
            assert(strs(b.keywords@) =~= Seq::<Seq<char>>::empty());
            assert(strs(b.prefixes@) =~= Seq::<Seq<char>>::empty());
            assert(sets_view(b.theme_sets@) =~= Seq::<Seq<Seq<char>>>::empty());
            assert(utils_view_p(b.utilities@) =~= Seq::<UtilModelP>::empty());
        }
        assert(sv.subrange(0, 0) =~= Seq::<Seq<char>>::empty());
        let mut k: usize = 0;
        while k < sorted.len()
            invariant
                cat == ds@.utilities,
                sv == strs(sorted@),
                0 <= k <= sorted@.len(),
                b@ == utils_pattern(empty_build(), ds@, sv.subrange(0, k as int)),
                alts_in_range(b@.utilities, b@.names.len(), b@.sets.len()),
            decreases sorted@.len() - k,
        {
            let name = &sorted[k];
            proof {
                assert(sv.subrange(0, k + 1).drop_last() =~= sv.subrange(0, k as int));
                assert(sv.subrange(0, k + 1).last() == name@);
            }
            match crate::utility::entry_of(&ds.utilities, name.as_str()) {
                Some(u) => {
                    let alts = &ds.utilities[u].1;
                    assert(alts_named(cat, name@) == crate::utility::alts_view(alts@));
                    if alts.len() > 0 {
                        let pats = b.alts(&ds.theme, alts);
                        let wildcard = ends_with(name.as_str(), "*");
                        let ghost before = utils_view_p(b.utilities@);
                        let ghost pv = alts_view_p(pats@);
                        let ghost nn = b@.names.len();
                        let ghost ss = b@.sets.len();
                        b.utilities.push(PatternUtility { name: name.clone(), wildcard, alts: pats });
                        proof {
                            assert(utils_view_p(b.utilities@) =~= before.push(UtilModelP { name: name@, wildcard, alts: pv }));
                            assert forall|x: int, y: int| 0 <= x < b@.utilities.len() && 0 <= y < b@.utilities[x].alts.len() implies
                                (#[trigger] b@.utilities[x].alts[y]).family_id < nn && b@.utilities[x].alts[y].conflict_wid < ss by {
                                if x < before.len() {
                                    assert(b@.utilities[x] == before[x]);
                                } else {
                                    assert(b@.utilities[x].alts[y] == pats@[y]@);
                                }
                            }
                        }
                    }
                },
                None => {
                    assert(alts_named(cat, name@) =~= Seq::<AltModel>::empty());
                },
            }
            k = k + 1;
        }
        assert(sv.subrange(0, k as int) =~= sv);
        let ghost bm = b@;
        let Builder { names: mut family_names, sets: conflict_sets, keywords, prefixes: _, theme_sets, utilities } = b;
        let _ = crate::conflict::register_name(&mut family_names, "container-named");
        let ghost n1 = strs(family_names@);
        proof {
            crate::conflict::lemma_register(bm.names, "container-named"@);
        }
        let mut props = collect_props(ds);
        assert(props.deep_view() =~= strs(props@));
        sort_segment(&mut props);
        assert(props.deep_view() =~= strs(props@));
        let ghost ps = strs(props@);
        let mut prop_family_ids: Vec<(String, u16)> = Vec::new();
        let mut j: usize = 0;
        assert(ps.subrange(0, 0) =~= Seq::<Seq<char>>::empty());
        assert(prop_ids_view(prop_family_ids@) =~= Seq::<(Seq<char>, u16)>::empty());
        while j < props.len()
            invariant
                ps == strs(props@),
                0 <= j <= props@.len(),
                (strs(family_names@), prop_ids_view(prop_family_ids@)) == prop_families_spec(n1, ps.subrange(0, j as int)),
                n1.is_prefix_of(strs(family_names@)),
                forall|x: int| 0 <= x < prop_family_ids@.len() ==> ((#[trigger] prop_family_ids@[x]).1 as int) < family_names@.len(),
            decreases props@.len() - j,
        {
            proof {
                assert(ps.subrange(0, j + 1).drop_last() =~= ps.subrange(0, j as int));
                assert(ps.subrange(0, j + 1).last() == props@[j as int]@);
            }
            let fam = prop_family(props[j].as_str(), "arbitrary-property");
            let ghost before_names = strs(family_names@);
            let id = crate::conflict::register_name(&mut family_names, fam.as_str());
            proof {
                crate::conflict::lemma_register(before_names, fam@);
                crate::conflict::lemma_id_bound(strs(family_names@), fam@);
            }
            let ghost before = prop_ids_view(prop_family_ids@);
            prop_family_ids.push((props[j].clone(), id));
            assert(prop_ids_view(prop_family_ids@) =~= before.push((props@[j as int]@, id)));
            j = j + 1;
        }
        assert(ps.subrange(0, j as int) =~= ps);
        let leading = position_of(&family_names, "leading");
        let font_size = position_of(&family_names, "font-size");
        let container_type = position_of(&family_names, "container-type");
        let container_named = position_of(&family_names, "container-named");
        proof {
            let nf = strs(family_names@);
            lemma_opt_id(nf, "leading"@);
            lemma_opt_id(nf, "font-size"@);
            lemma_opt_id(nf, "container-type"@);
            lemma_opt_id(nf, "container-named"@);
        }
        let r = PatternTable {
            family_names,
            conflict_sets,
            utilities,
            keywords,
            theme_sets,
            prop_family: prop_family_ids,
            leading,
            font_size,
            container_type,
            container_named,
        };
        proof {
            assert(r@.family_names.len() >= bm.names.len());
            assert forall|x: int, y: int| 0 <= x < r@.utilities.len() && 0 <= y < r@.utilities[x].alts.len() implies
                (#[trigger] r@.utilities[x].alts[y]).family_id < r@.family_names.len() && r@.utilities[x].alts[y].conflict_wid < r@.conflict_sets.len() by {
                assert(bm.utilities[x].alts[y] == r@.utilities[x].alts[y]);
            }
            assert forall|x: int| 0 <= x < r@.prop_family.len() implies ((#[trigger] r@.prop_family[x]).1 as int) < r@.family_names.len() by {
                assert(r@.prop_family[x].1 == r.prop_family@[x].1);
            }
        }
        r
    }
}


// ---------------------------------------------------------------------------
// Per-family conflict lists
// ---------------------------------------------------------------------------

pub open spec fn add_alt_sets(out: Seq<Set<u16>>, sets: Seq<Seq<u16>>, alts: Seq<AltModelP>) -> Seq<Set<u16>>
    decreases alts.len(),
{
    if alts.len() == 0 {
        out
    } else {
        let o = add_alt_sets(out, sets, alts.drop_last());
        let f = alts.last().family_id as int;
        if f < o.len() { o.update(f, o[f].union(id_set(sets[alts.last().conflict_wid as int]))) } else { o }
    }
}

pub open spec fn add_util_sets(out: Seq<Set<u16>>, sets: Seq<Seq<u16>>, us: Seq<UtilModelP>) -> Seq<Set<u16>>
    decreases us.len(),
{
    if us.len() == 0 { out } else { add_alt_sets(add_util_sets(out, sets, us.drop_last()), sets, us.last().alts) }
}

/// `x` added to the list of `f` when both exist.
pub open spec fn add_one(out: Seq<Set<u16>>, f: Option<u16>, x: Option<u16>) -> Seq<Set<u16>> {
    match (f, x) {
        (Some(a), Some(b)) => if (a as int) < out.len() { out.update(a as int, out[a as int].insert(b)) } else { out },
        _ => out,
    }
}

/// The ids of the known targets of a family's directed edges.
pub open spec fn edge_ids(names: Seq<Seq<char>>, fam: Seq<char>) -> Set<u16> {
    Set::new(|id: u16| exists|k: int| 0 <= k < spec_conflict_edges(fam).len() && opt_id(names, #[trigger] spec_conflict_edges(fam)[k]) == Some(id))
}

pub open spec fn add_prop_edges(out: Seq<Set<u16>>, names: Seq<Seq<char>>, pf: Seq<(Seq<char>, u16)>) -> Seq<Set<u16>>
    decreases pf.len(),
{
    if pf.len() == 0 {
        out
    } else {
        let o = add_prop_edges(out, names, pf.drop_last());
        let f = pf.last().1 as int;
        if f < o.len() { o.update(f, o[f].union(edge_ids(names, names[f]))) } else { o }
    }
}

/// Per-family conflict sets: the family itself, the conflict lists of all
/// its alternatives, `leading` for `font-size`, `container-type` for
/// `container-named`, and the known edge targets of arbitrary-property
/// families.
pub open spec fn pattern_conflict_sets(t: PatternModel) -> Seq<Set<u16>> {
    let init = Seq::new(t.family_names.len(), |f: int| set![(f % 65536) as u16]);
    let s1 = add_util_sets(init, t.conflict_sets, t.utilities);
    let s2 = add_one(s1, t.font_size, t.leading);
    let s3 = add_one(s2, t.container_named, t.container_type);
    add_prop_edges(s3, t.family_names, t.prop_family)
}

/// Adds `ids` to the list of family `f`.
fn add_ids(out: &mut Vec<Vec<u16>>, f: usize, ids: &Vec<u16>)
    requires
        f < old(out)@.len(),
        no_repeats(old(out)@[f as int]@),
    ensures
        final(out)@.len() == old(out)@.len(),
        forall|g: int| 0 <= g < final(out)@.len() && g != f ==> (#[trigger] final(out)@[g]) == old(out)@[g],
        no_repeats(final(out)@[f as int]@),
        id_set(final(out)@[f as int]@) == id_set(old(out)@[f as int]@).union(id_set(ids@)),
{
    let mut target = out[f].clone();
    assert(target@ == out@[f as int]@);
    let ghost start = target@;
    let mut k: usize = 0;
    while k < ids.len()
        invariant
            0 <= k <= ids@.len(),
            no_repeats(target@),
            id_set(target@) == id_set(start).union(id_set(ids@.subrange(0, k as int))),
        decreases ids@.len() - k,
    {
        let id = ids[k];
        push_unique(&mut target, id);
        proof {
            assert(ids@.subrange(0, k + 1) =~= ids@.subrange(0, k as int).push(id));
            lemma_id_set_push(ids@.subrange(0, k as int), id);
            assert(id_set(target@) =~= id_set(start).union(id_set(ids@.subrange(0, k + 1))));
        }
        k = k + 1;
    }
    assert(ids@.subrange(0, k as int) =~= ids@);
    out.set(f, target);
}

impl PatternTable {
    /// Per-family conflict id lists for JS generation: the union of the
    /// conflict lists of every alternative of the family, in increasing
    /// order, plus the postfix-special contributions (see
    /// `pattern_conflict_sets`).
    pub fn family_conflicts(&self) -> (r: Vec<Vec<u16>>)
        requires
            self.wf(),
        ensures
            r@.len() == self@.family_names.len(),
            forall|f: int| 0 <= f < r@.len() ==> increasing((#[trigger] r@[f])@)
                && id_set(r@[f]@) == pattern_conflict_sets(self@)[f],
            forall|f: int, k: int| 0 <= f < r@.len() && 0 <= k < r@[f]@.len() ==> (#[trigger] r@[f]@[k] as int) < r@.len(),
    {
        let ghost t = self@;
        let n = self.family_names.len();
        let mut out: Vec<Vec<u16>> = Vec::new();
        let mut f: usize = 0;
        while f < n
            invariant
                n == self.family_names@.len(),
                0 <= f <= n,
                out@.len() == f,
                forall|g: int| 0 <= g < f ==> (#[trigger] out@[g])@ == seq![(g % 65536) as u16],
            decreases n - f,
        {
            proof { crate::conflict::lemma_u16_cast(f); }
            out.push(vec![f as u16]);
            f = f + 1;
        }
        let ghost init = Seq::new(t.family_names.len(), |g: int| set![(g % 65536) as u16]);
        assert forall|g: int| 0 <= g < out@.len() implies no_repeats((#[trigger] out@[g])@) && id_set(out@[g]@) == init[g] by {
            assert(id_set(out@[g]@) =~= init[g]) by {
                assert(out@[g]@[0] == (g % 65536) as u16);
            }
        }
        let ghost us = t.utilities;
        let mut u: usize = 0;
        assert(us.subrange(0, 0) =~= Seq::<UtilModelP>::empty());
        while u < self.utilities.len()
            invariant
                t == self@,
                us == t.utilities,
                self.wf(),
                init.len() == n,
                out@.len() == n,
                n == t.family_names.len(),
                0 <= u <= self.utilities@.len(),
                forall|g: int| 0 <= g < out@.len() ==> no_repeats((#[trigger] out@[g])@) && id_set(out@[g]@) == add_util_sets(init, t.conflict_sets, us.subrange(0, u as int))[g],
            decreases self.utilities@.len() - u,
        {
            let alts = &self.utilities[u].alts;
            let ghost av = alts_view_p(alts@);
            let ghost s0 = add_util_sets(init, t.conflict_sets, us.subrange(0, u as int));
            let mut a: usize = 0;
            proof {
                assert(us[u as int].alts == av);
                assert(av.subrange(0, 0) =~= Seq::<AltModelP>::empty());
                lemma_add_util_sets_len(init, t.conflict_sets, us.subrange(0, u as int));
                assert(init.len() == n);
                assert(s0.len() == n);
                assert(add_alt_sets(s0, t.conflict_sets, av.subrange(0, 0)) == s0);
            }
            while a < alts.len()
                invariant
                    t == self@,
                    self.wf(),
                    av == alts_view_p(alts@),
                    av == t.utilities[u as int].alts,
                    (u as int) < t.utilities.len(),
                    out@.len() == n,
                    n == t.family_names.len(),
                    0 <= a <= alts@.len(),
                    forall|g: int| 0 <= g < out@.len() ==> no_repeats((#[trigger] out@[g])@) && id_set(out@[g]@) == add_alt_sets(s0, t.conflict_sets, av.subrange(0, a as int))[g],
                    add_alt_sets(s0, t.conflict_sets, av.subrange(0, a as int)).len() == n,
                decreases alts@.len() - a,
            {
                let fid = alts[a].family_id as usize;
                let wid = alts[a].conflict_wid as usize;
                proof {
                    assert(t.utilities[u as int].alts[a as int] == av[a as int]);
                    assert(av[a as int].family_id < t.family_names.len());
                    assert(av[a as int].conflict_wid < t.conflict_sets.len());
                    assert(av.subrange(0, a + 1).drop_last() =~= av.subrange(0, a as int));
                    assert(av.subrange(0, a + 1).last() == av[a as int]);
                    assert(t.conflict_sets[wid as int] == self.conflict_sets@[wid as int]@);
                }
                let ghost prev = add_alt_sets(s0, t.conflict_sets, av.subrange(0, a as int));
                let ghost old_out = out@;
                add_ids(&mut out, fid, &self.conflict_sets[wid]);
                proof {
                    assert forall|g: int| 0 <= g < out@.len() implies no_repeats((#[trigger] out@[g])@) && id_set(out@[g]@) == add_alt_sets(s0, t.conflict_sets, av.subrange(0, a + 1))[g] by {
                        if g != fid as int {
                            assert(out@[g] == old_out[g]);
                        }
                    }
                }
                a = a + 1;
            }
            proof {
                assert(av.subrange(0, a as int) =~= av);
                assert(us.subrange(0, u + 1).drop_last() =~= us.subrange(0, u as int));
                assert(us.subrange(0, u + 1).last().alts == av);
            }
            u = u + 1;
        }
        assert(us.subrange(0, u as int) =~= us);
        let ghost s1 = add_util_sets(init, t.conflict_sets, us);
        proof { lemma_add_util_sets_len(init, t.conflict_sets, us); }
        match (self.font_size, self.leading) {
            (Some(fs), Some(ld)) => {
                let ghost old_out = out@;
                add_ids(&mut out, fs as usize, &vec![ld]);
                proof {
                    lemma_id_set_single(ld);
                    assert forall|g: int| 0 <= g < out@.len() implies no_repeats((#[trigger] out@[g])@) && id_set(out@[g]@) == add_one(s1, t.font_size, t.leading)[g] by {
                        if g != fs as int {
                            assert(out@[g] == old_out[g]);
                        } else {
                            assert(id_set(out@[g]@) =~= s1[g].insert(ld));
                        }
                    }
                }
            },
            _ => {},
        }
        let ghost s2 = add_one(s1, t.font_size, t.leading);
        match (self.container_named, self.container_type) {
            (Some(cn), Some(ct)) => {
                let ghost old_out = out@;
                add_ids(&mut out, cn as usize, &vec![ct]);
                proof {
                    lemma_id_set_single(ct);
                    assert forall|g: int| 0 <= g < out@.len() implies no_repeats((#[trigger] out@[g])@) && id_set(out@[g]@) == add_one(s2, t.container_named, t.container_type)[g] by {
                        if g != cn as int {
                            assert(out@[g] == old_out[g]);
                        } else {
                            assert(id_set(out@[g]@) =~= s2[g].insert(ct));
                        }
                    }
                }
            },
            _ => {},
        }
        let ghost s3 = add_one(s2, t.container_named, t.container_type);
        let ghost pf = t.prop_family;
        let mut p: usize = 0;
        assert(pf.subrange(0, 0) =~= Seq::<(Seq<char>, u16)>::empty());
        while p < self.prop_family.len()
            invariant
                t == self@,
                pf == t.prop_family,
                self.wf(),
                out@.len() == n,
                n == t.family_names.len(),
                s3.len() == n,
                0 <= p <= self.prop_family@.len(),
                forall|g: int| 0 <= g < out@.len() ==> no_repeats((#[trigger] out@[g])@) && id_set(out@[g]@) == add_prop_edges(s3, t.family_names, pf.subrange(0, p as int))[g],
            decreases self.prop_family@.len() - p,
        {
            let f = self.prop_family[p].1 as usize;
            proof {
                assert(pf[p as int].1 == self.prop_family@[p as int].1);
                assert((pf[p as int].1 as int) < n);
                assert(pf.subrange(0, p + 1).drop_last() =~= pf.subrange(0, p as int));
                assert(pf.subrange(0, p + 1).last() == pf[p as int]);
                lemma_add_prop_edges_len(s3, t.family_names, pf.subrange(0, p as int));
            }
            let edges = conflict_edges(self.family_names[f].as_str());
            let ghost es = edges.deep_view();
            let mut ids: Vec<u16> = Vec::new();
            let mut e: usize = 0;
            while e < edges.len()
                invariant
                    t == self@,
                    es == edges.deep_view(),
                    0 <= e <= edges@.len(),
                    forall|x: u16| id_set(ids@).contains(x) <==> exists|k: int| 0 <= k < e && opt_id(t.family_names, #[trigger] es[k]) == Some(x),
                decreases edges@.len() - e,
            {
                let ghost before = ids@;
                match position_of(&self.family_names, edges[e].as_str()) {
                    Some(id) => {
                        ids.push(id);
                        proof {
                            lemma_id_set_push(before, id);
                            assert(es[e as int] == edges@[e as int]@);
                        }
                    },
                    None => {
                        assert(es[e as int] == edges@[e as int]@);
                    },
                }
                proof {
                    assert forall|x: u16| id_set(ids@).contains(x) <==> exists|k: int| 0 <= k < e + 1 && opt_id(t.family_names, #[trigger] es[k]) == Some(x) by {
                        if id_set(ids@).contains(x) && !id_set(before).contains(x) {
                            assert(opt_id(t.family_names, es[e as int]) == Some(x));
                        }
                        if exists|k: int| 0 <= k < e + 1 && opt_id(t.family_names, #[trigger] es[k]) == Some(x) {
                            let k = choose|k: int| 0 <= k < e + 1 && opt_id(t.family_names, #[trigger] es[k]) == Some(x);
                            if k < e {
                                assert(id_set(before).contains(x));
                            }
                        }
                    }
                }
                e = e + 1;
            }
            proof {
                assert(t.family_names[f as int] == self.family_names@[f as int]@);
                assert(id_set(ids@) =~= edge_ids(t.family_names, t.family_names[f as int]));
            }
            let ghost old_out = out@;
            add_ids(&mut out, f, &ids);
            proof {
                assert forall|g: int| 0 <= g < out@.len() implies no_repeats((#[trigger] out@[g])@) && id_set(out@[g]@) == add_prop_edges(s3, t.family_names, pf.subrange(0, p + 1))[g] by {
                    if g != f as int {
                        assert(out@[g] == old_out[g]);
                    }
                }
            }
            p = p + 1;
        }
        assert(pf.subrange(0, p as int) =~= pf);
        let mut result: Vec<Vec<u16>> = Vec::new();
        let mut g: usize = 0;
        while g < out.len()
            invariant
                0 <= g <= out@.len(),
                out@.len() == n,
                result@.len() == g,
                forall|h: int| 0 <= h < out@.len() ==> no_repeats((#[trigger] out@[h])@) && id_set(out@[h]@) == pattern_conflict_sets(t)[h],
                forall|h: int| 0 <= h < g ==> increasing((#[trigger] result@[h])@) && id_set(result@[h]@) == pattern_conflict_sets(t)[h],
            decreases out@.len() - g,
        {
            let mut set = out[g].clone();
            assert(set@ == out@[g as int]@);
            sort_ids(&mut set);
            result.push(set);
            g = g + 1;
        }
        proof {
            lemma_conflict_sets_bounded(t);
            assert forall|f: int, k: int| 0 <= f < result@.len() && 0 <= k < result@[f]@.len() implies (#[trigger] result@[f]@[k] as int) < result@.len() by {
                assert(id_set(result@[f]@).contains(result@[f]@[k]));
                assert(pattern_conflict_sets(t)[f].contains(result@[f]@[k]));
            }
        }
        result
    }
}

proof fn lemma_id_set_single(x: u16)
    ensures
        id_set(seq![x]) == set![x],
{
    assert(seq![x] =~= Seq::<u16>::empty().push(x));
    lemma_id_set_push(Seq::<u16>::empty(), x);
    assert(id_set(Seq::<u16>::empty()) =~= Set::<u16>::empty());
    assert(set![x] =~= Set::<u16>::empty().insert(x));
}

proof fn lemma_add_util_sets_len(out: Seq<Set<u16>>, sets: Seq<Seq<u16>>, us: Seq<UtilModelP>)
    ensures
        add_util_sets(out, sets, us).len() == out.len(),
    decreases us.len(),
{
    if us.len() > 0 {
        lemma_add_util_sets_len(out, sets, us.drop_last());
        lemma_add_alt_sets_len(add_util_sets(out, sets, us.drop_last()), sets, us.last().alts);
    }
}

proof fn lemma_add_alt_sets_len(out: Seq<Set<u16>>, sets: Seq<Seq<u16>>, alts: Seq<AltModelP>)
    ensures
        add_alt_sets(out, sets, alts).len() == out.len(),
    decreases alts.len(),
{
    if alts.len() > 0 {
        lemma_add_alt_sets_len(out, sets, alts.drop_last());
    }
}

proof fn lemma_add_prop_edges_len(out: Seq<Set<u16>>, names: Seq<Seq<char>>, pf: Seq<(Seq<char>, u16)>)
    ensures
        add_prop_edges(out, names, pf).len() == out.len(),
    decreases pf.len(),
{
    if pf.len() > 0 {
        lemma_add_prop_edges_len(out, names, pf.drop_last());
    }
}

// ---------------------------------------------------------------------------
// What the per-family conflict sets hold
// ---------------------------------------------------------------------------

/// `b` holds, family by family, at least what `a` holds.
pub open spec fn sets_grow(a: Seq<Set<u16>>, b: Seq<Set<u16>>) -> bool {
    a.len() == b.len() && forall|f: int| 0 <= f < a.len() ==> (#[trigger] a[f]).subset_of(b[f])
}

proof fn lemma_sets_grow_trans(a: Seq<Set<u16>>, b: Seq<Set<u16>>, c: Seq<Set<u16>>)
    requires
        sets_grow(a, b),
        sets_grow(b, c),
    ensures
        sets_grow(a, c),
{
    assert forall|f: int| 0 <= f < a.len() implies (#[trigger] a[f]).subset_of(c[f]) by {
        assert(b[f].subset_of(c[f]));
    }
}

proof fn lemma_add_alt_sets(out: Seq<Set<u16>>, sets: Seq<Seq<u16>>, alts: Seq<AltModelP>)
    ensures
        sets_grow(out, add_alt_sets(out, sets, alts)),
        forall|j: int| 0 <= j < alts.len() && (alts[j].family_id as int) < out.len() ==>
            id_set(sets[(#[trigger] alts[j]).conflict_wid as int]).subset_of(add_alt_sets(out, sets, alts)[alts[j].family_id as int]),
    decreases alts.len(),
{
    if alts.len() > 0 {
        let prev = alts.drop_last();
        lemma_add_alt_sets(out, sets, prev);
        let o = add_alt_sets(out, sets, prev);
        let r = add_alt_sets(out, sets, alts);
        assert(sets_grow(o, r)) by {
            assert forall|f: int| 0 <= f < o.len() implies (#[trigger] o[f]).subset_of(r[f]) by {}
        }
        lemma_sets_grow_trans(out, o, r);
        assert forall|j: int| 0 <= j < alts.len() && (alts[j].family_id as int) < out.len() implies
            id_set(sets[(#[trigger] alts[j]).conflict_wid as int]).subset_of(r[alts[j].family_id as int]) by {
            if j < prev.len() {
                assert(prev[j] == alts[j]);
                assert(o[alts[j].family_id as int].subset_of(r[alts[j].family_id as int]));
            }
        }
    }
}

proof fn lemma_add_util_sets(out: Seq<Set<u16>>, sets: Seq<Seq<u16>>, us: Seq<UtilModelP>)
    ensures
        sets_grow(out, add_util_sets(out, sets, us)),
        forall|i: int, j: int| 0 <= i < us.len() && 0 <= j < us[i].alts.len() && (us[i].alts[j].family_id as int) < out.len() ==>
            id_set(sets[(#[trigger] us[i].alts[j]).conflict_wid as int]).subset_of(add_util_sets(out, sets, us)[us[i].alts[j].family_id as int]),
    decreases us.len(),
{
    if us.len() > 0 {
        let prev = us.drop_last();
        lemma_add_util_sets(out, sets, prev);
        let o = add_util_sets(out, sets, prev);
        let r = add_util_sets(out, sets, us);
        lemma_add_alt_sets(o, sets, us.last().alts);
        lemma_sets_grow_trans(out, o, r);
        assert forall|i: int, j: int| 0 <= i < us.len() && 0 <= j < us[i].alts.len() && (us[i].alts[j].family_id as int) < out.len() implies
            id_set(sets[(#[trigger] us[i].alts[j]).conflict_wid as int]).subset_of(r[us[i].alts[j].family_id as int]) by {
            if i < prev.len() {
                assert(prev[i] == us[i]);
                assert(o[us[i].alts[j].family_id as int].subset_of(r[us[i].alts[j].family_id as int]));
            } else {
                assert(us.last().alts[j] == us[i].alts[j]);
            }
        }
    }
}

proof fn lemma_add_prop_edges(out: Seq<Set<u16>>, names: Seq<Seq<char>>, pf: Seq<(Seq<char>, u16)>)
    ensures
        sets_grow(out, add_prop_edges(out, names, pf)),
    decreases pf.len(),
{
    if pf.len() > 0 {
        lemma_add_prop_edges(out, names, pf.drop_last());
        let o = add_prop_edges(out, names, pf.drop_last());
        let r = add_prop_edges(out, names, pf);
        assert(sets_grow(o, r)) by {
            assert forall|f: int| 0 <= f < o.len() implies (#[trigger] o[f]).subset_of(r[f]) by {}
        }
        lemma_sets_grow_trans(out, o, r);
    }
}

/// The per-family conflict sets of a pattern table: each family's set holds
/// the family itself and the conflict set of every alternative of that
/// family; `font-size` holds `leading` and `container-named` holds
/// `container-type` where both exist.
pub proof fn law_pattern_family_conflicts_cover(t: PatternModel)
    requires
        t.family_names.len() <= 65536,
    ensures
        pattern_conflict_sets(t).len() == t.family_names.len(),
        forall|f: int| 0 <= f < t.family_names.len() ==> (#[trigger] pattern_conflict_sets(t)[f]).contains(f as u16),
        forall|i: int, j: int| 0 <= i < t.utilities.len() && 0 <= j < t.utilities[i].alts.len()
            && (t.utilities[i].alts[j].family_id as int) < t.family_names.len() ==>
            id_set(t.conflict_sets[(#[trigger] t.utilities[i].alts[j]).conflict_wid as int]).subset_of(
                pattern_conflict_sets(t)[t.utilities[i].alts[j].family_id as int]),
        t.font_size matches Some(fs) ==> t.leading matches Some(ld) ==> (fs as int) < t.family_names.len()
            ==> pattern_conflict_sets(t)[fs as int].contains(ld),
        t.container_named matches Some(cn) ==> t.container_type matches Some(ct) ==> (cn as int) < t.family_names.len()
            ==> pattern_conflict_sets(t)[cn as int].contains(ct),
{
    let init = Seq::new(t.family_names.len(), |f: int| set![(f % 65536) as u16]);
    let s1 = add_util_sets(init, t.conflict_sets, t.utilities);
    let s2 = add_one(s1, t.font_size, t.leading);
    let s3 = add_one(s2, t.container_named, t.container_type);
    let s4 = add_prop_edges(s3, t.family_names, t.prop_family);
    lemma_add_util_sets(init, t.conflict_sets, t.utilities);
    assert(sets_grow(s1, s2)) by {
        assert forall|f: int| 0 <= f < s1.len() implies (#[trigger] s1[f]).subset_of(s2[f]) by {}
    }
    assert(sets_grow(s2, s3)) by {
        assert forall|f: int| 0 <= f < s2.len() implies (#[trigger] s2[f]).subset_of(s3[f]) by {}
    }
    lemma_add_prop_edges(s3, t.family_names, t.prop_family);
    lemma_sets_grow_trans(init, s1, s2);
    lemma_sets_grow_trans(init, s2, s3);
    lemma_sets_grow_trans(init, s3, s4);
    lemma_sets_grow_trans(s1, s2, s3);
    lemma_sets_grow_trans(s1, s3, s4);
    lemma_sets_grow_trans(s2, s3, s4);
    assert forall|f: int| 0 <= f < t.family_names.len() implies (#[trigger] s4[f]).contains(f as u16) by {
        assert(init[f].contains((f % 65536) as u16));
        assert(f % 65536 == f);
        assert(init[f].subset_of(s4[f]));
    }
    assert forall|i: int, j: int| 0 <= i < t.utilities.len() && 0 <= j < t.utilities[i].alts.len()
        && (t.utilities[i].alts[j].family_id as int) < t.family_names.len() implies
        id_set(t.conflict_sets[(#[trigger] t.utilities[i].alts[j]).conflict_wid as int]).subset_of(s4[t.utilities[i].alts[j].family_id as int]) by {
        assert(s1[t.utilities[i].alts[j].family_id as int].subset_of(s4[t.utilities[i].alts[j].family_id as int]));
    }
    if let (Some(fs), Some(ld)) = (t.font_size, t.leading) {
        if (fs as int) < t.family_names.len() {
            assert(s2[fs as int].contains(ld));
            assert(s2[fs as int].subset_of(s4[fs as int]));
        }
    }
    if let (Some(cn), Some(ct)) = (t.container_named, t.container_type) {
        if (cn as int) < t.family_names.len() {
            assert(s3[cn as int].contains(ct));
            assert(s3[cn as int].subset_of(s4[cn as int]));
        }
    }
}

// ---------------------------------------------------------------------------
// The utilities of a pattern table
// ---------------------------------------------------------------------------

proof fn lemma_codes_of_keeps(b: BuildModel, theme: Seq<(Seq<char>, Seq<char>)>, items: Seq<ItemModel>)
    ensures
        codes_of(b, theme, items).0.names == b.names,
        codes_of(b, theme, items).0.sets == b.sets,
        codes_of(b, theme, items).0.utilities == b.utilities,
    decreases items.len(),
{
    if items.len() > 0 {
        lemma_codes_of_keeps(b, theme, items.drop_last());
    }
}

proof fn lemma_groups_of_keeps(b: BuildModel, theme: Seq<(Seq<char>, Seq<char>)>, props: Seq<(Seq<char>, Option<SpecModel>)>)
    ensures
        groups_of(b, theme, props).0.names == b.names,
        groups_of(b, theme, props).0.sets == b.sets,
        groups_of(b, theme, props).0.utilities == b.utilities,
    decreases props.len(),
{
    if props.len() > 0 {
        lemma_groups_of_keeps(b, theme, props.drop_last());
        let b1 = groups_of(b, theme, props.drop_last()).0;
        match props.last().1 {
            Some(SpecModel::Items(items)) => lemma_codes_of_keeps(b1, theme, items),
            _ => {},
        }
    }
}

/// Each alternative names its resolved family, which the family list holds.
pub open spec fn alts_name_families(names: Seq<Seq<char>>, ps: Seq<AltModelP>, alts: Seq<AltModel>) -> bool {
    &&& ps.len() == alts.len()
    &&& forall|j: int| 0 <= j < alts.len() ==> crate::conflict::registered(names, (#[trigger] alts[j]).resolved.family)
        && ps[j].family_id == id_in(names, alts[j].resolved.family)
}

proof fn lemma_alts_name_families_grow(names: Seq<Seq<char>>, n2: Seq<Seq<char>>, ps: Seq<AltModelP>, alts: Seq<AltModel>)
    requires
        alts_name_families(names, ps, alts),
        crate::conflict::keeps_ids(names, n2),
    ensures
        alts_name_families(n2, ps, alts),
{
    assert forall|j: int| 0 <= j < alts.len() implies crate::conflict::registered(n2, (#[trigger] alts[j]).resolved.family)
        && ps[j].family_id == id_in(n2, alts[j].resolved.family) by {
        assert(name_index(n2, alts[j].resolved.family, 0) == name_index(names, alts[j].resolved.family, 0));
    }
}

proof fn lemma_alts_pattern(b: BuildModel, theme: Seq<(Seq<char>, Seq<char>)>, alts: Seq<AltModel>)
    ensures
        alts_pattern(b, theme, alts).0.utilities == b.utilities,
        crate::conflict::keeps_ids(b.names, alts_pattern(b, theme, alts).0.names),
        alts_name_families(alts_pattern(b, theme, alts).0.names, alts_pattern(b, theme, alts).1, alts),
    decreases alts.len(),
{
    if alts.len() == 0 {
        assert(crate::conflict::keeps_ids(b.names, b.names));
    } else {
        lemma_alts_pattern(b, theme, alts.drop_last());
        let (b1, ps) = alts_pattern(b, theme, alts.drop_last());
        let a = alts.last();
        let (n2, key) = make_key_spec(b1.names, a.resolved);
        crate::conflict::lemma_make_key_owns(b1.names, a.resolved);
        let c = ascending(key.ids);
        let (sets2, wid) = match set_index(b1.sets, c, 0) {
            Some(j) => (b1.sets, j),
            None => (b1.sets.push(c), b1.sets.len() as int),
        };
        lemma_groups_of_keeps(BuildModel { names: n2, sets: sets2, ..b1 }, theme, a.props);
        let (b2, p) = alt_pattern(b1, theme, a);
        assert(b2.names == n2);
        crate::conflict::lemma_keeps_ids_trans(b.names, b1.names, n2);
        lemma_alts_name_families_grow(b1.names, n2, ps, alts.drop_last());
        let ps2 = ps.push(p);
        assert forall|j: int| 0 <= j < alts.len() implies crate::conflict::registered(n2, (#[trigger] alts[j]).resolved.family)
            && ps2[j].family_id == id_in(n2, alts[j].resolved.family) by {
            if j < alts.len() - 1 {
                assert(alts.drop_last()[j] == alts[j]);
            }
        }
    }
}

/// What every listed utility of a build satisfies.
pub open spec fn utils_ok(cat: Seq<(Seq<char>, Seq<AltModel>)>, names: Seq<Seq<char>>, us: Seq<UtilModelP>) -> bool {
    forall|i: int| 0 <= i < us.len() ==> {
        &&& (#[trigger] us[i]).wildcard == has_suffix(us[i].name, "*"@)
        &&& alts_named(cat, us[i].name).len() > 0
        &&& alts_name_families(names, us[i].alts, alts_named(cat, us[i].name))
    }
}

proof fn lemma_utils_ok_grow(cat: Seq<(Seq<char>, Seq<AltModel>)>, names: Seq<Seq<char>>, n2: Seq<Seq<char>>, us: Seq<UtilModelP>)
    requires
        utils_ok(cat, names, us),
        crate::conflict::keeps_ids(names, n2),
    ensures
        utils_ok(cat, n2, us),
{
    assert forall|i: int| 0 <= i < us.len() implies alts_name_families(n2, (#[trigger] us[i]).alts, alts_named(cat, us[i].name)) by {
        lemma_alts_name_families_grow(names, n2, us[i].alts, alts_named(cat, us[i].name));
    }
}

proof fn lemma_utils_pattern(b: BuildModel, ds: CatalogModel, names: Seq<Seq<char>>)
    requires
        utils_ok(ds.utilities, b.names, b.utilities),
    ensures
        utils_ok(ds.utilities, utils_pattern(b, ds, names).names, utils_pattern(b, ds, names).utilities),
        crate::conflict::keeps_ids(b.names, utils_pattern(b, ds, names).names),
    decreases names.len(),
{
    if names.len() == 0 {
        assert(crate::conflict::keeps_ids(b.names, b.names));
    } else {
        lemma_utils_pattern(b, ds, names.drop_last());
        let b1 = utils_pattern(b, ds, names.drop_last());
        let name = names.last();
        let alts = alts_named(ds.utilities, name);
        if alts.len() > 0 {
            lemma_alts_pattern(b1, ds.theme, alts);
            let (b2, ps) = alts_pattern(b1, ds.theme, alts);
            lemma_utils_ok_grow(ds.utilities, b1.names, b2.names, b1.utilities);
            crate::conflict::lemma_keeps_ids_trans(b.names, b1.names, b2.names);
            let us = b2.utilities.push(UtilModelP { name, wildcard: has_suffix(name, "*"@), alts: ps });
            assert forall|i: int| 0 <= i < us.len() implies {
                &&& (#[trigger] us[i]).wildcard == has_suffix(us[i].name, "*"@)
                &&& alts_named(ds.utilities, us[i].name).len() > 0
                &&& alts_name_families(b2.names, us[i].alts, alts_named(ds.utilities, us[i].name))
            } by {
                if i < b2.utilities.len() {
                    assert(us[i] == b1.utilities[i]);
                }
            }
        }
    }
}

proof fn lemma_prop_families_keeps(names: Seq<Seq<char>>, props: Seq<Seq<char>>)
    ensures
        crate::conflict::keeps_ids(names, prop_families_spec(names, props).0),
    decreases props.len(),
{
    if props.len() == 0 {
        assert(crate::conflict::keeps_ids(names, names));
    } else {
        lemma_prop_families_keeps(names, props.drop_last());
        let n1 = prop_families_spec(names, props.drop_last()).0;
        let fam = spec_prop_family(props.last(), "arbitrary-property"@);
        crate::conflict::lemma_register(n1, fam);
        crate::conflict::lemma_keeps_ids_trans(names, n1, register(n1, fam));
    }
}

/// The utilities of a pattern table: each is a catalog utility with at
/// least one alternative, flagged as a wildcard exactly when its name ends
/// with `*`, with one pattern alternative per catalog alternative, each
/// naming the family that alternative resolves to; the named-container
/// family is always listed.
pub proof fn law_pattern_utilities(ds: CatalogModel)
    requires
        pattern_spec(ds).family_names.len() <= 65536,
    ensures
        pattern_spec(ds).container_named is Some,
        forall|i: int| 0 <= i < pattern_spec(ds).utilities.len() ==> {
            let u = #[trigger] pattern_spec(ds).utilities[i];
            let alts = alts_named(ds.utilities, u.name);
            &&& u.wildcard == has_suffix(u.name, "*"@)
            &&& alts.len() > 0
            &&& u.alts.len() == alts.len()
            &&& forall|j: int| 0 <= j < alts.len() ==>
                pattern_spec(ds).family_names[(#[trigger] u.alts[j]).family_id as int] == alts[j].resolved.family
        },
{
    let sorted = names_of(ds.utilities).sort_by(pattern_order());
    let b = utils_pattern(empty_build(), ds, sorted);
    lemma_utils_pattern(empty_build(), ds, sorted);
    let n1 = register(b.names, "container-named"@);
    crate::conflict::lemma_register(b.names, "container-named"@);
    let n2 = prop_families_spec(n1, sort_run(all_props(ds.utilities))).0;
    lemma_prop_families_keeps(n1, sort_run(all_props(ds.utilities)));
    crate::conflict::lemma_keeps_ids_trans(b.names, n1, n2);
    lemma_utils_ok_grow(ds.utilities, b.names, n2, b.utilities);
    assert(name_index(n2, "container-named"@, 0) == name_index(n1, "container-named"@, 0));
    let t = pattern_spec(ds);
    assert forall|i: int| 0 <= i < t.utilities.len() implies {
        let u = #[trigger] t.utilities[i];
        let alts = alts_named(ds.utilities, u.name);
        &&& u.wildcard == has_suffix(u.name, "*"@)
        &&& alts.len() > 0
        &&& u.alts.len() == alts.len()
        &&& forall|j: int| 0 <= j < alts.len() ==> t.family_names[(#[trigger] u.alts[j]).family_id as int] == alts[j].resolved.family
    } by {
        let u = t.utilities[i];
        let alts = alts_named(ds.utilities, u.name);
        assert(alts_name_families(n2, u.alts, alts));
        assert forall|j: int| 0 <= j < alts.len() implies t.family_names[(#[trigger] u.alts[j]).family_id as int] == alts[j].resolved.family by {
            let f = alts[j].resolved.family;
            crate::conflict::lemma_name_index(n2, f, 0);
            let k = name_index(n2, f, 0)->0;
            assert(k % 65536 == k);
        }
    }
}

proof fn lemma_utils_order(b: BuildModel, ds: CatalogModel, names: Seq<Seq<char>>)
    requires
        b.utilities.len() == 0,
        sorted_by(names, pattern_order()),
    ensures
        forall|i: int| 0 <= i < utils_pattern(b, ds, names).utilities.len() ==>
            exists|k: int| 0 <= k < names.len() && names[k] == (#[trigger] utils_pattern(b, ds, names).utilities[i]).name,
        forall|i: int, j: int| 0 <= i < j < utils_pattern(b, ds, names).utilities.len() ==>
            pattern_le(utils_pattern(b, ds, names).utilities[i].name, utils_pattern(b, ds, names).utilities[j].name),
    decreases names.len(),
{
    if names.len() > 0 {
        let prev = names.drop_last();
        assert(sorted_by(prev, pattern_order())) by {
            assert forall|i: int, j: int| 0 <= i < j < prev.len() implies (pattern_order())(prev[i], prev[j]) by {
                assert(prev[i] == names[i] && prev[j] == names[j]);
            }
        }
        lemma_utils_order(b, ds, prev);
        let b1 = utils_pattern(b, ds, prev);
        let name = names.last();
        let alts = alts_named(ds.utilities, name);
        if alts.len() > 0 {
            lemma_alts_pattern(b1, ds.theme, alts);
            let (b2, ps) = alts_pattern(b1, ds.theme, alts);
            let us = b2.utilities.push(UtilModelP { name, wildcard: has_suffix(name, "*"@), alts: ps });
            assert(us == utils_pattern(b, ds, names).utilities);
            assert forall|i: int| 0 <= i < us.len() implies exists|k: int| 0 <= k < names.len() && names[k] == (#[trigger] us[i]).name by {
                if i < b1.utilities.len() {
                    let k = choose|k: int| 0 <= k < prev.len() && prev[k] == b1.utilities[i].name;
                    assert(names[k] == us[i].name);
                } else {
                    assert(names[names.len() - 1] == us[i].name);
                }
            }
            assert forall|i: int, j: int| 0 <= i < j < us.len() implies pattern_le(us[i].name, us[j].name) by {
                if j == us.len() - 1 {
                    let k = choose|k: int| 0 <= k < prev.len() && prev[k] == b1.utilities[i].name;
                    assert((pattern_order())(names[k], names[names.len() - 1]));
                } else {
                    assert(us[i] == b1.utilities[i] && us[j] == b1.utilities[j]);
                }
            }
        }
    }
}

/// The utilities of a pattern table come in pattern order: exact names
/// first, in byte order, then wildcards, the longest first and equally long
/// ones in byte order.
pub proof fn law_pattern_utilities_ordered(ds: CatalogModel)
    ensures
        forall|i: int, j: int| 0 <= i < j < pattern_spec(ds).utilities.len() ==>
            pattern_le(pattern_spec(ds).utilities[i].name, pattern_spec(ds).utilities[j].name),
{
    lemma_pattern_order_total();
    let names = names_of(ds.utilities);
    names.lemma_sort_by_ensures(pattern_order());
    lemma_utils_order(empty_build(), ds, names.sort_by(pattern_order()));
}

// ---------------------------------------------------------------------------
// The conflict sets of a pattern table
// ---------------------------------------------------------------------------

/// The ids below `n` that `s` holds, ascending.
pub open spec fn ids_below(s: Set<u16>, n: nat) -> Seq<u16>
    decreases n,
{
    if n == 0 {
        Seq::empty()
    } else {
        let q = ids_below(s, (n - 1) as nat);
        if n - 1 < 65536 && s.contains((n - 1) as u16) { q.push((n - 1) as u16) } else { q }
    }
}

proof fn lemma_ids_below(s: Set<u16>, n: nat)
    requires
        n <= 65536,
    ensures
        increasing(ids_below(s, n)),
        forall|k: int| 0 <= k < ids_below(s, n).len() ==> (#[trigger] ids_below(s, n)[k] as int) < n,
        forall|x: u16| (x as int) < n ==> (s.contains(x) <==> ids_below(s, n).contains(x)),
        forall|x: u16| ids_below(s, n).contains(x) ==> s.contains(x),
    decreases n,
{
    if n > 0 {
        lemma_ids_below(s, (n - 1) as nat);
        let q = ids_below(s, (n - 1) as nat);
        let r = ids_below(s, n);
        let top = (n - 1) as u16;
        assert(top as int == n - 1);
        if s.contains(top) {
            assert(r == q.push(top));
            assert forall|x: u16| (x as int) < n implies (s.contains(x) <==> r.contains(x)) by {
                if r.contains(x) && x != top {
                    let k = choose|k: int| 0 <= k < r.len() && r[k] == x;
                    assert(k < q.len());
                    assert(q[k] == x);
                }
                if q.contains(x) {
                    let k = choose|k: int| 0 <= k < q.len() && q[k] == x;
                    assert(r[k] == x);
                }
                if x == top {
                    assert(r[q.len() as int] == x);
                }
            }
            assert forall|x: u16| r.contains(x) implies s.contains(x) by {
                let k = choose|k: int| 0 <= k < r.len() && r[k] == x;
                if k < q.len() {
                    assert(q[k] == x);
                }
            }
        }
    }
}

/// `ascending(s)` is the increasing list of the ids in `s`.
proof fn lemma_ascending_exists(s: Set<u16>)
    ensures
        increasing(ascending(s)),
        id_set(ascending(s)) == s,
{
    lemma_ids_below(s, 65536);
    let q = ids_below(s, 65536);
    assert(id_set(q) =~= s) by {
        assert forall|x: u16| id_set(q).contains(x) <==> s.contains(x) by {
            assert((x as int) < 65536);
        }
    }
    assert(increasing(q) && id_set(q) == s);
}

/// Pairwise distinct, each increasing.
pub open spec fn sets_ok(sets: Seq<Seq<u16>>) -> bool {
    &&& forall|i: int| 0 <= i < sets.len() ==> increasing(#[trigger] sets[i])
    &&& forall|i: int, j: int| 0 <= i < j < sets.len() ==> sets[i] != sets[j]
}

proof fn lemma_set_index(sets: Seq<Seq<u16>>, c: Seq<u16>, i: int)
    requires
        0 <= i <= sets.len(),
    ensures
        set_index(sets, c, i) matches Some(j) ==> i <= j < sets.len() && sets[j] == c,
        set_index(sets, c, i) is None ==> forall|m: int| i <= m < sets.len() ==> sets[m] != c,
    decreases sets.len() - i,
{
    if i < sets.len() && sets[i] != c {
        lemma_set_index(sets, c, i + 1);
    }
}

proof fn lemma_alts_sets_ok(b: BuildModel, theme: Seq<(Seq<char>, Seq<char>)>, alts: Seq<AltModel>)
    requires
        sets_ok(b.sets),
    ensures
        sets_ok(alts_pattern(b, theme, alts).0.sets),
    decreases alts.len(),
{
    if alts.len() > 0 {
        lemma_alts_sets_ok(b, theme, alts.drop_last());
        let b1 = alts_pattern(b, theme, alts.drop_last()).0;
        let a = alts.last();
        let (n2, key) = make_key_spec(b1.names, a.resolved);
        let c = ascending(key.ids);
        lemma_ascending_exists(key.ids);
        lemma_set_index(b1.sets, c, 0);
        let sets2 = match set_index(b1.sets, c, 0) {
            Some(j) => b1.sets,
            None => b1.sets.push(c),
        };
        lemma_groups_of_keeps(BuildModel { names: n2, sets: sets2, ..b1 }, theme, a.props);
        assert(sets_ok(sets2)) by {
            if set_index(b1.sets, c, 0) is None {
                assert forall|i: int| 0 <= i < sets2.len() implies increasing(#[trigger] sets2[i]) by {
                    if i < b1.sets.len() {
                        assert(sets2[i] == b1.sets[i]);
                    }
                }
                assert forall|i: int, j: int| 0 <= i < j < sets2.len() implies sets2[i] != sets2[j] by {
                    if j < b1.sets.len() {
                        assert(sets2[i] == b1.sets[i] && sets2[j] == b1.sets[j]);
                    } else {
                        assert(sets2[i] == b1.sets[i]);
                    }
                }
            }
        }
    }
}

proof fn lemma_utils_sets_ok(b: BuildModel, ds: CatalogModel, names: Seq<Seq<char>>)
    requires
        sets_ok(b.sets),
    ensures
        sets_ok(utils_pattern(b, ds, names).sets),
    decreases names.len(),
{
    if names.len() > 0 {
        lemma_utils_sets_ok(b, ds, names.drop_last());
        let b1 = utils_pattern(b, ds, names.drop_last());
        let alts = alts_named(ds.utilities, names.last());
        if alts.len() > 0 {
            lemma_alts_sets_ok(b1, ds.theme, alts);
        }
    }
}

/// The conflict sets of a pattern table are pairwise distinct, and each is
/// strictly ascending.
pub proof fn law_pattern_conflict_sets_distinct_ascending(ds: CatalogModel)
    ensures
        sets_ok(pattern_spec(ds).conflict_sets),
{
    lemma_utils_sets_ok(empty_build(), ds, names_of(ds.utilities).sort_by(pattern_order()));
}

// ---------------------------------------------------------------------------
// The conflict set of each alternative
// ---------------------------------------------------------------------------

/// The ids of the families a resolved class conflicts with: its own, its
/// properties' and their edges (as `ConflictTable::make_key` has them).
pub open spec fn fam_ids(names: Seq<Seq<char>>, r: crate::utility::ResolvedModel) -> Set<u16> {
    id_set(crate::conflict::key_families(r).map_values(|f: Seq<char>| id_in(names, f)))
}

pub open spec fn families_registered(names: Seq<Seq<char>>, r: crate::utility::ResolvedModel) -> bool {
    forall|k: int| 0 <= k < crate::conflict::key_families(r).len() ==> crate::conflict::registered(names, #[trigger] crate::conflict::key_families(r)[k])
}

/// Each alternative's conflict set holds exactly the ids of its families.
pub open spec fn alts_sets(names: Seq<Seq<char>>, sets: Seq<Seq<u16>>, ps: Seq<AltModelP>, alts: Seq<AltModel>) -> bool {
    &&& ps.len() == alts.len()
    &&& forall|j: int| 0 <= j < alts.len() ==> families_registered(names, (#[trigger] alts[j]).resolved)
        && exists|w: int| 0 <= w < sets.len() && ps[j].conflict_wid == (w % 65536) as u16
            && id_set(sets[w]) == fam_ids(names, alts[j].resolved)
}

proof fn lemma_fam_ids_grow(names: Seq<Seq<char>>, n2: Seq<Seq<char>>, r: crate::utility::ResolvedModel)
    requires
        families_registered(names, r),
        crate::conflict::keeps_ids(names, n2),
    ensures
        families_registered(n2, r),
        fam_ids(n2, r) == fam_ids(names, r),
{
    let fs = crate::conflict::key_families(r);
    assert forall|k: int| 0 <= k < fs.len() implies crate::conflict::registered(n2, #[trigger] fs[k]) by {
        assert(name_index(n2, fs[k], 0) == name_index(names, fs[k], 0));
    }
    let a = fs.map_values(|f: Seq<char>| id_in(names, f));
    let b = fs.map_values(|f: Seq<char>| id_in(n2, f));
    assert(a =~= b) by {
        assert forall|k: int| 0 <= k < fs.len() implies a[k] == b[k] by {
            assert(crate::conflict::registered(names, fs[k]));
            assert(name_index(n2, fs[k], 0) == name_index(names, fs[k], 0));
        }
    }
}

proof fn lemma_alts_sets_grow(names: Seq<Seq<char>>, n2: Seq<Seq<char>>, sets: Seq<Seq<u16>>, s2: Seq<Seq<u16>>, ps: Seq<AltModelP>, alts: Seq<AltModel>)
    requires
        alts_sets(names, sets, ps, alts),
        crate::conflict::keeps_ids(names, n2),
        sets.is_prefix_of(s2),
    ensures
        alts_sets(n2, s2, ps, alts),
{
    assert forall|j: int| 0 <= j < alts.len() implies families_registered(n2, (#[trigger] alts[j]).resolved)
        && exists|w: int| 0 <= w < s2.len() && ps[j].conflict_wid == (w % 65536) as u16
            && id_set(s2[w]) == fam_ids(n2, alts[j].resolved) by {
        lemma_fam_ids_grow(names, n2, alts[j].resolved);
        let w = choose|w: int| 0 <= w < sets.len() && ps[j].conflict_wid == (w % 65536) as u16
            && id_set(sets[w]) == fam_ids(names, alts[j].resolved);
        assert(s2[w] == s2.subrange(0, sets.len() as int)[w]);
        assert(s2[w] == sets[w]);
    }
}

proof fn lemma_alts_pattern_sets(b: BuildModel, theme: Seq<(Seq<char>, Seq<char>)>, alts: Seq<AltModel>)
    ensures
        b.sets.is_prefix_of(alts_pattern(b, theme, alts).0.sets),
        alts_sets(alts_pattern(b, theme, alts).0.names, alts_pattern(b, theme, alts).0.sets, alts_pattern(b, theme, alts).1, alts),
    decreases alts.len(),
{
    if alts.len() == 0 {
        assert(b.sets.subrange(0, b.sets.len() as int) =~= b.sets);
    } else {
        lemma_alts_pattern_sets(b, theme, alts.drop_last());
        let (b1, ps) = alts_pattern(b, theme, alts.drop_last());
        let a = alts.last();
        let (n2, key) = make_key_spec(b1.names, a.resolved);
        crate::conflict::lemma_make_key_owns(b1.names, a.resolved);
        crate::conflict::lemma_register_all(b1.names, crate::conflict::key_families(a.resolved));
        let c = ascending(key.ids);
        lemma_ascending_exists(key.ids);
        lemma_set_index(b1.sets, c, 0);
        let (sets2, wid) = match set_index(b1.sets, c, 0) {
            Some(j) => (b1.sets, j),
            None => (b1.sets.push(c), b1.sets.len() as int),
        };
        assert(b1.sets.is_prefix_of(sets2)) by {
            assert(sets2.subrange(0, b1.sets.len() as int) =~= b1.sets);
        }
        lemma_groups_of_keeps(BuildModel { names: n2, sets: sets2, ..b1 }, theme, a.props);
        let (b2, p) = alt_pattern(b1, theme, a);
        assert(b2.names == n2 && b2.sets == sets2);
        assert(b.sets.is_prefix_of(sets2)) by {
            assert(sets2.subrange(0, b.sets.len() as int) =~= b.sets) by {
                assert forall|k: int| 0 <= k < b.sets.len() implies sets2[k] == b.sets[k] by {
                    assert(sets2[k] == b1.sets[k]);
                    assert(b1.sets[k] == b1.sets.subrange(0, b.sets.len() as int)[k]);
                }
            }
        }
        lemma_alts_sets_grow(b1.names, n2, b1.sets, sets2, ps, alts.drop_last());
        assert(families_registered(n2, a.resolved));
        assert(sets2[wid] == c);
        assert(id_set(sets2[wid]) == fam_ids(n2, a.resolved));
        let ps2 = ps.push(p);
        assert forall|j: int| 0 <= j < alts.len() implies families_registered(n2, (#[trigger] alts[j]).resolved)
            && exists|w: int| 0 <= w < sets2.len() && ps2[j].conflict_wid == (w % 65536) as u16
                && id_set(sets2[w]) == fam_ids(n2, alts[j].resolved) by {
            if j < alts.len() - 1 {
                assert(alts.drop_last()[j] == alts[j]);
                assert(ps2[j] == ps[j]);
            } else {
                assert(ps2[j] == p);
                assert(alts[j] == a);
                assert(p.conflict_wid == (wid % 65536) as u16);
                assert(0 <= wid < sets2.len());
                assert(id_set(sets2[wid]) == fam_ids(n2, alts[j].resolved));
            }
        }
        assert(ps2.len() == alts.len());
    }
}

pub open spec fn utils_sets(cat: Seq<(Seq<char>, Seq<AltModel>)>, names: Seq<Seq<char>>, sets: Seq<Seq<u16>>, us: Seq<UtilModelP>) -> bool {
    forall|i: int| 0 <= i < us.len() ==> alts_sets(names, sets, (#[trigger] us[i]).alts, alts_named(cat, us[i].name))
}

proof fn lemma_utils_pattern_sets(b: BuildModel, ds: CatalogModel, names: Seq<Seq<char>>)
    requires
        utils_sets(ds.utilities, b.names, b.sets, b.utilities),
    ensures
        utils_sets(ds.utilities, utils_pattern(b, ds, names).names, utils_pattern(b, ds, names).sets, utils_pattern(b, ds, names).utilities),
        crate::conflict::keeps_ids(b.names, utils_pattern(b, ds, names).names),
        b.sets.is_prefix_of(utils_pattern(b, ds, names).sets),
    decreases names.len(),
{
    if names.len() == 0 {
        assert(crate::conflict::keeps_ids(b.names, b.names));
        assert(b.sets.subrange(0, b.sets.len() as int) =~= b.sets);
    } else {
        lemma_utils_pattern_sets(b, ds, names.drop_last());
        let b1 = utils_pattern(b, ds, names.drop_last());
        let name = names.last();
        let alts = alts_named(ds.utilities, name);
        if alts.len() > 0 {
            lemma_alts_pattern(b1, ds.theme, alts);
            lemma_alts_pattern_sets(b1, ds.theme, alts);
            let (b2, ps) = alts_pattern(b1, ds.theme, alts);
            crate::conflict::lemma_keeps_ids_trans(b.names, b1.names, b2.names);
            assert(b.sets.is_prefix_of(b2.sets)) by {
                assert(b2.sets.subrange(0, b.sets.len() as int) =~= b.sets) by {
                    assert forall|k: int| 0 <= k < b.sets.len() implies b2.sets[k] == b.sets[k] by {
                        assert(b2.sets[k] == b2.sets.subrange(0, b1.sets.len() as int)[k]);
                        assert(b1.sets[k] == b1.sets.subrange(0, b.sets.len() as int)[k]);
                    }
                }
            }
            let us = b2.utilities.push(UtilModelP { name, wildcard: has_suffix(name, "*"@), alts: ps });
            assert forall|i: int| 0 <= i < us.len() implies alts_sets(b2.names, b2.sets, (#[trigger] us[i]).alts, alts_named(ds.utilities, us[i].name)) by {
                if i < b2.utilities.len() {
                    assert(us[i] == b1.utilities[i]);
                    lemma_alts_sets_grow(b1.names, b2.names, b1.sets, b2.sets, b1.utilities[i].alts, alts_named(ds.utilities, us[i].name));
                }
            }
        }
    }
}

/// Each alternative's conflict set holds exactly the ids of the families
/// that `ConflictTable::make_key` gives its resolved class: its own family,
/// its properties' families and their edges; each of those families is in
/// the family list. With fewer than 65536 conflict sets, the alternative's
/// conflict index is that set's.
pub proof fn law_pattern_alternative_conflicts(ds: CatalogModel)
    ensures
        forall|i: int, j: int| #![trigger pattern_spec(ds).utilities[i].alts[j]]
            0 <= i < pattern_spec(ds).utilities.len() && 0 <= j < pattern_spec(ds).utilities[i].alts.len()
            && pattern_spec(ds).conflict_sets.len() <= 65536 ==> {
            let a = alts_named(ds.utilities, pattern_spec(ds).utilities[i].name)[j];
            &&& families_registered(pattern_spec(ds).family_names, a.resolved)
            &&& id_set(pattern_spec(ds).conflict_sets[pattern_spec(ds).utilities[i].alts[j].conflict_wid as int])
                == fam_ids(pattern_spec(ds).family_names, a.resolved)
        },
{
    let sorted = names_of(ds.utilities).sort_by(pattern_order());
    let b = utils_pattern(empty_build(), ds, sorted);
    lemma_utils_pattern_sets(empty_build(), ds, sorted);
    let n1 = register(b.names, "container-named"@);
    crate::conflict::lemma_register(b.names, "container-named"@);
    let n2 = prop_families_spec(n1, sort_run(all_props(ds.utilities))).0;
    lemma_prop_families_keeps(n1, sort_run(all_props(ds.utilities)));
    crate::conflict::lemma_keeps_ids_trans(b.names, n1, n2);
    let t = pattern_spec(ds);
    assert forall|i: int, j: int| #![trigger t.utilities[i].alts[j]]
        0 <= i < t.utilities.len() && 0 <= j < t.utilities[i].alts.len()
        && t.conflict_sets.len() <= 65536 implies {
        let a = alts_named(ds.utilities, t.utilities[i].name)[j];
        &&& families_registered(t.family_names, a.resolved)
        &&& id_set(t.conflict_sets[t.utilities[i].alts[j].conflict_wid as int]) == fam_ids(t.family_names, a.resolved)
    } by {
        let alts = alts_named(ds.utilities, t.utilities[i].name);
        assert(b.sets.subrange(0, b.sets.len() as int) =~= b.sets);
        lemma_alts_sets_grow(b.names, n2, b.sets, b.sets, t.utilities[i].alts, alts);
        assert(alts_sets(n2, b.sets, t.utilities[i].alts, alts));
        assert(families_registered(n2, alts[j].resolved));
        let w = choose|w: int| 0 <= w < b.sets.len() && t.utilities[i].alts[j].conflict_wid == (w % 65536) as u16
            && id_set(b.sets[w]) == fam_ids(n2, alts[j].resolved);
        assert(w % 65536 == w);
    }
}

// ---------------------------------------------------------------------------
// Each family and each utility once
// ---------------------------------------------------------------------------

proof fn lemma_alts_names_distinct(b: BuildModel, theme: Seq<(Seq<char>, Seq<char>)>, alts: Seq<AltModel>)
    requires
        crate::conflict::distinct_names(b.names),
    ensures
        crate::conflict::distinct_names(alts_pattern(b, theme, alts).0.names),
    decreases alts.len(),
{
    if alts.len() > 0 {
        lemma_alts_names_distinct(b, theme, alts.drop_last());
        let b1 = alts_pattern(b, theme, alts.drop_last()).0;
        let a = alts.last();
        crate::conflict::lemma_register_all_distinct(b1.names, crate::conflict::key_families(a.resolved));
        let (n2, key) = make_key_spec(b1.names, a.resolved);
        let c = ascending(key.ids);
        let sets2 = match set_index(b1.sets, c, 0) {
            Some(j) => b1.sets,
            None => b1.sets.push(c),
        };
        lemma_groups_of_keeps(BuildModel { names: n2, sets: sets2, ..b1 }, theme, a.props);
    }
}

proof fn lemma_utils_names_distinct(b: BuildModel, ds: CatalogModel, names: Seq<Seq<char>>)
    requires
        crate::conflict::distinct_names(b.names),
    ensures
        crate::conflict::distinct_names(utils_pattern(b, ds, names).names),
    decreases names.len(),
{
    if names.len() > 0 {
        lemma_utils_names_distinct(b, ds, names.drop_last());
        let b1 = utils_pattern(b, ds, names.drop_last());
        let alts = alts_named(ds.utilities, names.last());
        if alts.len() > 0 {
            lemma_alts_names_distinct(b1, ds.theme, alts);
        }
    }
}

proof fn lemma_prop_families_distinct(names: Seq<Seq<char>>, props: Seq<Seq<char>>)
    requires
        crate::conflict::distinct_names(names),
    ensures
        crate::conflict::distinct_names(prop_families_spec(names, props).0),
    decreases props.len(),
{
    if props.len() > 0 {
        lemma_prop_families_distinct(names, props.drop_last());
        let n1 = prop_families_spec(names, props.drop_last()).0;
        let fam = spec_prop_family(props.last(), "arbitrary-property"@);
        crate::conflict::lemma_register_all_distinct(n1, seq![fam]);
        assert(seq![fam].drop_last() =~= Seq::<Seq<char>>::empty());
        assert(seq![fam].last() == fam);
        assert(crate::conflict::register_all(n1, seq![fam].drop_last()) == n1);
        assert(crate::conflict::register_all(n1, seq![fam]) == register(n1, fam));
    }
}

/// The family list of a pattern table names each family once.
pub proof fn law_pattern_families_distinct(ds: CatalogModel)
    ensures
        crate::conflict::distinct_names(pattern_spec(ds).family_names),
{
    let sorted = names_of(ds.utilities).sort_by(pattern_order());
    lemma_utils_names_distinct(empty_build(), ds, sorted);
    let b = utils_pattern(empty_build(), ds, sorted);
    crate::conflict::lemma_register_all_distinct(b.names, seq!["container-named"@]);
    assert(seq!["container-named"@].drop_last() =~= Seq::<Seq<char>>::empty());
    assert(seq!["container-named"@].last() == "container-named"@);
    assert(crate::conflict::register_all(b.names, seq!["container-named"@].drop_last()) == b.names);
    assert(crate::conflict::register_all(b.names, seq!["container-named"@]) == register(b.names, "container-named"@));
    let n1 = register(b.names, "container-named"@);
    lemma_prop_families_distinct(n1, sort_run(all_props(ds.utilities)));
}

proof fn lemma_utils_once(b: BuildModel, ds: CatalogModel, names: Seq<Seq<char>>)
    requires
        b.utilities.len() == 0,
        crate::conflict::distinct_names(names),
    ensures
        forall|i: int| 0 <= i < utils_pattern(b, ds, names).utilities.len() ==>
            exists|k: int| 0 <= k < names.len() && names[k] == (#[trigger] utils_pattern(b, ds, names).utilities[i]).name,
        forall|i: int, j: int| 0 <= i < j < utils_pattern(b, ds, names).utilities.len() ==>
            utils_pattern(b, ds, names).utilities[i].name != utils_pattern(b, ds, names).utilities[j].name,
    decreases names.len(),
{
    if names.len() > 0 {
        let prev = names.drop_last();
        assert(crate::conflict::distinct_names(prev)) by {
            assert forall|i: int, j: int| 0 <= i < j < prev.len() implies prev[i] != prev[j] by {
                assert(prev[i] == names[i] && prev[j] == names[j]);
            }
        }
        lemma_utils_once(b, ds, prev);
        let b1 = utils_pattern(b, ds, prev);
        let name = names.last();
        let alts = alts_named(ds.utilities, name);
        if alts.len() > 0 {
            lemma_alts_pattern(b1, ds.theme, alts);
            let (b2, ps) = alts_pattern(b1, ds.theme, alts);
            let us = b2.utilities.push(UtilModelP { name, wildcard: has_suffix(name, "*"@), alts: ps });
            assert forall|i: int| 0 <= i < us.len() implies exists|k: int| 0 <= k < names.len() && names[k] == (#[trigger] us[i]).name by {
                if i < b1.utilities.len() {
                    let k = choose|k: int| 0 <= k < prev.len() && prev[k] == b1.utilities[i].name;
                    assert(names[k] == us[i].name);
                } else {
                    assert(names[names.len() - 1] == us[i].name);
                }
            }
            assert forall|i: int, j: int| 0 <= i < j < us.len() implies us[i].name != us[j].name by {
                if j == us.len() - 1 {
                    let k = choose|k: int| 0 <= k < prev.len() && prev[k] == b1.utilities[i].name;
                    assert(names[k] != names[names.len() - 1]);
                } else {
                    assert(us[i] == b1.utilities[i] && us[j] == b1.utilities[j]);
                }
            }
        }
    }
}

/// Where the catalog names each utility once, so does the pattern table.
pub proof fn law_pattern_utilities_once(ds: CatalogModel)
    requires
        crate::conflict::distinct_names(names_of(ds.utilities)),
    ensures
        forall|i: int, j: int| 0 <= i < j < pattern_spec(ds).utilities.len() ==>
            pattern_spec(ds).utilities[i].name != pattern_spec(ds).utilities[j].name,
{
    broadcast use vstd::seq_lib::group_to_multiset_ensures;
    lemma_pattern_order_total();
    let names = names_of(ds.utilities);
    names.lemma_sort_by_ensures(pattern_order());
    let sorted = names.sort_by(pattern_order());
    assert(names.no_duplicates());
    names.lemma_multiset_has_no_duplicates();
    assert(sorted.to_multiset() == names.to_multiset());
    sorted.lemma_multiset_has_no_duplicates_conv();
    assert(crate::conflict::distinct_names(sorted));
    lemma_utils_once(empty_build(), ds, sorted);
}

// ---------------------------------------------------------------------------
// Every id names a family of the table
// ---------------------------------------------------------------------------

proof fn lemma_alts_sets_below(b: BuildModel, theme: Seq<(Seq<char>, Seq<char>)>, alts: Seq<AltModel>)
    requires
        sets_below(b.sets, b.names.len()),
    ensures
        sets_below(alts_pattern(b, theme, alts).0.sets, alts_pattern(b, theme, alts).0.names.len()),
        alts_pattern(b, theme, alts).0.names.len() >= b.names.len(),
    decreases alts.len(),
{
    if alts.len() > 0 {
        lemma_alts_sets_below(b, theme, alts.drop_last());
        let b1 = alts_pattern(b, theme, alts.drop_last()).0;
        let a = alts.last();
        let (n2, key) = make_key_spec(b1.names, a.resolved);
        let fs = crate::conflict::key_families(a.resolved);
        crate::conflict::lemma_register_all(b1.names, fs);
        let c = ascending(key.ids);
        lemma_ascending_exists(key.ids);
        let sets2 = match set_index(b1.sets, c, 0) {
            Some(j) => b1.sets,
            None => b1.sets.push(c),
        };
        lemma_groups_of_keeps(BuildModel { names: n2, sets: sets2, ..b1 }, theme, a.props);
        assert(b1.names.is_prefix_of(n2));
        assert forall|k: int| 0 <= k < c.len() implies (#[trigger] c[k] as int) < n2.len() by {
            assert(id_set(c).contains(c[k]));
            let ids = fs.map_values(|f: Seq<char>| id_in(n2, f));
            assert(ids.contains(c[k]));
            let q = choose|q: int| 0 <= q < ids.len() && ids[q] == c[k];
            assert(crate::conflict::registered(n2, fs[q]));
            crate::conflict::lemma_id_bound(n2, fs[q]);
        }
        assert forall|w: int, k: int| 0 <= w < sets2.len() && 0 <= k < sets2[w].len() implies (#[trigger] sets2[w][k] as int) < n2.len() by {
            if w < b1.sets.len() {
                assert(sets2[w] == b1.sets[w]);
            } else {
                assert(sets2[w] == c);
            }
        }
    }
}

proof fn lemma_utils_sets_below(b: BuildModel, ds: CatalogModel, names: Seq<Seq<char>>)
    requires
        sets_below(b.sets, b.names.len()),
    ensures
        sets_below(utils_pattern(b, ds, names).sets, utils_pattern(b, ds, names).names.len()),
        utils_pattern(b, ds, names).names.len() >= b.names.len(),
    decreases names.len(),
{
    if names.len() > 0 {
        lemma_utils_sets_below(b, ds, names.drop_last());
        let b1 = utils_pattern(b, ds, names.drop_last());
        let alts = alts_named(ds.utilities, names.last());
        if alts.len() > 0 {
            lemma_alts_sets_below(b1, ds.theme, alts);
        }
    }
}

proof fn lemma_prop_families_len(names: Seq<Seq<char>>, props: Seq<Seq<char>>)
    ensures
        prop_families_spec(names, props).0.len() >= names.len(),
    decreases props.len(),
{
    if props.len() > 0 {
        lemma_prop_families_len(names, props.drop_last());
    }
}

proof fn lemma_pattern_sets_below(ds: CatalogModel)
    ensures
        sets_below(pattern_spec(ds).conflict_sets, pattern_spec(ds).family_names.len()),
{
    let sorted = names_of(ds.utilities).sort_by(pattern_order());
    lemma_utils_sets_below(empty_build(), ds, sorted);
    let b = utils_pattern(empty_build(), ds, sorted);
    let n1 = register(b.names, "container-named"@);
    lemma_prop_families_len(n1, sort_run(all_props(ds.utilities)));
}

/// Every id in the sets holds this bound.
pub open spec fn ids_below_len(out: Seq<Set<u16>>, n: nat) -> bool {
    forall|f: int, x: u16| 0 <= f < out.len() && #[trigger] out[f].contains(x) ==> (x as int) < n
}

proof fn lemma_alt_sets_bounded(out: Seq<Set<u16>>, sets: Seq<Seq<u16>>, alts: Seq<AltModelP>, n: nat)
    requires
        ids_below_len(out, n),
        sets_below(sets, n),
        forall|j: int| 0 <= j < alts.len() ==> ((#[trigger] alts[j]).conflict_wid as int) < sets.len(),
    ensures
        ids_below_len(add_alt_sets(out, sets, alts), n),
        add_alt_sets(out, sets, alts).len() == out.len(),
    decreases alts.len(),
{
    if alts.len() > 0 {
        lemma_alt_sets_bounded(out, sets, alts.drop_last(), n);
        let o = add_alt_sets(out, sets, alts.drop_last());
        let r = add_alt_sets(out, sets, alts);
        let w = alts.last().conflict_wid as int;
        assert(alts[alts.len() - 1] == alts.last());
        assert forall|f: int, x: u16| 0 <= f < r.len() && #[trigger] r[f].contains(x) implies (x as int) < n by {
            if !o[f].contains(x) {
                assert(id_set(sets[w]).contains(x));
                let k = choose|k: int| 0 <= k < sets[w].len() && sets[w][k] == x;
                assert((sets[w][k] as int) < n);
            }
        }
    }
}

proof fn lemma_util_sets_bounded(out: Seq<Set<u16>>, sets: Seq<Seq<u16>>, us: Seq<UtilModelP>, n: nat)
    requires
        ids_below_len(out, n),
        sets_below(sets, n),
        alts_in_range(us, n, sets.len()),
    ensures
        ids_below_len(add_util_sets(out, sets, us), n),
        add_util_sets(out, sets, us).len() == out.len(),
    decreases us.len(),
{
    if us.len() > 0 {
        assert(alts_in_range(us.drop_last(), n, sets.len())) by {
            assert forall|i: int, j: int| 0 <= i < us.drop_last().len() && 0 <= j < us.drop_last()[i].alts.len() implies
                (#[trigger] us.drop_last()[i].alts[j]).family_id < n && us.drop_last()[i].alts[j].conflict_wid < sets.len() by {
                assert(us.drop_last()[i] == us[i]);
            }
        }
        lemma_util_sets_bounded(out, sets, us.drop_last(), n);
        let last = us.last();
        assert forall|j: int| 0 <= j < last.alts.len() implies ((#[trigger] last.alts[j]).conflict_wid as int) < sets.len() by {
            assert(us[us.len() - 1].alts[j] == last.alts[j]);
        }
        lemma_alt_sets_bounded(add_util_sets(out, sets, us.drop_last()), sets, last.alts, n);
    }
}

proof fn lemma_prop_edges_bounded(out: Seq<Set<u16>>, names: Seq<Seq<char>>, pf: Seq<(Seq<char>, u16)>)
    requires
        ids_below_len(out, names.len()),
    ensures
        ids_below_len(add_prop_edges(out, names, pf), names.len()),
        add_prop_edges(out, names, pf).len() == out.len(),
    decreases pf.len(),
{
    if pf.len() > 0 {
        lemma_prop_edges_bounded(out, names, pf.drop_last());
        let o = add_prop_edges(out, names, pf.drop_last());
        let r = add_prop_edges(out, names, pf);
        let f0 = pf.last().1 as int;
        assert forall|f: int, x: u16| 0 <= f < r.len() && #[trigger] r[f].contains(x) implies (x as int) < names.len() by {
            if !o[f].contains(x) {
                let es = spec_conflict_edges(names[f0]);
                assert(edge_ids(names, names[f0]).contains(x));
                let k = choose|k: int| 0 <= k < es.len() && opt_id(names, #[trigger] es[k]) == Some(x);
                lemma_opt_id(names, es[k]);
            }
        }
    }
}

/// Every id in the per-family conflict sets names a family of the table.
proof fn lemma_conflict_sets_bounded(t: PatternModel)
    requires
        alts_in_range(t.utilities, t.family_names.len(), t.conflict_sets.len()),
        sets_below(t.conflict_sets, t.family_names.len()),
        t.leading matches Some(x) ==> (x as int) < t.family_names.len(),
        t.container_type matches Some(x) ==> (x as int) < t.family_names.len(),
    ensures
        ids_below_len(pattern_conflict_sets(t), t.family_names.len()),
        pattern_conflict_sets(t).len() == t.family_names.len(),
{
    let n = t.family_names.len();
    let init = Seq::new(n, |f: int| set![(f % 65536) as u16]);
    assert forall|f: int, x: u16| 0 <= f < init.len() && #[trigger] init[f].contains(x) implies (x as int) < n by {
        assert(x == (f % 65536) as u16);
    }
    lemma_util_sets_bounded(init, t.conflict_sets, t.utilities, n);
    let s1 = add_util_sets(init, t.conflict_sets, t.utilities);
    let s2 = add_one(s1, t.font_size, t.leading);
    assert(ids_below_len(s2, n)) by {
        assert forall|f: int, x: u16| 0 <= f < s2.len() && #[trigger] s2[f].contains(x) implies (x as int) < n by {
            if !s1[f].contains(x) {}
        }
    }
    let s3 = add_one(s2, t.container_named, t.container_type);
    assert(ids_below_len(s3, n)) by {
        assert forall|f: int, x: u16| 0 <= f < s3.len() && #[trigger] s3[f].contains(x) implies (x as int) < n by {
            if !s2[f].contains(x) {}
        }
    }
    lemma_prop_edges_bounded(s3, t.family_names, t.prop_family);
}

// ---------------------------------------------------------------------------
// Every utility with alternatives is listed
// ---------------------------------------------------------------------------

proof fn lemma_utils_listed(b: BuildModel, ds: CatalogModel, names: Seq<Seq<char>>)
    ensures
        b.utilities.is_prefix_of(utils_pattern(b, ds, names).utilities),
        forall|k: int| 0 <= k < names.len() && alts_named(ds.utilities, #[trigger] names[k]).len() > 0 ==>
            exists|i: int| 0 <= i < utils_pattern(b, ds, names).utilities.len() && utils_pattern(b, ds, names).utilities[i].name == names[k],
    decreases names.len(),
{
    if names.len() == 0 {
        assert(b.utilities.subrange(0, b.utilities.len() as int) =~= b.utilities);
    } else {
        let prev = names.drop_last();
        lemma_utils_listed(b, ds, prev);
        let b1 = utils_pattern(b, ds, prev);
        let name = names.last();
        let alts = alts_named(ds.utilities, name);
        let us = utils_pattern(b, ds, names).utilities;
        if alts.len() > 0 {
            lemma_alts_pattern(b1, ds.theme, alts);
            let (b2, ps) = alts_pattern(b1, ds.theme, alts);
            assert(us == b1.utilities.push(UtilModelP { name, wildcard: has_suffix(name, "*"@), alts: ps }));
        } else {
            assert(us == b1.utilities);
        }
        assert(b1.utilities.is_prefix_of(us)) by {
            assert(us.subrange(0, b1.utilities.len() as int) =~= b1.utilities);
        }
        assert(b.utilities.is_prefix_of(us)) by {
            assert(us.subrange(0, b.utilities.len() as int) =~= b.utilities) by {
                assert forall|q: int| 0 <= q < b.utilities.len() implies us[q] == b.utilities[q] by {
                    assert(us[q] == us.subrange(0, b1.utilities.len() as int)[q]);
                    assert(b1.utilities[q] == b1.utilities.subrange(0, b.utilities.len() as int)[q]);
                }
            }
        }
        assert forall|k: int| 0 <= k < names.len() && alts_named(ds.utilities, #[trigger] names[k]).len() > 0 implies
            exists|i: int| 0 <= i < us.len() && us[i].name == names[k] by {
            if k < prev.len() {
                assert(prev[k] == names[k]);
                let i = choose|i: int| 0 <= i < b1.utilities.len() && b1.utilities[i].name == prev[k];
                assert(us[i] == us.subrange(0, b1.utilities.len() as int)[i]);
            } else {
                assert(us[us.len() - 1].name == name);
            }
        }
    }
}

/// Every utility of the catalog that has alternatives is listed in the
/// pattern table (once, see `law_pattern_utilities_once`, with as many
/// alternatives, see `law_pattern_utilities`), where the catalog names each
/// utility once.
pub proof fn law_pattern_lists_every_utility(ds: CatalogModel)
    requires
        crate::conflict::distinct_names(names_of(ds.utilities)),
    ensures
        forall|e: int| 0 <= e < ds.utilities.len() && (#[trigger] ds.utilities[e]).1.len() > 0 ==>
            exists|i: int| 0 <= i < pattern_spec(ds).utilities.len() && pattern_spec(ds).utilities[i].name == ds.utilities[e].0,
{
    broadcast use vstd::seq_lib::group_to_multiset_ensures;
    lemma_pattern_order_total();
    let names = names_of(ds.utilities);
    names.lemma_sort_by_ensures(pattern_order());
    let sorted = names.sort_by(pattern_order());
    lemma_utils_listed(empty_build(), ds, sorted);
    assert forall|e: int| 0 <= e < ds.utilities.len() && (#[trigger] ds.utilities[e]).1.len() > 0 implies
        exists|i: int| 0 <= i < pattern_spec(ds).utilities.len() && pattern_spec(ds).utilities[i].name == ds.utilities[e].0 by {
        let name = ds.utilities[e].0;
        assert(names[e] == name);
        assert(names.to_multiset().count(name) > 0);
        assert(sorted.to_multiset().count(name) > 0);
        assert(sorted.contains(name));
        let k = choose|k: int| 0 <= k < sorted.len() && sorted[k] == name;
        crate::utility::lemma_entry_index(ds.utilities, name, 0);
        if entry_index(ds.utilities, name, 0) is None {
            crate::utility::lemma_entry_index_none(ds.utilities, name, 0);
        }
        let j = entry_index(ds.utilities, name, 0)->0;
        assert(ds.utilities[j].0 == name);
        if j != e {
            assert(names[j] == ds.utilities[j].0);
            assert(names[j] == names[e]);
        }
        assert(alts_named(ds.utilities, sorted[k]) == ds.utilities[e].1);
        assert(alts_named(ds.utilities, sorted[k]).len() > 0);
        assert(utils_pattern(empty_build(), ds, sorted).utilities == pattern_spec(ds).utilities);
        let i = choose|i: int| 0 <= i < utils_pattern(empty_build(), ds, sorted).utilities.len()
            && utils_pattern(empty_build(), ds, sorted).utilities[i].name == sorted[k];
        assert(pattern_spec(ds).utilities[i].name == ds.utilities[e].0);
    }
}

/// A type's code is its 1-based position in the list of types.
#[verifier::rlimit(100)]
#[verifier::spinoff_prover]
pub proof fn law_type_codes_follow_the_list()
    ensures
        forall|i: int| 0 <= i < type_names().len() ==> type_code_spec(#[trigger] type_names()[i]) == i + 1,
{
    // Names of equal length differ at the byte asserted in each step.
    reveal_strlit("any"); assert("any"@.len() == 3);
    reveal_strlit("number"); assert("number"@.len() == 6);
    reveal_strlit("integer"); assert("integer"@.len() == 7);
    reveal_strlit("percentage"); assert("percentage"@.len() == 10);
    reveal_strlit("fraction"); assert("fraction"@.len() == 8);
    reveal_strlit("tshirt"); assert("tshirt"@.len() == 6);
    reveal_strlit("length"); assert("length"@.len() == 6);
    reveal_strlit("shadow"); assert("shadow"@.len() == 6);
    reveal_strlit("image"); assert("image"@.len() == 5);
    reveal_strlit("url"); assert("url"@.len() == 3);
    reveal_strlit("position"); assert("position"@.len() == 8);
    reveal_strlit("ratio"); assert("ratio"@.len() == 5);
    reveal_strlit("weight"); assert("weight"@.len() == 6);
    reveal_strlit("family-name"); assert("family-name"@.len() == 11);
    reveal_strlit("angle"); assert("angle"@.len() == 5);
    reveal_strlit("time"); assert("time"@.len() == 4);
    reveal_strlit("custom-ident"); assert("custom-ident"@.len() == 12);
    reveal_strlit("spacing"); assert("spacing"@.len() == 7);
    reveal_strlit("any-non-arbitrary"); assert("any-non-arbitrary"@.len() == 17);
    reveal_strlit("a-length"); assert("a-length"@.len() == 8);
    reveal_strlit("a-number"); assert("a-number"@.len() == 8);
    reveal_strlit("a-integer"); assert("a-integer"@.len() == 9);
    reveal_strlit("a-percent"); assert("a-percent"@.len() == 9);
    reveal_strlit("a-fraction"); assert("a-fraction"@.len() == 10);
    reveal_strlit("a-size"); assert("a-size"@.len() == 6);
    reveal_strlit("a-position"); assert("a-position"@.len() == 10);
    reveal_strlit("a-shadow"); assert("a-shadow"@.len() == 8);
    reveal_strlit("a-image"); assert("a-image"@.len() == 7);
    reveal_strlit("a-weight"); assert("a-weight"@.len() == 8);
    reveal_strlit("a-family-name"); assert("a-family-name"@.len() == 13);
    reveal_strlit("a-angle"); assert("a-angle"@.len() == 7);
    reveal_strlit("a-time"); assert("a-time"@.len() == 6);
    reveal_strlit("a-ratio"); assert("a-ratio"@.len() == 7);
    reveal_strlit("a-ident"); assert("a-ident"@.len() == 7);
    reveal_strlit("a-url"); assert("a-url"@.len() == 5);
    reveal_strlit("a-string"); assert("a-string"@.len() == 8);
    reveal_strlit("a-custom-property"); assert("a-custom-property"@.len() == 17);
    reveal_strlit("a-function"); assert("a-function"@.len() == 10);
    reveal_strlit("a-any"); assert("a-any"@.len() == 5);
    reveal_strlit("v-length"); assert("v-length"@.len() == 8);
    reveal_strlit("v-number"); assert("v-number"@.len() == 8);
    reveal_strlit("v-integer"); assert("v-integer"@.len() == 9);
    reveal_strlit("v-percent"); assert("v-percent"@.len() == 9);
    reveal_strlit("v-fraction"); assert("v-fraction"@.len() == 10);
    reveal_strlit("v-size"); assert("v-size"@.len() == 6);
    reveal_strlit("v-position"); assert("v-position"@.len() == 10);
    reveal_strlit("v-shadow"); assert("v-shadow"@.len() == 8);
    reveal_strlit("v-image"); assert("v-image"@.len() == 7);
    reveal_strlit("v-weight"); assert("v-weight"@.len() == 8);
    reveal_strlit("v-family-name"); assert("v-family-name"@.len() == 13);
    reveal_strlit("v-angle"); assert("v-angle"@.len() == 7);
    reveal_strlit("v-time"); assert("v-time"@.len() == 6);
    reveal_strlit("v-ident"); assert("v-ident"@.len() == 7);
    reveal_strlit("v-url"); assert("v-url"@.len() == 5);
    reveal_strlit("v-string"); assert("v-string"@.len() == 8);
    reveal_strlit("v-custom-property"); assert("v-custom-property"@.len() == 17);
    reveal_strlit("v-any"); assert("v-any"@.len() == 5);
    assert(type_code_spec(type_names()[0]) == 1) by {
        assert(type_names()[0] == "any"@);
    }
    assert(type_code_spec(type_names()[1]) == 2) by {
        assert(type_names()[1] == "number"@);
    }
    assert(type_code_spec(type_names()[2]) == 3) by {
        assert(type_names()[2] == "integer"@);
    }
    assert(type_code_spec(type_names()[3]) == 4) by {
        assert(type_names()[3] == "percentage"@);
    }
    assert(type_code_spec(type_names()[4]) == 5) by {
        assert(type_names()[4] == "fraction"@);
    }
    assert(type_code_spec(type_names()[5]) == 6) by {
        assert("tshirt"@[0] != "number"@[0]); assert(type_names()[5] == "tshirt"@);
    }
    assert(type_code_spec(type_names()[6]) == 7) by {
        assert("length"@[0] != "number"@[0]); assert("length"@[0] != "tshirt"@[0]); assert(type_names()[6] == "length"@);
    }
    assert(type_code_spec(type_names()[7]) == 8) by {
        assert("shadow"@[0] != "number"@[0]); assert("shadow"@[0] != "tshirt"@[0]); assert("shadow"@[0] != "length"@[0]); assert(type_names()[7] == "shadow"@);
    }
    assert(type_code_spec(type_names()[8]) == 9) by {
        assert(type_names()[8] == "image"@);
    }
    assert(type_code_spec(type_names()[9]) == 10) by {
        assert("url"@[0] != "any"@[0]); assert(type_names()[9] == "url"@);
    }
    assert(type_code_spec(type_names()[10]) == 11) by {
        assert("position"@[0] != "fraction"@[0]); assert(type_names()[10] == "position"@);
    }
    assert(type_code_spec(type_names()[11]) == 12) by {
        assert("ratio"@[0] != "image"@[0]); assert(type_names()[11] == "ratio"@);
    }
    assert(type_code_spec(type_names()[12]) == 13) by {
        assert("weight"@[0] != "number"@[0]); assert("weight"@[0] != "tshirt"@[0]); assert("weight"@[0] != "length"@[0]); assert("weight"@[0] != "shadow"@[0]); assert(type_names()[12] == "weight"@);
    }
    assert(type_code_spec(type_names()[13]) == 14) by {
        assert(type_names()[13] == "family-name"@);
    }
    assert(type_code_spec(type_names()[14]) == 15) by {
        assert("angle"@[0] != "image"@[0]); assert("angle"@[0] != "ratio"@[0]); assert(type_names()[14] == "angle"@);
    }
    assert(type_code_spec(type_names()[15]) == 16) by {
        assert(type_names()[15] == "time"@);
    }
    assert(type_code_spec(type_names()[16]) == 17) by {
        assert(type_names()[16] == "custom-ident"@);
    }
    assert(type_code_spec(type_names()[17]) == 18) by {
        assert("spacing"@[0] != "integer"@[0]); assert(type_names()[17] == "spacing"@);
    }
    assert(type_code_spec(type_names()[18]) == 19) by {
        assert(type_names()[18] == "any-non-arbitrary"@);
    }
    assert(type_code_spec(type_names()[19]) == 20) by {
        assert("a-length"@[0] != "fraction"@[0]); assert("a-length"@[0] != "position"@[0]); assert(type_names()[19] == "a-length"@);
    }
    assert(type_code_spec(type_names()[20]) == 21) by {
        assert("a-number"@[0] != "fraction"@[0]); assert("a-number"@[0] != "position"@[0]); assert("a-number"@[2] != "a-length"@[2]); assert(type_names()[20] == "a-number"@);
    }
    assert(type_code_spec(type_names()[21]) == 22) by {
        assert(type_names()[21] == "a-integer"@);
    }
    assert(type_code_spec(type_names()[22]) == 23) by {
        assert("a-percent"@[2] != "a-integer"@[2]); assert(type_names()[22] == "a-percent"@);
    }
    assert(type_code_spec(type_names()[23]) == 24) by {
        assert("a-fraction"@[0] != "percentage"@[0]); assert(type_names()[23] == "a-fraction"@);
    }
    assert(type_code_spec(type_names()[24]) == 25) by {
        assert("a-size"@[0] != "number"@[0]); assert("a-size"@[0] != "tshirt"@[0]); assert("a-size"@[0] != "length"@[0]); assert("a-size"@[0] != "shadow"@[0]); assert("a-size"@[0] != "weight"@[0]); assert(type_names()[24] == "a-size"@);
    }
    assert(type_code_spec(type_names()[25]) == 26) by {
        assert("a-position"@[0] != "percentage"@[0]); assert("a-position"@[2] != "a-fraction"@[2]); assert(type_names()[25] == "a-position"@);
    }
    assert(type_code_spec(type_names()[26]) == 27) by {
        assert("a-shadow"@[0] != "fraction"@[0]); assert("a-shadow"@[0] != "position"@[0]); assert("a-shadow"@[2] != "a-length"@[2]); assert("a-shadow"@[2] != "a-number"@[2]); assert(type_names()[26] == "a-shadow"@);
    }
    assert(type_code_spec(type_names()[27]) == 28) by {
        assert("a-image"@[0] != "integer"@[0]); assert("a-image"@[0] != "spacing"@[0]); assert(type_names()[27] == "a-image"@);
    }
    assert(type_code_spec(type_names()[28]) == 29) by {
        assert("a-weight"@[0] != "fraction"@[0]); assert("a-weight"@[0] != "position"@[0]); assert("a-weight"@[2] != "a-length"@[2]); assert("a-weight"@[2] != "a-number"@[2]); assert("a-weight"@[2] != "a-shadow"@[2]); assert(type_names()[28] == "a-weight"@);
    }
    assert(type_code_spec(type_names()[29]) == 30) by {
        assert(type_names()[29] == "a-family-name"@);
    }
    assert(type_code_spec(type_names()[30]) == 31) by {
        assert("a-angle"@[0] != "integer"@[0]); assert("a-angle"@[0] != "spacing"@[0]); assert("a-angle"@[2] != "a-image"@[2]); assert(type_names()[30] == "a-angle"@);
    }
    assert(type_code_spec(type_names()[31]) == 32) by {
        assert("a-time"@[0] != "number"@[0]); assert("a-time"@[0] != "tshirt"@[0]); assert("a-time"@[0] != "length"@[0]); assert("a-time"@[0] != "shadow"@[0]); assert("a-time"@[0] != "weight"@[0]); assert("a-time"@[2] != "a-size"@[2]); assert(type_names()[31] == "a-time"@);
    }
    assert(type_code_spec(type_names()[32]) == 33) by {
        assert("a-ratio"@[0] != "integer"@[0]); assert("a-ratio"@[0] != "spacing"@[0]); assert("a-ratio"@[2] != "a-image"@[2]); assert("a-ratio"@[2] != "a-angle"@[2]); assert(type_names()[32] == "a-ratio"@);
    }
    assert(type_code_spec(type_names()[33]) == 34) by {
        assert("a-ident"@[0] != "integer"@[0]); assert("a-ident"@[0] != "spacing"@[0]); assert("a-ident"@[3] != "a-image"@[3]); assert("a-ident"@[2] != "a-angle"@[2]); assert("a-ident"@[2] != "a-ratio"@[2]); assert(type_names()[33] == "a-ident"@);
    }
    assert(type_code_spec(type_names()[34]) == 35) by {
        assert("a-url"@[0] != "image"@[0]); assert("a-url"@[0] != "ratio"@[0]); assert("a-url"@[1] != "angle"@[1]); assert(type_names()[34] == "a-url"@);
    }
    assert(type_code_spec(type_names()[35]) == 36) by {
        assert("a-string"@[0] != "fraction"@[0]); assert("a-string"@[0] != "position"@[0]); assert("a-string"@[2] != "a-length"@[2]); assert("a-string"@[2] != "a-number"@[2]); assert("a-string"@[3] != "a-shadow"@[3]); assert("a-string"@[2] != "a-weight"@[2]); assert(type_names()[35] == "a-string"@);
    }
    assert(type_code_spec(type_names()[36]) == 37) by {
        assert("a-custom-property"@[1] != "any-non-arbitrary"@[1]); assert(type_names()[36] == "a-custom-property"@);
    }
    assert(type_code_spec(type_names()[37]) == 38) by {
        assert("a-function"@[0] != "percentage"@[0]); assert("a-function"@[3] != "a-fraction"@[3]); assert("a-function"@[2] != "a-position"@[2]); assert(type_names()[37] == "a-function"@);
    }
    assert(type_code_spec(type_names()[38]) == 39) by {
        assert("a-any"@[0] != "image"@[0]); assert("a-any"@[0] != "ratio"@[0]); assert("a-any"@[1] != "angle"@[1]); assert("a-any"@[2] != "a-url"@[2]); assert(type_names()[38] == "a-any"@);
    }
    assert(type_code_spec(type_names()[39]) == 40) by {
        assert("v-length"@[0] != "fraction"@[0]); assert("v-length"@[0] != "position"@[0]); assert("v-length"@[0] != "a-length"@[0]); assert("v-length"@[0] != "a-number"@[0]); assert("v-length"@[0] != "a-shadow"@[0]); assert("v-length"@[0] != "a-weight"@[0]); assert("v-length"@[0] != "a-string"@[0]); assert(type_names()[39] == "v-length"@);
    }
    assert(type_code_spec(type_names()[40]) == 41) by {
        assert("v-number"@[0] != "fraction"@[0]); assert("v-number"@[0] != "position"@[0]); assert("v-number"@[0] != "a-length"@[0]); assert("v-number"@[0] != "a-number"@[0]); assert("v-number"@[0] != "a-shadow"@[0]); assert("v-number"@[0] != "a-weight"@[0]); assert("v-number"@[0] != "a-string"@[0]); assert("v-number"@[2] != "v-length"@[2]); assert(type_names()[40] == "v-number"@);
    }
    assert(type_code_spec(type_names()[41]) == 42) by {
        assert("v-integer"@[0] != "a-integer"@[0]); assert("v-integer"@[0] != "a-percent"@[0]); assert(type_names()[41] == "v-integer"@);
    }
    assert(type_code_spec(type_names()[42]) == 43) by {
        assert("v-percent"@[0] != "a-integer"@[0]); assert("v-percent"@[0] != "a-percent"@[0]); assert("v-percent"@[2] != "v-integer"@[2]); assert(type_names()[42] == "v-percent"@);
    }
    assert(type_code_spec(type_names()[43]) == 44) by {
        assert("v-fraction"@[0] != "percentage"@[0]); assert("v-fraction"@[0] != "a-fraction"@[0]); assert("v-fraction"@[0] != "a-position"@[0]); assert("v-fraction"@[0] != "a-function"@[0]); assert(type_names()[43] == "v-fraction"@);
    }
    assert(type_code_spec(type_names()[44]) == 45) by {
        assert("v-size"@[0] != "number"@[0]); assert("v-size"@[0] != "tshirt"@[0]); assert("v-size"@[0] != "length"@[0]); assert("v-size"@[0] != "shadow"@[0]); assert("v-size"@[0] != "weight"@[0]); assert("v-size"@[0] != "a-size"@[0]); assert("v-size"@[0] != "a-time"@[0]); assert(type_names()[44] == "v-size"@);
    }
    assert(type_code_spec(type_names()[45]) == 46) by {
        assert("v-position"@[0] != "percentage"@[0]); assert("v-position"@[0] != "a-fraction"@[0]); assert("v-position"@[0] != "a-position"@[0]); assert("v-position"@[0] != "a-function"@[0]); assert("v-position"@[2] != "v-fraction"@[2]); assert(type_names()[45] == "v-position"@);
    }
    assert(type_code_spec(type_names()[46]) == 47) by {
        assert("v-shadow"@[0] != "fraction"@[0]); assert("v-shadow"@[0] != "position"@[0]); assert("v-shadow"@[0] != "a-length"@[0]); assert("v-shadow"@[0] != "a-number"@[0]); assert("v-shadow"@[0] != "a-shadow"@[0]); assert("v-shadow"@[0] != "a-weight"@[0]); assert("v-shadow"@[0] != "a-string"@[0]); assert("v-shadow"@[2] != "v-length"@[2]); assert("v-shadow"@[2] != "v-number"@[2]); assert(type_names()[46] == "v-shadow"@);
    }
    assert(type_code_spec(type_names()[47]) == 48) by {
        assert("v-image"@[0] != "integer"@[0]); assert("v-image"@[0] != "spacing"@[0]); assert("v-image"@[0] != "a-image"@[0]); assert("v-image"@[0] != "a-angle"@[0]); assert("v-image"@[0] != "a-ratio"@[0]); assert("v-image"@[0] != "a-ident"@[0]); assert(type_names()[47] == "v-image"@);
    }
    assert(type_code_spec(type_names()[48]) == 49) by {
        assert("v-weight"@[0] != "fraction"@[0]); assert("v-weight"@[0] != "position"@[0]); assert("v-weight"@[0] != "a-length"@[0]); assert("v-weight"@[0] != "a-number"@[0]); assert("v-weight"@[0] != "a-shadow"@[0]); assert("v-weight"@[0] != "a-weight"@[0]); assert("v-weight"@[0] != "a-string"@[0]); assert("v-weight"@[2] != "v-length"@[2]); assert("v-weight"@[2] != "v-number"@[2]); assert("v-weight"@[2] != "v-shadow"@[2]); assert(type_names()[48] == "v-weight"@);
    }
    assert(type_code_spec(type_names()[49]) == 50) by {
        assert("v-family-name"@[0] != "a-family-name"@[0]); assert(type_names()[49] == "v-family-name"@);
    }
    assert(type_code_spec(type_names()[50]) == 51) by {
        assert("v-angle"@[0] != "integer"@[0]); assert("v-angle"@[0] != "spacing"@[0]); assert("v-angle"@[0] != "a-image"@[0]); assert("v-angle"@[0] != "a-angle"@[0]); assert("v-angle"@[0] != "a-ratio"@[0]); assert("v-angle"@[0] != "a-ident"@[0]); assert("v-angle"@[2] != "v-image"@[2]); assert(type_names()[50] == "v-angle"@);
    }
    assert(type_code_spec(type_names()[51]) == 52) by {
        assert("v-time"@[0] != "number"@[0]); assert("v-time"@[0] != "tshirt"@[0]); assert("v-time"@[0] != "length"@[0]); assert("v-time"@[0] != "shadow"@[0]); assert("v-time"@[0] != "weight"@[0]); assert("v-time"@[0] != "a-size"@[0]); assert("v-time"@[0] != "a-time"@[0]); assert("v-time"@[2] != "v-size"@[2]); assert(type_names()[51] == "v-time"@);
    }
    assert(type_code_spec(type_names()[52]) == 53) by {
        assert("v-ident"@[0] != "integer"@[0]); assert("v-ident"@[0] != "spacing"@[0]); assert("v-ident"@[0] != "a-image"@[0]); assert("v-ident"@[0] != "a-angle"@[0]); assert("v-ident"@[0] != "a-ratio"@[0]); assert("v-ident"@[0] != "a-ident"@[0]); assert("v-ident"@[3] != "v-image"@[3]); assert("v-ident"@[2] != "v-angle"@[2]); assert(type_names()[52] == "v-ident"@);
    }
    assert(type_code_spec(type_names()[53]) == 54) by {
        assert("v-url"@[0] != "image"@[0]); assert("v-url"@[0] != "ratio"@[0]); assert("v-url"@[0] != "angle"@[0]); assert("v-url"@[0] != "a-url"@[0]); assert("v-url"@[0] != "a-any"@[0]); assert(type_names()[53] == "v-url"@);
    }
    assert(type_code_spec(type_names()[54]) == 55) by {
        assert("v-string"@[0] != "fraction"@[0]); assert("v-string"@[0] != "position"@[0]); assert("v-string"@[0] != "a-length"@[0]); assert("v-string"@[0] != "a-number"@[0]); assert("v-string"@[0] != "a-shadow"@[0]); assert("v-string"@[0] != "a-weight"@[0]); assert("v-string"@[0] != "a-string"@[0]); assert("v-string"@[2] != "v-length"@[2]); assert("v-string"@[2] != "v-number"@[2]); assert("v-string"@[3] != "v-shadow"@[3]); assert("v-string"@[2] != "v-weight"@[2]); assert(type_names()[54] == "v-string"@);
    }
    assert(type_code_spec(type_names()[55]) == 56) by {
        assert("v-custom-property"@[0] != "any-non-arbitrary"@[0]); assert("v-custom-property"@[0] != "a-custom-property"@[0]); assert(type_names()[55] == "v-custom-property"@);
    }
    assert(type_code_spec(type_names()[56]) == 57) by {
        assert("v-any"@[0] != "image"@[0]); assert("v-any"@[0] != "ratio"@[0]); assert("v-any"@[0] != "angle"@[0]); assert("v-any"@[0] != "a-url"@[0]); assert("v-any"@[0] != "a-any"@[0]); assert("v-any"@[2] != "v-url"@[2]); assert(type_names()[56] == "v-any"@);
    }
    assert forall|i: int| 0 <= i < type_names().len() implies type_code_spec(#[trigger] type_names()[i]) == i + 1 by {
        assert(type_names().len() == 57);
    }
}

// ---------------------------------------------------------------------------
// What the item codes mean
// ---------------------------------------------------------------------------

/// What code `c` stands for as the code of `item`, in a table with these
/// keywords and theme sets: a keyword is `KW_OFFSET` plus its index in the
/// keyword list; the `--spacing` key is the `spacing` type; another theme
/// key is `TH_OFFSET` plus the index of its theme set (the sorted, distinct
/// suffixes of the theme keys that start with it); a type is its type code,
/// `<color>` being `any`.
pub open spec fn code_means(kw: Seq<Seq<char>>, ts: Seq<Seq<Seq<char>>>, theme: Seq<(Seq<char>, Seq<char>)>, item: ItemModel, c: u16) -> bool {
    match item {
        ItemModel::Keyword(k) => exists|i: int| 0 <= i < kw.len() && kw[i] == k && c == ((KW_OFFSET + i) % 65536) as u16,
        ItemModel::Type(t) => c == type_code_spec(if t == "color"@ { "any"@ } else { t }) as u16,
        ItemModel::ThemeKey(p, has_star) => if p == "--spacing"@ && !has_star {
            c == type_code_spec("spacing"@) as u16
        } else {
            exists|i: int| 0 <= i < ts.len() && ts[i] == theme_values(theme, p) && c == ((TH_OFFSET + i) % 65536) as u16
        },
    }
}

/// The item lists of the `--value(...)` markers of an alternative's
/// properties, in order.
pub open spec fn marker_lists(props: Seq<(Seq<char>, Option<SpecModel>)>) -> Seq<Seq<ItemModel>>
    decreases props.len(),
{
    if props.len() == 0 {
        Seq::empty()
    } else {
        let l = marker_lists(props.drop_last());
        match props.last().1 {
            Some(SpecModel::Items(items)) => l.push(items),
            _ => l,
        }
    }
}

/// One code group per marker, one code per item, each meaning its item.
pub open spec fn groups_mean(kw: Seq<Seq<char>>, ts: Seq<Seq<Seq<char>>>, theme: Seq<(Seq<char>, Seq<char>)>, gs: Seq<Seq<u16>>, lists: Seq<Seq<ItemModel>>) -> bool {
    &&& gs.len() == lists.len()
    &&& forall|g: int| 0 <= g < gs.len() ==> (#[trigger] gs[g]).len() == lists[g].len()
    &&& forall|g: int, k: int| 0 <= g < gs.len() && 0 <= k < gs[g].len() ==> code_means(kw, ts, theme, lists[g][k], #[trigger] gs[g][k])
}

/// Each theme set is that of its prefix.
pub open spec fn themes_ok(b: BuildModel, theme: Seq<(Seq<char>, Seq<char>)>) -> bool {
    &&& b.prefixes.len() == b.theme_sets.len()
    &&& forall|i: int| 0 <= i < b.prefixes.len() ==> b.theme_sets[i] == theme_values(theme, #[trigger] b.prefixes[i])
}

/// The keyword and theme-set lists only grow.
pub open spec fn lists_grow(b: BuildModel, b2: BuildModel) -> bool {
    b.keywords.is_prefix_of(b2.keywords) && b.theme_sets.is_prefix_of(b2.theme_sets)
}

proof fn lemma_lists_grow_trans(a: BuildModel, b: BuildModel, c: BuildModel)
    requires
        lists_grow(a, b),
        lists_grow(b, c),
    ensures
        lists_grow(a, c),
{
    assert(c.keywords.subrange(0, a.keywords.len() as int) =~= a.keywords) by {
        assert forall|q: int| 0 <= q < a.keywords.len() implies c.keywords[q] == a.keywords[q] by {
            assert(c.keywords[q] == c.keywords.subrange(0, b.keywords.len() as int)[q]);
            assert(b.keywords[q] == b.keywords.subrange(0, a.keywords.len() as int)[q]);
        }
    }
    assert(c.theme_sets.subrange(0, a.theme_sets.len() as int) =~= a.theme_sets) by {
        assert forall|q: int| 0 <= q < a.theme_sets.len() implies c.theme_sets[q] == a.theme_sets[q] by {
            assert(c.theme_sets[q] == c.theme_sets.subrange(0, b.theme_sets.len() as int)[q]);
            assert(b.theme_sets[q] == b.theme_sets.subrange(0, a.theme_sets.len() as int)[q]);
        }
    }
}

proof fn lemma_code_means_grow(b: BuildModel, b2: BuildModel, theme: Seq<(Seq<char>, Seq<char>)>, item: ItemModel, c: u16)
    requires
        code_means(b.keywords, b.theme_sets, theme, item, c),
        lists_grow(b, b2),
    ensures
        code_means(b2.keywords, b2.theme_sets, theme, item, c),
{
    match item {
        ItemModel::Keyword(k) => {
            let i = choose|i: int| 0 <= i < b.keywords.len() && b.keywords[i] == k && c == ((KW_OFFSET + i) % 65536) as u16;
            assert(b2.keywords[i] == b2.keywords.subrange(0, b.keywords.len() as int)[i]);
        },
        ItemModel::Type(_) => {},
        ItemModel::ThemeKey(p, has_star) => {
            if !(p == "--spacing"@ && !has_star) {
                let i = choose|i: int| 0 <= i < b.theme_sets.len() && b.theme_sets[i] == theme_values(theme, p) && c == ((TH_OFFSET + i) % 65536) as u16;
                assert(b2.theme_sets[i] == b2.theme_sets.subrange(0, b.theme_sets.len() as int)[i]);
            }
        },
    }
}

proof fn lemma_groups_mean_grow(b: BuildModel, b2: BuildModel, theme: Seq<(Seq<char>, Seq<char>)>, gs: Seq<Seq<u16>>, lists: Seq<Seq<ItemModel>>)
    requires
        groups_mean(b.keywords, b.theme_sets, theme, gs, lists),
        lists_grow(b, b2),
    ensures
        groups_mean(b2.keywords, b2.theme_sets, theme, gs, lists),
{
    assert forall|g: int, k: int| 0 <= g < gs.len() && 0 <= k < gs[g].len() implies code_means(b2.keywords, b2.theme_sets, theme, lists[g][k], #[trigger] gs[g][k]) by {
        lemma_code_means_grow(b, b2, theme, lists[g][k], gs[g][k]);
    }
}

proof fn lemma_code_of_means(b: BuildModel, theme: Seq<(Seq<char>, Seq<char>)>, item: ItemModel)
    requires
        themes_ok(b, theme),
    ensures
        themes_ok(code_of(b, theme, item).0, theme),
        lists_grow(b, code_of(b, theme, item).0),
        code_means(code_of(b, theme, item).0.keywords, code_of(b, theme, item).0.theme_sets, theme, item, code_of(b, theme, item).1),
{
    let (b2, c) = code_of(b, theme, item);
    match item {
        ItemModel::Keyword(k) => {
            crate::conflict::lemma_name_index(b.keywords, k, 0);
            match name_index(b.keywords, k, 0) {
                Some(i) => {},
                None => {
                    assert(b2.keywords[b.keywords.len() as int] == k);
                },
            }
        },
        ItemModel::Type(_) => {},
        ItemModel::ThemeKey(p, has_star) => {
            if !(p == "--spacing"@ && !has_star) {
                crate::conflict::lemma_name_index(b.prefixes, p, 0);
                match name_index(b.prefixes, p, 0) {
                    Some(i) => {
                        assert(b.theme_sets[i] == theme_values(theme, b.prefixes[i]));
                    },
                    None => {
                        assert(b2.theme_sets[b.theme_sets.len() as int] == theme_values(theme, p));
                        assert forall|i: int| 0 <= i < b2.prefixes.len() implies b2.theme_sets[i] == theme_values(theme, #[trigger] b2.prefixes[i]) by {
                            if i < b.prefixes.len() {
                                assert(b2.prefixes[i] == b.prefixes[i]);
                                assert(b2.theme_sets[i] == b.theme_sets[i]);
                            }
                        }
                    },
                }
            }
        },
    }
    assert(b2.keywords.subrange(0, b.keywords.len() as int) =~= b.keywords);
    assert(b2.theme_sets.subrange(0, b.theme_sets.len() as int) =~= b.theme_sets);
}

proof fn lemma_codes_of_means(b: BuildModel, theme: Seq<(Seq<char>, Seq<char>)>, items: Seq<ItemModel>)
    requires
        themes_ok(b, theme),
    ensures
        themes_ok(codes_of(b, theme, items).0, theme),
        lists_grow(b, codes_of(b, theme, items).0),
        codes_of(b, theme, items).1.len() == items.len(),
        forall|k: int| 0 <= k < items.len() ==> code_means(codes_of(b, theme, items).0.keywords, codes_of(b, theme, items).0.theme_sets,
            theme, items[k], #[trigger] codes_of(b, theme, items).1[k]),
    decreases items.len(),
{
    if items.len() == 0 {
        assert(b.keywords.subrange(0, b.keywords.len() as int) =~= b.keywords);
        assert(b.theme_sets.subrange(0, b.theme_sets.len() as int) =~= b.theme_sets);
    } else {
        let prev = items.drop_last();
        lemma_codes_of_means(b, theme, prev);
        let (b1, cs) = codes_of(b, theme, prev);
        lemma_code_of_means(b1, theme, items.last());
        let (b2, c) = code_of(b1, theme, items.last());
        lemma_lists_grow_trans(b, b1, b2);
        let cs2 = cs.push(c);
        assert forall|k: int| 0 <= k < items.len() implies code_means(b2.keywords, b2.theme_sets, theme, items[k], #[trigger] cs2[k]) by {
            if k < prev.len() {
                assert(prev[k] == items[k]);
                assert(cs2[k] == cs[k]);
                lemma_code_means_grow(b1, b2, theme, items[k], cs[k]);
            }
        }
    }
}

proof fn lemma_groups_of_means(b: BuildModel, theme: Seq<(Seq<char>, Seq<char>)>, props: Seq<(Seq<char>, Option<SpecModel>)>)
    requires
        themes_ok(b, theme),
    ensures
        themes_ok(groups_of(b, theme, props).0, theme),
        lists_grow(b, groups_of(b, theme, props).0),
        groups_mean(groups_of(b, theme, props).0.keywords, groups_of(b, theme, props).0.theme_sets, theme,
            groups_of(b, theme, props).1, marker_lists(props)),
    decreases props.len(),
{
    if props.len() == 0 {
        assert(b.keywords.subrange(0, b.keywords.len() as int) =~= b.keywords);
        assert(b.theme_sets.subrange(0, b.theme_sets.len() as int) =~= b.theme_sets);
    } else {
        let prev = props.drop_last();
        lemma_groups_of_means(b, theme, prev);
        let (b1, gs) = groups_of(b, theme, prev);
        let lists = marker_lists(prev);
        match props.last().1 {
            Some(SpecModel::Items(items)) => {
                lemma_codes_of_means(b1, theme, items);
                let (b2, cs) = codes_of(b1, theme, items);
                lemma_lists_grow_trans(b, b1, b2);
                lemma_groups_mean_grow(b1, b2, theme, gs, lists);
                let gs2 = gs.push(cs);
                let l2 = lists.push(items);
                assert forall|g: int| 0 <= g < gs2.len() implies (#[trigger] gs2[g]).len() == l2[g].len() by {
                    if g < gs.len() {
                        assert(gs2[g] == gs[g] && l2[g] == lists[g]);
                    }
                }
                assert forall|g: int, k: int| 0 <= g < gs2.len() && 0 <= k < gs2[g].len() implies
                    code_means(b2.keywords, b2.theme_sets, theme, l2[g][k], #[trigger] gs2[g][k]) by {
                    if g < gs.len() {
                        assert(gs2[g] == gs[g] && l2[g] == lists[g]);
                    } else {
                        assert(gs2[g] == cs && l2[g] == items);
                    }
                }
            },
            _ => {},
        }
    }
}

proof fn lemma_alts_means(b: BuildModel, theme: Seq<(Seq<char>, Seq<char>)>, alts: Seq<AltModel>)
    requires
        themes_ok(b, theme),
    ensures
        themes_ok(alts_pattern(b, theme, alts).0, theme),
        lists_grow(b, alts_pattern(b, theme, alts).0),
        alts_pattern(b, theme, alts).1.len() == alts.len(),
        forall|j: int| 0 <= j < alts.len() ==> groups_mean(alts_pattern(b, theme, alts).0.keywords, alts_pattern(b, theme, alts).0.theme_sets,
            theme, (#[trigger] alts_pattern(b, theme, alts).1[j]).groups, marker_lists(alts[j].props)),
    decreases alts.len(),
{
    if alts.len() == 0 {
        assert(b.keywords.subrange(0, b.keywords.len() as int) =~= b.keywords);
        assert(b.theme_sets.subrange(0, b.theme_sets.len() as int) =~= b.theme_sets);
    } else {
        let prev = alts.drop_last();
        lemma_alts_means(b, theme, prev);
        let (b1, ps) = alts_pattern(b, theme, prev);
        let a = alts.last();
        let (n2, key) = make_key_spec(b1.names, a.resolved);
        let c = ascending(key.ids);
        let sets2 = match set_index(b1.sets, c, 0) {
            Some(j) => b1.sets,
            None => b1.sets.push(c),
        };
        let bm = BuildModel { names: n2, sets: sets2, ..b1 };
        lemma_groups_of_means(bm, theme, a.props);
        let (b2, p) = alt_pattern(b1, theme, a);
        assert(b2 == groups_of(bm, theme, a.props).0);
        assert(lists_grow(b1, bm)) by {
            assert(bm.keywords.subrange(0, b1.keywords.len() as int) =~= b1.keywords);
            assert(bm.theme_sets.subrange(0, b1.theme_sets.len() as int) =~= b1.theme_sets);
        }
        lemma_lists_grow_trans(b1, bm, b2);
        lemma_lists_grow_trans(b, b1, b2);
        let ps2 = ps.push(p);
        assert forall|j: int| 0 <= j < alts.len() implies groups_mean(b2.keywords, b2.theme_sets, theme, (#[trigger] ps2[j]).groups, marker_lists(alts[j].props)) by {
            if j < prev.len() {
                assert(prev[j] == alts[j]);
                assert(ps2[j] == ps[j]);
                lemma_groups_mean_grow(b1, b2, theme, ps[j].groups, marker_lists(alts[j].props));
            } else {
                assert(ps2[j] == p);
                assert(alts[j] == a);
            }
        }
    }
}

pub open spec fn utils_mean(cat: Seq<(Seq<char>, Seq<AltModel>)>, kw: Seq<Seq<char>>, ts: Seq<Seq<Seq<char>>>, theme: Seq<(Seq<char>, Seq<char>)>, us: Seq<UtilModelP>) -> bool {
    forall|i: int| 0 <= i < us.len() ==> {
        &&& (#[trigger] us[i]).alts.len() == alts_named(cat, us[i].name).len()
        &&& forall|j: int| 0 <= j < us[i].alts.len() ==> groups_mean(kw, ts, theme, (#[trigger] us[i].alts[j]).groups,
            marker_lists(alts_named(cat, us[i].name)[j].props))
    }
}

proof fn lemma_utils_mean_grow(cat: Seq<(Seq<char>, Seq<AltModel>)>, b: BuildModel, b2: BuildModel, theme: Seq<(Seq<char>, Seq<char>)>, us: Seq<UtilModelP>)
    requires
        utils_mean(cat, b.keywords, b.theme_sets, theme, us),
        lists_grow(b, b2),
    ensures
        utils_mean(cat, b2.keywords, b2.theme_sets, theme, us),
{
    assert forall|i: int, j: int| 0 <= i < us.len() && 0 <= j < us[i].alts.len() implies groups_mean(b2.keywords, b2.theme_sets, theme,
        (#[trigger] us[i].alts[j]).groups, marker_lists(alts_named(cat, us[i].name)[j].props)) by {
        lemma_groups_mean_grow(b, b2, theme, us[i].alts[j].groups, marker_lists(alts_named(cat, us[i].name)[j].props));
    }
}

proof fn lemma_utils_means(b: BuildModel, ds: CatalogModel, names: Seq<Seq<char>>)
    requires
        themes_ok(b, ds.theme),
        utils_mean(ds.utilities, b.keywords, b.theme_sets, ds.theme, b.utilities),
    ensures
        themes_ok(utils_pattern(b, ds, names), ds.theme),
        lists_grow(b, utils_pattern(b, ds, names)),
        utils_mean(ds.utilities, utils_pattern(b, ds, names).keywords, utils_pattern(b, ds, names).theme_sets, ds.theme,
            utils_pattern(b, ds, names).utilities),
    decreases names.len(),
{
    if names.len() == 0 {
        assert(b.keywords.subrange(0, b.keywords.len() as int) =~= b.keywords);
        assert(b.theme_sets.subrange(0, b.theme_sets.len() as int) =~= b.theme_sets);
    } else {
        lemma_utils_means(b, ds, names.drop_last());
        let b1 = utils_pattern(b, ds, names.drop_last());
        let name = names.last();
        let alts = alts_named(ds.utilities, name);
        if alts.len() > 0 {
            lemma_alts_means(b1, ds.theme, alts);
            lemma_alts_pattern(b1, ds.theme, alts);
            let (b2, ps) = alts_pattern(b1, ds.theme, alts);
            lemma_lists_grow_trans(b, b1, b2);
            lemma_utils_mean_grow(ds.utilities, b1, b2, ds.theme, b1.utilities);
            let u = UtilModelP { name, wildcard: has_suffix(name, "*"@), alts: ps };
            let us = b2.utilities.push(u);
            let b3 = utils_pattern(b, ds, names);
            assert(b3.utilities == us && b3.keywords == b2.keywords && b3.theme_sets == b2.theme_sets && b3.prefixes == b2.prefixes);
            assert forall|i: int| 0 <= i < us.len() implies {
                &&& (#[trigger] us[i]).alts.len() == alts_named(ds.utilities, us[i].name).len()
                &&& forall|j: int| 0 <= j < us[i].alts.len() ==> groups_mean(b2.keywords, b2.theme_sets, ds.theme, (#[trigger] us[i].alts[j]).groups,
                    marker_lists(alts_named(ds.utilities, us[i].name)[j].props))
            } by {
                if i < b2.utilities.len() {
                    assert(us[i] == b1.utilities[i]);
                } else {
                    assert(us[i] == u);
                    assert forall|j: int| 0 <= j < us[i].alts.len() implies groups_mean(b2.keywords, b2.theme_sets, ds.theme, (#[trigger] us[i].alts[j]).groups,
                        marker_lists(alts_named(ds.utilities, us[i].name)[j].props)) by {
                        assert(ps[j] == us[i].alts[j]);
                    }
                }
            }
        }
    }
}

/// The codes of the pattern table: in every alternative of every utility,
/// the `g`-th code group holds one code per item of the `g`-th `--value(...)`
/// marker of the catalog alternative, and each code means its item (see
/// `code_means`): keywords and theme sets index the table's keyword and
/// theme-set lists.
pub proof fn law_pattern_item_codes(ds: CatalogModel)
    ensures
        forall|i: int, j: int| #![trigger pattern_spec(ds).utilities[i].alts[j]]
            0 <= i < pattern_spec(ds).utilities.len() && 0 <= j < pattern_spec(ds).utilities[i].alts.len() ==>
            groups_mean(pattern_spec(ds).keywords, pattern_spec(ds).theme_sets, ds.theme, pattern_spec(ds).utilities[i].alts[j].groups,
                marker_lists(alts_named(ds.utilities, pattern_spec(ds).utilities[i].name)[j].props)),
{
    let sorted = names_of(ds.utilities).sort_by(pattern_order());
    assert(themes_ok(empty_build(), ds.theme));
    lemma_utils_means(empty_build(), ds, sorted);
}

} // verus!
