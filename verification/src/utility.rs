//! Utility catalog: `@utility` rules with `--value(...)` markers, and the
//! resolution of a candidate base class to the CSS properties it generates.
//!
//! Marker semantics (those of Tailwind v4's `--value()` function):
//! - `--theme-key-*`  -> every theme key with that prefix
//! - `--theme-key`    -> a single theme key (`--spacing` is the spacing scale)
//! - `<type>`         -> a value of that type (see `values.rs`)
//! - `keyword`        -> a literal class suffix (e.g. `auto`, `full`); the
//!                       empty keyword accepts the bare class
//!
//! Resolution picks one utility for a name (an exact static name first, then
//! the wildcard with the longest prefix, then a wildcard `{name}-*` for the
//! bare name) and returns the first of its alternatives, in catalog order,
//! whose value specs accept the value.

use vstd::prelude::*;
use crate::css::{pairs, rules, text};
use crate::families::{prop_family, spec_prop_family, spec_utility_override, utility_override, ARBITRARY_PROPERTY_PREFIX};
use crate::text::{enc, cut_point, has_prefix, has_suffix, substr, str_eq, starts_with, ends_with, owned, concat, trim, trimmed, lemma_after_ascii};
use crate::theme::{Theme, has_entry};
use crate::trie::Trie;
use crate::values::{is_angle, is_any_non_arbitrary, is_arbitrary_angle, is_arbitrary_any, is_arbitrary_custom_property, is_arbitrary_family_name, is_arbitrary_fraction, is_arbitrary_function, is_arbitrary_ident, is_arbitrary_image, is_arbitrary_integer, is_arbitrary_length, is_arbitrary_number, is_arbitrary_percent, is_arbitrary_position, is_arbitrary_ratio, is_arbitrary_shadow, is_arbitrary_size, is_arbitrary_string, is_arbitrary_time, is_arbitrary_url, is_arbitrary_value, is_arbitrary_variable, is_arbitrary_variable_angle, is_arbitrary_variable_any, is_arbitrary_variable_custom_property, is_arbitrary_variable_family_name, is_arbitrary_variable_fraction, is_arbitrary_variable_ident, is_arbitrary_variable_image, is_arbitrary_variable_length, is_arbitrary_variable_number, is_arbitrary_variable_percent, is_arbitrary_variable_position, is_arbitrary_variable_shadow, is_arbitrary_variable_size, is_arbitrary_variable_string, is_arbitrary_variable_time, is_arbitrary_variable_url, is_arbitrary_variable_weight, is_arbitrary_weight, is_fraction, is_ident, is_image, is_integer, is_length_only, is_number, is_percent, is_position_keyword, is_shadow, is_time, is_tshirt_size, spec_is_angle, spec_is_any_non_arbitrary, spec_is_arbitrary_angle, spec_is_arbitrary_family_name, spec_is_arbitrary_fraction, spec_is_arbitrary_ident, spec_is_arbitrary_image, spec_is_arbitrary_integer, spec_is_arbitrary_length, spec_is_arbitrary_number, spec_is_arbitrary_percent, spec_is_arbitrary_position, spec_is_arbitrary_ratio, spec_is_arbitrary_shadow, spec_is_arbitrary_size, spec_is_arbitrary_time, spec_is_arbitrary_url, spec_is_arbitrary_value, spec_is_arbitrary_variable, spec_is_arbitrary_variable_angle, spec_is_arbitrary_variable_family_name, spec_is_arbitrary_variable_fraction, spec_is_arbitrary_variable_ident, spec_is_arbitrary_variable_image, spec_is_arbitrary_variable_length, spec_is_arbitrary_variable_number, spec_is_arbitrary_variable_percent, spec_is_arbitrary_variable_position, spec_is_arbitrary_variable_shadow, spec_is_arbitrary_variable_size, spec_is_arbitrary_variable_time, spec_is_arbitrary_variable_url, spec_is_arbitrary_variable_weight, spec_is_arbitrary_weight, spec_is_fraction, spec_is_ident, spec_is_image, spec_is_integer, spec_is_length_only, spec_is_number, spec_is_percent, spec_is_position_keyword, spec_is_shadow, spec_is_time, spec_is_tshirt_size};

verus! {

broadcast use {vstd::utf8::encode_utf8_valid_utf8, vstd::utf8::encode_utf8_decode_utf8};

// ---------------------------------------------------------------------------
// Data and its model
// ---------------------------------------------------------------------------

#[derive(Debug, Clone, PartialEq)]
pub enum SpecItem {
    Keyword(String),
    Type(&'static str),
    /// Theme key prefix with `*` (e.g. `--text-*`) or without (e.g. `--spacing`).
    ThemeKey {
        prefix: String,
        has_star: bool,
    },
}

#[derive(Debug, Clone, PartialEq)]
pub enum ValueSpec {
    /// Literal value (no marker): matches nothing, all props apply.
    Literal,
    /// `--value(...)` list of items.
    Items(Vec<SpecItem>),
}

/// The result of resolving a candidate base class (postfix already stripped).
#[derive(Debug, Clone)]
pub struct Resolved {
    /// Own family: the primary group id used for conflict checks.
    pub family: String,
    /// Families of all generated properties (used to accumulate conflicts).
    pub prop_families: Vec<String>,
}

#[derive(Debug, Clone)]
pub struct Alternative {
    /// (property, value spec): `None` = literal value (always applies),
    /// `Some(Items)` = the value must match at least one spec item.
    pub props: Vec<(String, Option<ValueSpec>)>,
    /// The families of this alternative, computed once at catalog build.
    pub resolved: Resolved,
}

#[derive(Clone)]
pub struct DesignSystem {
    pub theme: Theme,
    /// Utility name -> alternatives, each name once, in order of first
    /// appearance in the catalog.
    pub utilities: Vec<(String, Vec<Alternative>)>,
    /// Prefix trie over the utility names, built once with the catalog.
    pub trie: Trie,
}

pub enum ItemModel {
    Keyword(Seq<char>),
    Type(Seq<char>),
    ThemeKey(Seq<char>, bool),
}

pub enum SpecModel {
    Literal,
    Items(Seq<ItemModel>),
}

pub struct ResolvedModel {
    pub family: Seq<char>,
    pub prop_families: Seq<Seq<char>>,
}

pub struct AltModel {
    pub props: Seq<(Seq<char>, Option<SpecModel>)>,
    pub resolved: ResolvedModel,
}

pub struct CatalogModel {
    pub theme: Seq<(Seq<char>, Seq<char>)>,
    pub utilities: Seq<(Seq<char>, Seq<AltModel>)>,
}

pub open spec fn strs(v: Seq<String>) -> Seq<Seq<char>> {
    v.map_values(|s: String| s@)
}

impl View for SpecItem {
    type V = ItemModel;

    open spec fn view(&self) -> ItemModel {
        match self {
            SpecItem::Keyword(k) => ItemModel::Keyword(k@),
            SpecItem::Type(t) => ItemModel::Type(t@),
            SpecItem::ThemeKey { prefix, has_star } => ItemModel::ThemeKey(prefix@, *has_star),
        }
    }
}

pub open spec fn items_view(v: Seq<SpecItem>) -> Seq<ItemModel> {
    v.map_values(|i: SpecItem| i@)
}

impl View for ValueSpec {
    type V = SpecModel;

    open spec fn view(&self) -> SpecModel {
        match self {
            ValueSpec::Literal => SpecModel::Literal,
            ValueSpec::Items(items) => SpecModel::Items(items_view(items@)),
        }
    }
}

impl View for Resolved {
    type V = ResolvedModel;

    open spec fn view(&self) -> ResolvedModel {
        ResolvedModel { family: self.family@, prop_families: strs(self.prop_families@) }
    }
}

pub open spec fn spec_view(s: Option<ValueSpec>) -> Option<SpecModel> {
    match s {
        Some(x) => Some(x@),
        None => None,
    }
}

pub open spec fn props_view(v: Seq<(String, Option<ValueSpec>)>) -> Seq<(Seq<char>, Option<SpecModel>)> {
    v.map_values(|p: (String, Option<ValueSpec>)| (p.0@, spec_view(p.1)))
}

impl View for Alternative {
    type V = AltModel;

    open spec fn view(&self) -> AltModel {
        AltModel { props: props_view(self.props@), resolved: self.resolved@ }
    }
}

pub open spec fn alts_view(v: Seq<Alternative>) -> Seq<AltModel> {
    v.map_values(|a: Alternative| a@)
}

pub open spec fn entries_view(v: Seq<(String, Vec<Alternative>)>) -> Seq<(Seq<char>, Seq<AltModel>)> {
    v.map_values(|e: (String, Vec<Alternative>)| (e.0@, alts_view(e.1@)))
}

impl View for DesignSystem {
    type V = CatalogModel;

    open spec fn view(&self) -> CatalogModel {
        CatalogModel { theme: self.theme@, utilities: entries_view(self.utilities@) }
    }
}

impl Resolved {
    /// A copy with the same family and property families.
    pub fn duplicate(&self) -> (r: Resolved)
        ensures
            r@ == self@,
    {
        let mut fams: Vec<String> = Vec::new();
        let mut i: usize = 0;
        while i < self.prop_families.len()
            invariant
                0 <= i <= self.prop_families@.len(),
                strs(fams@) == strs(self.prop_families@).subrange(0, i as int),
            decreases self.prop_families@.len() - i,
        {
            let ghost before = strs(fams@);
            fams.push(self.prop_families[i].clone());
            assert(strs(fams@) =~= before.push(self.prop_families@[i as int]@));
            assert(strs(self.prop_families@).subrange(0, i + 1) =~= strs(self.prop_families@).subrange(0, i as int).push(self.prop_families@[i as int]@));
            i = i + 1;
        }
        assert(strs(self.prop_families@).subrange(0, i as int) =~= strs(self.prop_families@));
        Resolved { family: self.family.clone(), prop_families: fams }
    }
}

// ---------------------------------------------------------------------------
// Which values a spec item accepts
// ---------------------------------------------------------------------------

/// What a plain type accepts (`size`, `string`, `custom-property`, `function` and
/// `arbitrary` accept nothing).
pub open spec fn plain_type_accepts(t: Seq<char>, v: Seq<char>) -> bool {
    if t == "any"@ { true }
    else if t == "color"@ { true }
    else if t == "number"@ { spec_is_number(v) }
    else if t == "integer"@ { spec_is_integer(v) }
    else if t == "percentage"@ { spec_is_percent(v) }
    else if t == "fraction"@ { spec_is_fraction(v) }
    else if t == "tshirt"@ { spec_is_tshirt_size(v) }
    else if t == "length"@ { spec_is_length_only(v) }
    else if t == "shadow"@ { spec_is_shadow(v) }
    else if t == "image"@ { spec_is_image(v) }
    else if t == "url"@ { true }
    else if t == "position"@ { spec_is_position_keyword(v) }
    else if t == "ratio"@ { spec_is_fraction(v) || spec_is_number(v) }
    else if t == "weight"@ { spec_is_number(v) }
    else if t == "family-name"@ { spec_is_any_non_arbitrary(v) }
    else if t == "angle"@ { spec_is_angle(v) }
    else if t == "time"@ { spec_is_time(v) }
    else if t == "custom-ident"@ { spec_is_ident(v) }
    else if t == "spacing"@ { v == "px"@ || spec_is_number(v) || spec_is_arbitrary_value(v) || spec_is_arbitrary_variable(v) }
    else if t == "any-non-arbitrary"@ { spec_is_any_non_arbitrary(v) }
    else { false }
}

/// What an arbitrary-value type (`a-...`, square brackets) accepts.
pub open spec fn arbitrary_type_accepts(t: Seq<char>, v: Seq<char>) -> bool {
    if t == "a-length"@ { spec_is_arbitrary_length(v) }
    else if t == "a-number"@ { spec_is_arbitrary_number(v) }
    else if t == "a-integer"@ { spec_is_arbitrary_integer(v) }
    else if t == "a-percent"@ { spec_is_arbitrary_percent(v) }
    else if t == "a-fraction"@ { spec_is_arbitrary_fraction(v) }
    else if t == "a-size"@ { spec_is_arbitrary_size(v) }
    else if t == "a-position"@ { spec_is_arbitrary_position(v) }
    else if t == "a-shadow"@ { spec_is_arbitrary_shadow(v) }
    else if t == "a-image"@ { spec_is_arbitrary_image(v) }
    else if t == "a-weight"@ { spec_is_arbitrary_weight(v) }
    else if t == "a-family-name"@ { spec_is_arbitrary_family_name(v) }
    else if t == "a-angle"@ { spec_is_arbitrary_angle(v) }
    else if t == "a-time"@ { spec_is_arbitrary_time(v) }
    else if t == "a-ratio"@ { spec_is_arbitrary_ratio(v) }
    else if t == "a-ident"@ { spec_is_arbitrary_ident(v) }
    else if t == "a-url"@ { spec_is_arbitrary_url(v) }
    else if t == "a-string"@ { spec_is_arbitrary_value(v) }
    else if t == "a-custom-property"@ { spec_is_arbitrary_value(v) }
    else if t == "a-function"@ { spec_is_arbitrary_value(v) }
    else if t == "a-any"@ { spec_is_arbitrary_value(v) }
    else { false }
}

/// What an arbitrary-variable type (`v-...`, parentheses) accepts.
pub open spec fn variable_type_accepts(t: Seq<char>, v: Seq<char>) -> bool {
    if t == "v-length"@ { spec_is_arbitrary_variable_length(v) }
    else if t == "v-number"@ { spec_is_arbitrary_variable_number(v) }
    else if t == "v-integer"@ { spec_is_arbitrary_variable_number(v) }
    else if t == "v-percent"@ { spec_is_arbitrary_variable_percent(v) }
    else if t == "v-fraction"@ { spec_is_arbitrary_variable_fraction(v) }
    else if t == "v-size"@ { spec_is_arbitrary_variable_size(v) }
    else if t == "v-position"@ { spec_is_arbitrary_variable_position(v) }
    else if t == "v-shadow"@ { spec_is_arbitrary_variable_shadow(v) }
    else if t == "v-image"@ { spec_is_arbitrary_variable_image(v) }
    else if t == "v-weight"@ { spec_is_arbitrary_variable_weight(v) }
    else if t == "v-family-name"@ { spec_is_arbitrary_variable_family_name(v) }
    else if t == "v-angle"@ { spec_is_arbitrary_variable_angle(v) }
    else if t == "v-time"@ { spec_is_arbitrary_variable_time(v) }
    else if t == "v-ident"@ { spec_is_arbitrary_variable_ident(v) }
    else if t == "v-url"@ { spec_is_arbitrary_variable_url(v) }
    else if t == "v-string"@ { spec_is_arbitrary_variable(v) }
    else if t == "v-custom-property"@ { spec_is_arbitrary_variable(v) }
    else if t == "v-any"@ { spec_is_arbitrary_variable(v) }
    else { false }
}

fn plain_type_matches(t: &str, value: &str) -> (r: bool)
    ensures
        r == plain_type_accepts(t@, value@),
{
    if str_eq(t, "any") { true }
    else if str_eq(t, "color") { true }
    else if str_eq(t, "number") { is_number(value) }
    else if str_eq(t, "integer") { is_integer(value) }
    else if str_eq(t, "percentage") { is_percent(value) }
    else if str_eq(t, "fraction") { is_fraction(value) }
    else if str_eq(t, "tshirt") { is_tshirt_size(value) }
    else if str_eq(t, "length") { is_length_only(value) }
    else if str_eq(t, "shadow") { is_shadow(value) }
    else if str_eq(t, "image") { is_image(value) }
    else if str_eq(t, "url") { true }
    else if str_eq(t, "position") { is_position_keyword(value) }
    else if str_eq(t, "ratio") { is_fraction(value) || is_number(value) }
    else if str_eq(t, "weight") { is_number(value) }
    else if str_eq(t, "family-name") { is_any_non_arbitrary(value) }
    else if str_eq(t, "angle") { is_angle(value) }
    else if str_eq(t, "time") { is_time(value) }
    else if str_eq(t, "custom-ident") { is_ident(value) }
    else if str_eq(t, "spacing") { str_eq(value, "px") || is_number(value) || is_arbitrary_value(value) || is_arbitrary_variable(value) }
    else if str_eq(t, "any-non-arbitrary") { is_any_non_arbitrary(value) }
    else { false }
}

fn arbitrary_type_matches(t: &str, value: &str) -> (r: bool)
    ensures
        r == arbitrary_type_accepts(t@, value@),
{
    if str_eq(t, "a-length") { is_arbitrary_length(value) }
    else if str_eq(t, "a-number") { is_arbitrary_number(value) }
    else if str_eq(t, "a-integer") { is_arbitrary_integer(value) }
    else if str_eq(t, "a-percent") { is_arbitrary_percent(value) }
    else if str_eq(t, "a-fraction") { is_arbitrary_fraction(value) }
    else if str_eq(t, "a-size") { is_arbitrary_size(value) }
    else if str_eq(t, "a-position") { is_arbitrary_position(value) }
    else if str_eq(t, "a-shadow") { is_arbitrary_shadow(value) }
    else if str_eq(t, "a-image") { is_arbitrary_image(value) }
    else if str_eq(t, "a-weight") { is_arbitrary_weight(value) }
    else if str_eq(t, "a-family-name") { is_arbitrary_family_name(value) }
    else if str_eq(t, "a-angle") { is_arbitrary_angle(value) }
    else if str_eq(t, "a-time") { is_arbitrary_time(value) }
    else if str_eq(t, "a-ratio") { is_arbitrary_ratio(value) }
    else if str_eq(t, "a-ident") { is_arbitrary_ident(value) }
    else if str_eq(t, "a-url") { is_arbitrary_url(value) }
    else if str_eq(t, "a-string") { is_arbitrary_string(value) }
    else if str_eq(t, "a-custom-property") { is_arbitrary_custom_property(value) }
    else if str_eq(t, "a-function") { is_arbitrary_function(value) }
    else if str_eq(t, "a-any") { is_arbitrary_any(value) }
    else { false }
}

fn variable_type_matches(t: &str, value: &str) -> (r: bool)
    ensures
        r == variable_type_accepts(t@, value@),
{
    if str_eq(t, "v-length") { is_arbitrary_variable_length(value) }
    else if str_eq(t, "v-number") { is_arbitrary_variable_number(value) }
    else if str_eq(t, "v-integer") { is_arbitrary_variable_number(value) }
    else if str_eq(t, "v-percent") { is_arbitrary_variable_percent(value) }
    else if str_eq(t, "v-fraction") { is_arbitrary_variable_fraction(value) }
    else if str_eq(t, "v-size") { is_arbitrary_variable_size(value) }
    else if str_eq(t, "v-position") { is_arbitrary_variable_position(value) }
    else if str_eq(t, "v-shadow") { is_arbitrary_variable_shadow(value) }
    else if str_eq(t, "v-image") { is_arbitrary_variable_image(value) }
    else if str_eq(t, "v-weight") { is_arbitrary_variable_weight(value) }
    else if str_eq(t, "v-family-name") { is_arbitrary_variable_family_name(value) }
    else if str_eq(t, "v-angle") { is_arbitrary_variable_angle(value) }
    else if str_eq(t, "v-time") { is_arbitrary_variable_time(value) }
    else if str_eq(t, "v-ident") { is_arbitrary_variable_ident(value) }
    else if str_eq(t, "v-url") { is_arbitrary_variable_url(value) }
    else if str_eq(t, "v-string") { is_arbitrary_variable_string(value) }
    else if str_eq(t, "v-custom-property") { is_arbitrary_variable_custom_property(value) }
    else if str_eq(t, "v-any") { is_arbitrary_variable_any(value) }
    else { false }
}

/// The types a `--value(<type>)` marker may name.
pub open spec fn marker_type(t: Seq<char>) -> bool {
    t == "length"@
    || t == "number"@
    || t == "integer"@
    || t == "percentage"@
    || t == "fraction"@
    || t == "tshirt"@
    || t == "shadow"@
    || t == "image"@
    || t == "url"@
    || t == "position"@
    || t == "size"@
    || t == "ratio"@
    || t == "weight"@
    || t == "family-name"@
    || t == "angle"@
    || t == "time"@
    || t == "string"@
    || t == "custom-property"@
    || t == "custom-ident"@
    || t == "function"@
    || t == "arbitrary"@
    || t == "any"@
    || t == "color"@
    || t == "spacing"@
    || t == "any-non-arbitrary"@
    || t == "a-length"@
    || t == "a-number"@
    || t == "a-weight"@
    || t == "a-size"@
    || t == "a-position"@
    || t == "a-image"@
    || t == "a-shadow"@
    || t == "a-family-name"@
    || t == "a-any"@
    || t == "v-length"@
    || t == "v-number"@
    || t == "v-weight"@
    || t == "v-size"@
    || t == "v-position"@
    || t == "v-image"@
    || t == "v-shadow"@
    || t == "v-family-name"@
    || t == "v-any"@
}

/// The static name of a marker type; `None` for an unknown type.
fn static_type(t: &str) -> (r: Option<&'static str>)
    ensures
        r is Some <==> marker_type(t@),
        r matches Some(s) ==> s@ == t@,
{
    if str_eq(t, "length") { Some("length") }
    else if str_eq(t, "number") { Some("number") }
    else if str_eq(t, "integer") { Some("integer") }
    else if str_eq(t, "percentage") { Some("percentage") }
    else if str_eq(t, "fraction") { Some("fraction") }
    else if str_eq(t, "tshirt") { Some("tshirt") }
    else if str_eq(t, "shadow") { Some("shadow") }
    else if str_eq(t, "image") { Some("image") }
    else if str_eq(t, "url") { Some("url") }
    else if str_eq(t, "position") { Some("position") }
    else if str_eq(t, "size") { Some("size") }
    else if str_eq(t, "ratio") { Some("ratio") }
    else if str_eq(t, "weight") { Some("weight") }
    else if str_eq(t, "family-name") { Some("family-name") }
    else if str_eq(t, "angle") { Some("angle") }
    else if str_eq(t, "time") { Some("time") }
    else if str_eq(t, "string") { Some("string") }
    else if str_eq(t, "custom-property") { Some("custom-property") }
    else if str_eq(t, "custom-ident") { Some("custom-ident") }
    else if str_eq(t, "function") { Some("function") }
    else if str_eq(t, "arbitrary") { Some("arbitrary") }
    else if str_eq(t, "any") { Some("any") }
    else if str_eq(t, "color") { Some("color") }
    else if str_eq(t, "spacing") { Some("spacing") }
    else if str_eq(t, "any-non-arbitrary") { Some("any-non-arbitrary") }
    else if str_eq(t, "a-length") { Some("a-length") }
    else if str_eq(t, "a-number") { Some("a-number") }
    else if str_eq(t, "a-weight") { Some("a-weight") }
    else if str_eq(t, "a-size") { Some("a-size") }
    else if str_eq(t, "a-position") { Some("a-position") }
    else if str_eq(t, "a-image") { Some("a-image") }
    else if str_eq(t, "a-shadow") { Some("a-shadow") }
    else if str_eq(t, "a-family-name") { Some("a-family-name") }
    else if str_eq(t, "a-any") { Some("a-any") }
    else if str_eq(t, "v-length") { Some("v-length") }
    else if str_eq(t, "v-number") { Some("v-number") }
    else if str_eq(t, "v-weight") { Some("v-weight") }
    else if str_eq(t, "v-size") { Some("v-size") }
    else if str_eq(t, "v-position") { Some("v-position") }
    else if str_eq(t, "v-image") { Some("v-image") }
    else if str_eq(t, "v-shadow") { Some("v-shadow") }
    else if str_eq(t, "v-family-name") { Some("v-family-name") }
    else if str_eq(t, "v-any") { Some("v-any") }
    else { None }
}

/// What a `<type>` marker item accepts; unknown types accept nothing.
pub open spec fn type_accepts(t: Seq<char>, v: Seq<char>) -> bool {
    if has_prefix(t, "a-"@) {
        arbitrary_type_accepts(t, v)
    } else if has_prefix(t, "v-"@) {
        variable_type_accepts(t, v)
    } else {
        plain_type_accepts(t, v)
    }
}

/// What a spec item accepts, against the theme's custom properties.
pub open spec fn item_accepts(item: ItemModel, theme: Seq<(Seq<char>, Seq<char>)>, v: Seq<char>) -> bool {
    match item {
        ItemModel::Keyword(k) => v == k,
        ItemModel::ThemeKey(prefix, has_star) => if !has_star && prefix == "--spacing"@ {
            // The spacing scale: `px`, any number, an arbitrary value or an
            // arbitrary variable.
            v == "px"@ || spec_is_number(v) || spec_is_arbitrary_value(v) || spec_is_arbitrary_variable(v)
        } else {
            &&& !spec_is_arbitrary_value(v)
            &&& !spec_is_arbitrary_variable(v)
            &&& has_entry(theme, prefix + v)
        },
        ItemModel::Type(t) => type_accepts(t, v),
    }
}

fn type_matches(t: &str, value: &str) -> (r: bool)
    ensures
        r == type_accepts(t@, value@),
{
    if starts_with(t, "a-") {
        arbitrary_type_matches(t, value)
    } else if starts_with(t, "v-") {
        variable_type_matches(t, value)
    } else {
        plain_type_matches(t, value)
    }
}

impl SpecItem {
    /// Does the item accept the value?
    pub fn matches(&self, ds: &DesignSystem, value: &str) -> (r: bool)
        ensures
            r == item_accepts(self@, ds.theme@, value@),
    {
        match self {
            SpecItem::Keyword(k) => str_eq(value, k.as_str()),
            SpecItem::ThemeKey { prefix, has_star } => {
                if !*has_star && str_eq(prefix.as_str(), "--spacing") {
                    return str_eq(value, "px") || is_number(value) || is_arbitrary_value(value)
                        || is_arbitrary_variable(value);
                }
                if is_arbitrary_value(value) || is_arbitrary_variable(value) {
                    return false;
                }
                ds.theme.has_key_with_prefix(prefix.as_str(), value)
            },
            SpecItem::Type(t) => type_matches(t, value),
        }
    }
}


// ---------------------------------------------------------------------------
// `--value(...)` markers
// ---------------------------------------------------------------------------

/// First index at or after `i` of byte `c`.
pub open spec fn first_byte(b: Seq<u8>, c: u8, i: int) -> Option<int>
    decreases b.len() - i,
{
    if i < 0 || i >= b.len() {
        None
    } else if b[i] == c {
        Some(i)
    } else {
        first_byte(b, c, i + 1)
    }
}

pub proof fn lemma_first_byte(b: Seq<u8>, c: u8, i: int)
    requires
        0 <= i <= b.len(),
    ensures
        first_byte(b, c, i) matches Some(k) ==> i <= k < b.len() && b[k] == c
            && forall|m: int| i <= m < k ==> b[m] != c,
        first_byte(b, c, i) is None ==> forall|m: int| i <= m < b.len() ==> b[m] != c,
    decreases b.len() - i,
{
    if i < b.len() && b[i] != c {
        lemma_first_byte(b, c, i + 1);
    }
}

/// A color type stands for its arbitrary value and variable too.
pub open spec fn av_items(t: Seq<char>) -> Seq<ItemModel> {
    if t == "any"@ || t == "color"@ {
        seq![ItemModel::Type(t), ItemModel::Type("a-any"@), ItemModel::Type("v-any"@)]
    } else {
        seq![ItemModel::Type(t)]
    }
}

/// The spec items of one comma-separated piece of a marker. Only
/// angle-bracketed words are types (an unknown type becomes a keyword that
/// never matches); a `*` makes a theme-key prefix; `--name` is a single
/// theme key; anything else, the empty piece included, is a keyword.
pub open spec fn items_of(raw: Seq<char>) -> Seq<ItemModel> {
    let b = enc(raw);
    if b.len() >= 2 && b[0] == '<' as u8 && b[b.len() - 1] == '>' as u8 {
        let ty = text(b, 1, b.len() - 1);
        if marker_type(ty) { av_items(ty) } else { seq![ItemModel::Keyword(raw)] }
    } else {
        match first_byte(b, '*' as u8, 0) {
            Some(k) => seq![ItemModel::ThemeKey(text(b, 0, k), true)],
            None => if has_prefix(raw, "--"@) {
                seq![ItemModel::ThemeKey(raw, false)]
            } else {
                seq![ItemModel::Keyword(raw)]
            },
        }
    }
}

/// The trimmed pieces of a marker, split at commas outside brackets and
/// parentheses, from byte `i` on; the current piece started at `start`.
pub open spec fn marker_pieces(b: Seq<u8>, i: int, depth: nat, start: int) -> Seq<Seq<char>>
    decreases b.len() - i,
{
    if i < 0 || i >= b.len() {
        seq![trimmed(text(b, start, b.len() as int))]
    } else if b[i] == '(' as u8 || b[i] == '[' as u8 {
        marker_pieces(b, i + 1, depth + 1, start)
    } else if b[i] == ')' as u8 || b[i] == ']' as u8 {
        marker_pieces(b, i + 1, if depth > 0 { (depth - 1) as nat } else { 0 }, start)
    } else if b[i] == ',' as u8 && depth == 0 {
        seq![trimmed(text(b, start, i))] + marker_pieces(b, i + 1, 0, i + 1)
    } else {
        marker_pieces(b, i + 1, depth, start)
    }
}

pub open spec fn all_items(pieces: Seq<Seq<char>>) -> Seq<ItemModel>
    decreases pieces.len(),
{
    if pieces.len() == 0 {
        Seq::empty()
    } else {
        all_items(pieces.drop_last()) + items_of(pieces.last())
    }
}

/// The spec items of a marker's inner text.
pub open spec fn marker_items(inner: Seq<char>) -> Seq<ItemModel> {
    all_items(marker_pieces(enc(inner), 0, 0, 0))
}

/// `--value(` starts at byte `k`.
pub open spec fn value_open_at(b: Seq<u8>, k: int) -> bool {
    &&& 0 <= k && k + 8 <= b.len()
    &&& b[k] == '-' as u8 && b[k + 1] == '-' as u8 && b[k + 2] == 'v' as u8 && b[k + 3] == 'a' as u8
    &&& b[k + 4] == 'l' as u8 && b[k + 5] == 'u' as u8 && b[k + 6] == 'e' as u8 && b[k + 7] == '(' as u8
}

pub open spec fn find_value_open(b: Seq<u8>, i: int) -> Option<int>
    decreases b.len() - i,
{
    if i < 0 || i + 8 > b.len() {
        None
    } else if value_open_at(b, i) {
        Some(i)
    } else {
        find_value_open(b, i + 1)
    }
}

/// The `)` that brings the depth back to zero, scanning from `j`.
pub open spec fn close_paren(b: Seq<u8>, j: int, depth: nat) -> Option<int>
    decreases b.len() - j,
{
    if j < 0 || j >= b.len() {
        None
    } else if b[j] == '(' as u8 {
        close_paren(b, j + 1, depth + 1)
    } else if b[j] == ')' as u8 {
        if depth <= 1 { Some(j) } else { close_paren(b, j + 1, (depth - 1) as nat) }
    } else {
        close_paren(b, j + 1, depth)
    }
}

/// The inner text of the first `--value(...)` marker of a declaration value.
pub open spec fn value_marker(v: Seq<char>) -> Option<Seq<char>> {
    let b = enc(v);
    match find_value_open(b, 0) {
        Some(s) => match close_paren(b, s + 8, 1) {
            Some(e) => Some(text(b, s + 8, e)),
            None => None,
        },
        None => None,
    }
}

proof fn lemma_close_paren(b: Seq<u8>, j: int, depth: nat)
    requires
        0 <= j <= b.len(),
    ensures
        close_paren(b, j, depth) matches Some(e) ==> j <= e < b.len() && b[e] == ')' as u8,
    decreases b.len() - j,
{
    if j < b.len() {
        if b[j] == '(' as u8 {
            lemma_close_paren(b, j + 1, depth + 1);
        } else if b[j] == ')' as u8 {
            if depth > 1 {
                lemma_close_paren(b, j + 1, (depth - 1) as nat);
            }
        } else {
            lemma_close_paren(b, j + 1, depth);
        }
    }
}

proof fn lemma_find_value_open(b: Seq<u8>, i: int)
    requires
        0 <= i,
    ensures
        find_value_open(b, i) matches Some(k) ==> i <= k && value_open_at(b, k),
    decreases b.len() - i,
{
    if i + 8 <= b.len() && !value_open_at(b, i) {
        lemma_find_value_open(b, i + 1);
    }
}

/// An ASCII byte of valid UTF-8 is a cut point.
proof fn lemma_ascii_cut(b: Seq<u8>, i: int)
    requires
        0 <= i < b.len(),
        b[i] < 0x80,
    ensures
        cut_point(b, i),
{
}

/// Where the first `--value(` starts.
fn find_open(b: &[u8]) -> (r: Option<usize>)
    ensures
        r is Some <==> find_value_open(b@, 0) is Some,
        r matches Some(k) ==> find_value_open(b@, 0) == Some(k as int) && value_open_at(b@, k as int),
{
    let len = b.len();
    if len < 8 {
        return None;
    }
    let mut k: usize = 0;
    while k <= len - 8
        invariant
            len == b@.len(),
            8 <= len,
            k <= len - 7,
            find_value_open(b@, 0) == find_value_open(b@, k as int),
        decreases len - k,
    {
        if b[k] == 45u8 && b[k + 1] == 45u8 && b[k + 2] == 118u8 && b[k + 3] == 97u8 && b[k + 4] == 108u8
            && b[k + 5] == 117u8 && b[k + 6] == 101u8 && b[k + 7] == 40u8 {
            return Some(k);
        }
        k = k + 1;
    }
    None
}

/// The inner text of the first `--value(...)` marker, if it is closed.
fn extract_value_marker(value: &str) -> (r: Option<&str>)
    ensures
        r is Some <==> value_marker(value@) is Some,
        r matches Some(s) ==> value_marker(value@) == Some(s@),
{
    let b = value.as_bytes();
    let len = b.len();
    let k = match find_open(b) {
        Some(k) => k,
        None => {
            return None;
        },
    };
    let mut depth: usize = 1;
    let mut j: usize = k + 8;
    while j < len
        invariant
            b@ == enc(value@),
            len == b@.len(),
            k + 8 <= j <= len,
            value_open_at(b@, k as int),
            find_value_open(b@, 0) == Some(k as int),
            1 <= depth <= j,
            close_paren(b@, k + 8, 1) == close_paren(b@, j as int, depth as nat),
        decreases len - j,
    {
        let c = b[j];
        if c == 40u8 {
            depth = depth + 1;
        } else if c == 41u8 {
            if depth == 1 {
                proof {
                    lemma_after_ascii(b@, k + 7);
                    lemma_ascii_cut(b@, j as int);
                }
                return Some(substr(value, k + 8, j));
            }
            depth = depth - 1;
        }
        j = j + 1;
    }
    None
}

/// Index of the first byte `c`, or the length when there is none.
pub(crate) fn find_byte(b: &[u8], c: u8) -> (r: usize)
    ensures
        r <= b@.len(),
        r < b@.len() ==> first_byte(b@, c, 0) == Some(r as int) && b@[r as int] == c,
        r == b@.len() ==> first_byte(b@, c, 0) is None,
{
    let mut k: usize = 0;
    while k < b.len()
        invariant
            k <= b@.len(),
            first_byte(b@, c, 0) == first_byte(b@, c, k as int),
        decreases b@.len() - k,
    {
        if b[k] == c {
            return k;
        }
        k = k + 1;
    }
    k
}

/// A shorthand for the arbitrary-value + arbitrary-variable variants of a type.
fn av(plain: &'static str) -> (r: Vec<SpecItem>)
    ensures
        items_view(r@) == av_items(plain@),
{
    let r = if str_eq(plain, "any") || str_eq(plain, "color") {
        vec![SpecItem::Type(plain), SpecItem::Type("a-any"), SpecItem::Type("v-any")]
    } else {
        vec![SpecItem::Type(plain)]
    };
    assert(items_view(r@) =~= av_items(plain@));
    r
}

fn push_item(items: &mut Vec<SpecItem>, raw: &str)
    ensures
        items_view(final(items)@) == items_view(old(items)@) + items_of(raw@),
{
    let ghost before = items_view(items@);
    let b = raw.as_bytes();
    let n = b.len();
    if n >= 2 && b[0] == 60u8 && b[n - 1] == 62u8 {
        proof {
            lemma_after_ascii(b@, 0);
            lemma_ascii_cut(b@, n - 1);
        }
        let ty = substr(raw, 1, n - 1);
        match static_type(ty) {
            Some(t) => {
                let mut extra = av(t);
                items.append(&mut extra);
                assert(items_view(items@) =~= before + items_of(raw@));
            },
            None => {
                items.push(SpecItem::Keyword(owned(raw)));
                assert(items_view(items@) =~= before + items_of(raw@));
            },
        }
        return;
    }
    let k = find_byte(b, 42u8);
    if k < n {
        proof { lemma_ascii_cut(b@, k as int); }
        let prefix = owned(substr(raw, 0, k));
        items.push(SpecItem::ThemeKey { prefix, has_star: true });
        assert(items_view(items@) =~= before + items_of(raw@));
    } else if starts_with(raw, "--") {
        items.push(SpecItem::ThemeKey { prefix: owned(raw), has_star: false });
        assert(items_view(items@) =~= before + items_of(raw@));
    } else {
        items.push(SpecItem::Keyword(owned(raw)));
        assert(items_view(items@) =~= before + items_of(raw@));
    }
}

/// Expands a `--value(...)` marker's inner text into spec items.
pub fn parse_marker(inner: &str) -> (r: Vec<SpecItem>)
    ensures
        items_view(r@) == marker_items(inner@),
{
    let b = inner.as_bytes();
    let len = b.len();
    let mut items: Vec<SpecItem> = Vec::new();
    let mut depth: usize = 0;
    let mut start: usize = 0;
    let mut i: usize = 0;
    let ghost mut done: Seq<Seq<char>> = Seq::empty();
    assert(done + marker_pieces(b@, 0, 0, 0) =~= marker_pieces(b@, 0, 0, 0));
    while i < len
        invariant
            b@ == enc(inner@),
            len == b@.len(),
            start <= i <= len,
            depth <= i,
            cut_point(b@, start as int),
            marker_pieces(b@, 0, 0, 0) == done + marker_pieces(b@, i as int, depth as nat, start as int),
            items_view(items@) == all_items(done),
        decreases len - i,
    {
        let c = b[i];
        if c == 40u8 || c == 91u8 {
            depth = depth + 1;
        } else if c == 41u8 || c == 93u8 {
            depth = if depth > 0 { depth - 1 } else { 0 };
        } else if c == 44u8 && depth == 0 {
            proof {
                lemma_ascii_cut(b@, i as int);
                lemma_after_ascii(b@, i as int);
            }
            let piece = trim(substr(inner, start, i));
            push_item(&mut items, piece);
            proof {
                let p = trimmed(text(b@, start as int, i as int));
                assert(done.push(p).drop_last() =~= done);
                assert(done + (seq![p] + marker_pieces(b@, i + 1, 0, i + 1)) =~= done.push(p) + marker_pieces(b@, i + 1, 0, i + 1));
                done = done.push(p);
            }
            start = i + 1;
        }
        i = i + 1;
    }
    let piece = trim(substr(inner, start, len));
    push_item(&mut items, piece);
    proof {
        let p = trimmed(text(b@, start as int, len as int));
        assert(done.push(p).drop_last() =~= done);
        assert(done + seq![p] =~= done.push(p));
    }
    items
}


// ---------------------------------------------------------------------------
// Alternatives and the catalog
// ---------------------------------------------------------------------------

/// `utility` without its trailing `*`s: where the run of `*` before byte `k` starts.
pub open spec fn stars_end(b: Seq<u8>, k: int) -> int
    decreases k,
{
    if k > 0 && k <= b.len() && b[k - 1] == '*' as u8 { stars_end(b, k - 1) } else { k }
}

pub open spec fn without_stars(u: Seq<char>) -> Seq<char> {
    let b = enc(u);
    text(b, 0, stars_end(b, b.len() as int))
}

proof fn lemma_stars_end(b: Seq<u8>, k: int)
    requires
        0 <= k <= b.len(),
    ensures
        0 <= stars_end(b, k) <= k,
        stars_end(b, k) < k ==> b[stars_end(b, k)] == '*' as u8,
    decreases k,
{
    if k > 0 && b[k - 1] == '*' as u8 {
        lemma_stars_end(b, k - 1);
    }
}

/// The families of the properties of an alternative.
pub open spec fn prop_families_of(props: Seq<(Seq<char>, Option<SpecModel>)>, u: Seq<char>) -> Seq<Seq<char>> {
    props.map_values(|p: (Seq<char>, Option<SpecModel>)| spec_prop_family(p.0, u))
}

/// The families of the properties named in `keep`, in property order.
pub open spec fn kept_families(props: Seq<(Seq<char>, Option<SpecModel>)>, keep: Seq<Seq<char>>, u: Seq<char>) -> Seq<Seq<char>>
    decreases props.len(),
{
    if props.len() == 0 {
        Seq::empty()
    } else {
        let r = kept_families(props.drop_last(), keep, u);
        if keep.contains(props.last().0) { r.push(spec_prop_family(props.last().0, u)) } else { r }
    }
}

/// Own family and conflict-relevant families of one alternative: an
/// override where there is one; else the family of a single property; else
/// the utility's name without its `*`.
pub open spec fn resolve_alt(u: Seq<char>, props: Seq<(Seq<char>, Option<SpecModel>)>) -> ResolvedModel {
    let pfs = prop_families_of(props, u);
    match spec_utility_override(u) {
        Some((own, Some(keep))) => ResolvedModel { family: own, prop_families: kept_families(props, keep, u) },
        Some((own, None)) => ResolvedModel { family: own, prop_families: pfs },
        None => if pfs.len() == 1 {
            ResolvedModel { family: pfs[0], prop_families: pfs }
        } else {
            ResolvedModel { family: without_stars(u), prop_families: pfs }
        },
    }
}

fn contains_str(v: &Vec<String>, s: &str) -> (r: bool)
    ensures
        r == strs(v@).contains(s@),
{
    let mut i: usize = 0;
    while i < v.len()
        invariant
            0 <= i <= v@.len(),
            forall|j: int| 0 <= j < i ==> v@[j]@ != s@,
        decreases v@.len() - i,
    {
        if str_eq(v[i].as_str(), s) {
            assert(strs(v@)[i as int] == s@);
            return true;
        }
        i = i + 1;
    }
    false
}

fn strip_stars(u: &str) -> (r: String)
    ensures
        r@ == without_stars(u@),
{
    let b = u.as_bytes();
    let mut k: usize = b.len();
    while k > 0 && b[k - 1] == 42u8
        invariant
            b@ == enc(u@),
            k <= b@.len(),
            stars_end(b@, b@.len() as int) == stars_end(b@, k as int),
        decreases k,
    {
        k = k - 1;
    }
    proof {
        lemma_stars_end(b@, b@.len() as int);
        if k < b@.len() {
            lemma_ascii_cut(b@, k as int);
        }
    }
    owned(substr(u, 0, k))
}

/// Families of one utility alternative: own family + generated-property
/// families, honoring `utility_override` filters.
fn resolve_alternative(utility: &str, props: &Vec<(String, Option<ValueSpec>)>) -> (r: Resolved)
    ensures
        r@ == resolve_alt(utility@, props_view(props@)),
{
    let ghost pv = props_view(props@);
    let mut pfs: Vec<String> = Vec::new();
    let mut i: usize = 0;
    while i < props.len()
        invariant
            pv == props_view(props@),
            0 <= i <= props@.len(),
            strs(pfs@) == prop_families_of(pv, utility@).subrange(0, i as int),
        decreases props@.len() - i,
    {
        let f = prop_family(props[i].0.as_str(), utility);
        let ghost before = strs(pfs@);
        let ghost fv = f@;
        proof {
            assert(pv[i as int].0 == props@[i as int].0@);
            assert(prop_families_of(pv, utility@).subrange(0, i + 1) =~= prop_families_of(pv, utility@).subrange(0, i as int).push(fv));
        }
        pfs.push(f);
        assert(strs(pfs@) =~= before.push(fv));
        i = i + 1;
    }
    assert(strs(pfs@) =~= prop_families_of(pv, utility@));
    match utility_override(utility) {
        Some((own, Some(keep))) => {
            assert(keep.deep_view() =~= strs(keep@));
            let mut kept: Vec<String> = Vec::new();
            let mut j: usize = 0;
            while j < props.len()
                invariant
                    pv == props_view(props@),
                    0 <= j <= props@.len(),
                    strs(kept@) == kept_families(pv.subrange(0, j as int), strs(keep@), utility@),
                decreases props@.len() - j,
            {
                proof {
                    assert(pv.subrange(0, j + 1).drop_last() =~= pv.subrange(0, j as int));
                    assert(pv.subrange(0, j + 1).last() == pv[j as int]);
                    assert(pv[j as int].0 == props@[j as int].0@);
                }
                if contains_str(&keep, props[j].0.as_str()) {
                    let f = prop_family(props[j].0.as_str(), utility);
                    let ghost before = strs(kept@);
                    kept.push(f);
                    assert(strs(kept@) =~= before.push(f@));
                }
                j = j + 1;
            }
            assert(pv.subrange(0, j as int) =~= pv);
            Resolved { family: own, prop_families: kept }
        },
        Some((own, None)) => Resolved { family: own, prop_families: pfs },
        None => {
            if pfs.len() == 1 {
                let own = pfs[0].clone();
                Resolved { family: own, prop_families: pfs }
            } else {
                Resolved { family: strip_stars(utility), prop_families: pfs }
            }
        },
    }
}

/// The value spec of a declaration value: its marker's items, if it has one.
pub open spec fn marker_spec(v: Seq<char>) -> Option<SpecModel> {
    match value_marker(v) {
        Some(inner) => Some(SpecModel::Items(marker_items(inner))),
        None => None,
    }
}

pub open spec fn decl_props(decls: Seq<(Seq<char>, Seq<char>)>) -> Seq<(Seq<char>, Option<SpecModel>)> {
    decls.map_values(|d: (Seq<char>, Seq<char>)| (d.0, marker_spec(d.1)))
}

/// The alternative of one `@utility` rule.
pub open spec fn alt_of(name: Seq<char>, decls: Seq<(Seq<char>, Seq<char>)>) -> AltModel {
    AltModel { props: decl_props(decls), resolved: resolve_alt(name, decl_props(decls)) }
}

/// First entry at or after `i` with this name.
pub open spec fn entry_index(cat: Seq<(Seq<char>, Seq<AltModel>)>, name: Seq<char>, i: int) -> Option<int>
    decreases cat.len() - i,
{
    if i < 0 || i >= cat.len() {
        None
    } else if cat[i].0 == name {
        Some(i)
    } else {
        entry_index(cat, name, i + 1)
    }
}

/// One `@utility` rule added to the catalog: a name is entered once, at its
/// first rule; a rule with declarations is one more alternative, after
/// those of earlier rules of the same name.
pub open spec fn catalog_add(cat: Seq<(Seq<char>, Seq<AltModel>)>, name: Seq<char>, decls: Seq<(Seq<char>, Seq<char>)>) -> Seq<(Seq<char>, Seq<AltModel>)> {
    match entry_index(cat, name, 0) {
        Some(i) => if decls.len() == 0 { cat } else { cat.update(i, (name, cat[i].1.push(alt_of(name, decls)))) },
        None => cat.push((name, if decls.len() == 0 { Seq::empty() } else { seq![alt_of(name, decls)] })),
    }
}

/// The rules added to `cat` in order.
pub open spec fn catalog_from(cat: Seq<(Seq<char>, Seq<AltModel>)>, rs: Seq<(Seq<char>, Seq<(Seq<char>, Seq<char>)>)>) -> Seq<(Seq<char>, Seq<AltModel>)>
    decreases rs.len(),
{
    if rs.len() == 0 {
        cat
    } else {
        catalog_add(catalog_from(cat, rs.drop_last()), rs.last().0, rs.last().1)
    }
}

/// The catalog of a list of `@utility` rules.
pub open spec fn catalog(rs: Seq<(Seq<char>, Seq<(Seq<char>, Seq<char>)>)>) -> Seq<(Seq<char>, Seq<AltModel>)> {
    catalog_from(Seq::empty(), rs)
}

pub(crate) fn entry_of(map: &Vec<(String, Vec<Alternative>)>, name: &str) -> (r: Option<usize>)
    ensures
        r matches Some(i) ==> entry_index(entries_view(map@), name@, 0) == Some(i as int) && i < map@.len(),
        r is None ==> entry_index(entries_view(map@), name@, 0) is None,
{
    let ghost ev = entries_view(map@);
    let mut i: usize = 0;
    while i < map.len()
        invariant
            ev == entries_view(map@),
            0 <= i <= map@.len(),
            entry_index(ev, name@, 0) == entry_index(ev, name@, i as int),
        decreases map@.len() - i,
    {
        if str_eq(map[i].0.as_str(), name) {
            assert(ev[i as int].0 == name@);
            return Some(i);
        }
        i = i + 1;
    }
    None
}

fn build_alternative(name: &str, decls: &Vec<(String, String)>) -> (r: Alternative)
    ensures
        r@ == alt_of(name@, pairs(decls@)),
{
    let ghost dp = decl_props(pairs(decls@));
    let mut props: Vec<(String, Option<ValueSpec>)> = Vec::new();
    let mut i: usize = 0;
    while i < decls.len()
        invariant
            dp == decl_props(pairs(decls@)),
            0 <= i <= decls@.len(),
            props_view(props@) == dp.subrange(0, i as int),
        decreases decls@.len() - i,
    {
        let prop = decls[i].0.clone();
        let spec = match extract_value_marker(decls[i].1.as_str()) {
            Some(inner) => Some(ValueSpec::Items(parse_marker(inner))),
            None => None,
        };
        let ghost before = props_view(props@);
        let ghost item = (prop@, spec_view(spec));
        proof {
            assert(spec_view(spec) == marker_spec(decls@[i as int].1@));
            assert(pairs(decls@)[i as int] == (decls@[i as int].0@, decls@[i as int].1@));
            assert(dp[i as int] == item);
            assert(dp.subrange(0, i + 1) =~= dp.subrange(0, i as int).push(item));
        }
        props.push((prop, spec));
        assert(props_view(props@) =~= before.push(item));
        i = i + 1;
    }
    assert(props_view(props@) =~= dp);
    let resolved = resolve_alternative(name, &props);
    Alternative { props, resolved }
}

pub proof fn lemma_entry_index(cat: Seq<(Seq<char>, Seq<AltModel>)>, name: Seq<char>, i: int)
    requires
        0 <= i <= cat.len(),
    ensures
        entry_index(cat, name, i) matches Some(j) ==> i <= j < cat.len() && cat[j].0 == name,
    decreases cat.len() - i,
{
    if i < cat.len() && cat[i].0 != name {
        lemma_entry_index(cat, name, i + 1);
    }
}

proof fn lemma_catalog_add_extends(cat: Seq<(Seq<char>, Seq<AltModel>)>, name: Seq<char>, decls: Seq<(Seq<char>, Seq<char>)>)
    ensures
        catalog_add(cat, name, decls).len() >= cat.len(),
        forall|i: int| 0 <= i < cat.len() ==> (#[trigger] catalog_add(cat, name, decls)[i]).0 == cat[i].0
            && cat[i].1.is_prefix_of(catalog_add(cat, name, decls)[i].1),
{
    let c2 = catalog_add(cat, name, decls);
    lemma_entry_index(cat, name, 0);
    assert forall|i: int| 0 <= i < cat.len() implies (#[trigger] c2[i]).0 == cat[i].0 && cat[i].1.is_prefix_of(c2[i].1) by {
        match entry_index(cat, name, 0) {
            Some(k) => {
                if decls.len() > 0 && i == k {
                    assert(c2[i].1 == cat[i].1.push(alt_of(name, decls)));
                    assert(cat[i].1 =~= c2[i].1.subrange(0, cat[i].1.len() as int));
                } else {
                    assert(c2[i] == cat[i]);
                    assert(cat[i].1 =~= c2[i].1.subrange(0, cat[i].1.len() as int));
                }
            },
            None => {
                assert(c2[i] == cat[i]);
                assert(cat[i].1 =~= c2[i].1.subrange(0, cat[i].1.len() as int));
            },
        }
    }
}

/// Later rules only extend a catalog: every utility keeps its place, and
/// its alternatives stay in front of any that the later rules add (plugin
/// rules extend the catalog; the catalog's own alternatives are tried
/// first).
pub proof fn law_rules_only_extend(cat: Seq<(Seq<char>, Seq<AltModel>)>, rs: Seq<(Seq<char>, Seq<(Seq<char>, Seq<char>)>)>)
    ensures
        catalog_from(cat, rs).len() >= cat.len(),
        forall|i: int| 0 <= i < cat.len() ==> (#[trigger] catalog_from(cat, rs)[i]).0 == cat[i].0
            && cat[i].1.is_prefix_of(catalog_from(cat, rs)[i].1),
    decreases rs.len(),
{
    if rs.len() > 0 {
        law_rules_only_extend(cat, rs.drop_last());
        let c1 = catalog_from(cat, rs.drop_last());
        lemma_catalog_add_extends(c1, rs.last().0, rs.last().1);
        let c2 = catalog_from(cat, rs);
        assert forall|i: int| 0 <= i < cat.len() implies (#[trigger] c2[i]).0 == cat[i].0 && cat[i].1.is_prefix_of(c2[i].1) by {
            assert(c1[i].0 == cat[i].0 && cat[i].1.is_prefix_of(c1[i].1));
            assert(c2[i].0 == c1[i].0 && c1[i].1.is_prefix_of(c2[i].1));
            assert(cat[i].1 =~= c2[i].1.subrange(0, cat[i].1.len() as int)) by {
                assert forall|k: int| 0 <= k < cat[i].1.len() implies cat[i].1[k] == c2[i].1[k] by {
                    assert(cat[i].1[k] == c1[i].1.subrange(0, cat[i].1.len() as int)[k]);
                    assert(c1[i].1[k] == c2[i].1.subrange(0, c1[i].1.len() as int)[k]);
                }
            }
        }
    }
}

/// Adds one `@utility` rule to the catalog.
fn add_rule(map: &mut Vec<(String, Vec<Alternative>)>, name: &String, decls: &Vec<(String, String)>)
    ensures
        entries_view(final(map)@) == catalog_add(entries_view(old(map)@), name@, pairs(decls@)),
{
    let ghost cat = entries_view(map@);
    match entry_of(map, name.as_str()) {
        Some(i) => {
            proof { lemma_entry_index(cat, name@, 0); }
            if decls.len() > 0 {
                let alt = build_alternative(name.as_str(), decls);
                let ghost a = alt@;
                let (n, mut alts) = map.remove(i);
                let ghost old_alts = alts_view(alts@);
                assert(old_alts == cat[i as int].1);
                alts.push(alt);
                assert(alts_view(alts@) =~= old_alts.push(a));
                map.insert(i, (n, alts));
                assert(entries_view(map@) =~= cat.update(i as int, (name@, cat[i as int].1.push(a))));
            }
        },
        None => {
            let mut alts: Vec<Alternative> = Vec::new();
            if decls.len() > 0 {
                alts.push(build_alternative(name.as_str(), decls));
            }
            let ghost av = alts_view(alts@);
            assert(av =~= (if pairs(decls@).len() == 0 { Seq::empty() } else { seq![alt_of(name@, pairs(decls@))] }));
            map.push((name.clone(), alts));
            assert(entries_view(map@) =~= cat.push((name@, av)));
        },
    }
}

/// Adds `@utility` rules to the catalog, in order.
fn add_rules(map: &mut Vec<(String, Vec<Alternative>)>, utilities: &[(String, Vec<(String, String)>)])
    ensures
        entries_view(final(map)@) == catalog_from(entries_view(old(map)@), rules(utilities@)),
{
    let ghost rs = rules(utilities@);
    let ghost start = entries_view(map@);
    let mut k: usize = 0;
    assert(rs.subrange(0, 0) =~= Seq::<(Seq<char>, Seq<(Seq<char>, Seq<char>)>)>::empty());
    while k < utilities.len()
        invariant
            rs == rules(utilities@),
            start == entries_view(old(map)@),
            0 <= k <= utilities@.len(),
            entries_view(map@) == catalog_from(start, rs.subrange(0, k as int)),
        decreases utilities@.len() - k,
    {
        proof {
            assert(rs.subrange(0, k + 1).drop_last() =~= rs.subrange(0, k as int));
            assert(rs.subrange(0, k + 1).last() == (utilities@[k as int].0@, pairs(utilities@[k as int].1@)));
        }
        add_rule(map, &utilities[k].0, &utilities[k].1);
        k = k + 1;
    }
    assert(rs.subrange(0, k as int) =~= rs);
}

// ---------------------------------------------------------------------------
// Resolution
// ---------------------------------------------------------------------------

pub open spec fn is_wildcard(n: Seq<char>) -> bool {
    has_suffix(n, "*"@)
}

/// A wildcard whose (non-empty) prefix is a proper prefix of the name.
pub open spec fn wild_fits(n: Seq<char>, cand: Seq<char>) -> bool {
    let nb = enc(n);
    let cb = enc(cand);
    &&& is_wildcard(n)
    &&& 2 <= nb.len()
    &&& nb.len() - 1 < cb.len()
    &&& nb.subrange(0, nb.len() - 1) == cb.subrange(0, nb.len() - 1)
}

/// First static name at or after `i` equal to the candidate.
pub open spec fn static_index(names: Seq<Seq<char>>, cand: Seq<char>, i: int) -> Option<int>
    decreases names.len() - i,
{
    if i < 0 || i >= names.len() {
        None
    } else if !is_wildcard(names[i]) && names[i] == cand {
        Some(i)
    } else {
        static_index(names, cand, i + 1)
    }
}

/// Among the first `n` names, the first fitting wildcard of greatest prefix length.
pub open spec fn best_wild(names: Seq<Seq<char>>, cand: Seq<char>, n: int) -> Option<int>
    decreases n,
{
    if n <= 0 || n > names.len() {
        None
    } else {
        let prev = best_wild(names, cand, n - 1);
        if wild_fits(names[n - 1], cand) && (prev is None || enc(names[n - 1]).len() > enc(names[prev->0]).len()) {
            Some(n - 1)
        } else {
            prev
        }
    }
}

/// First wildcard at or after `i` named `{cand}-*`.
pub open spec fn bare_index(names: Seq<Seq<char>>, cand: Seq<char>, i: int) -> Option<int>
    decreases names.len() - i,
{
    if i < 0 || i >= names.len() {
        None
    } else if names[i] == cand + "-*"@ {
        Some(i)
    } else {
        bare_index(names, cand, i + 1)
    }
}

/// The utility a name resolves through and the value its alternatives must
/// accept (`None` for a static utility, which takes literal alternatives only).
pub open spec fn lookup(names: Seq<Seq<char>>, cand: Seq<char>) -> Option<(int, Option<Seq<char>>)> {
    match static_index(names, cand, 0) {
        Some(i) => Some((i, None)),
        None => match best_wild(names, cand, names.len() as int) {
            Some(i) => Some((i, Some(text(enc(cand), enc(names[i]).len() - 1, enc(cand).len() as int)))),
            None => match bare_index(names, cand, 0) {
                Some(i) => Some((i, Some(Seq::empty()))),
                None => None,
            },
        },
    }
}

proof fn lemma_best_wild(names: Seq<Seq<char>>, cand: Seq<char>, n: int)
    requires
        0 <= n <= names.len(),
    ensures
        best_wild(names, cand, n) matches Some(j) ==> 0 <= j < n && wild_fits(names[j], cand),
    decreases n,
{
    if n > 0 {
        lemma_best_wild(names, cand, n - 1);
    }
}

pub open spec fn names_of(cat: Seq<(Seq<char>, Seq<AltModel>)>) -> Seq<Seq<char>> {
    cat.map_values(|e: (Seq<char>, Seq<AltModel>)| e.0)
}

pub open spec fn spec_satisfied(s: Option<SpecModel>, theme: Seq<(Seq<char>, Seq<char>)>, v: Seq<char>) -> bool {
    match s {
        Some(SpecModel::Items(items)) => exists|j: int| 0 <= j < items.len() && item_accepts(#[trigger] items[j], theme, v),
        Some(SpecModel::Literal) => false,
        None => true,
    }
}

pub open spec fn has_marker(s: Option<SpecModel>) -> bool {
    s matches Some(SpecModel::Items(_))
}

/// Every marker of the alternative accepts the value, no property is
/// `Literal`, and there is at least one marker.
pub open spec fn alt_matches(props: Seq<(Seq<char>, Option<SpecModel>)>, theme: Seq<(Seq<char>, Seq<char>)>, v: Seq<char>) -> bool {
    &&& forall|i: int| 0 <= i < props.len() ==> spec_satisfied(#[trigger] props[i].1, theme, v)
    &&& exists|i: int| 0 <= i < props.len() && has_marker(#[trigger] props[i].1)
}

/// No property has a value spec.
pub open spec fn alt_literal(props: Seq<(Seq<char>, Option<SpecModel>)>) -> bool {
    forall|i: int| 0 <= i < props.len() ==> (#[trigger] props[i].1) is None
}

pub open spec fn alt_applies(a: AltModel, theme: Seq<(Seq<char>, Seq<char>)>, val: Option<Seq<char>>) -> bool {
    match val {
        None => alt_literal(a.props),
        Some(v) => alt_matches(a.props, theme, v),
    }
}

/// The first alternative at or after `i` that applies.
pub open spec fn first_match(alts: Seq<AltModel>, theme: Seq<(Seq<char>, Seq<char>)>, val: Option<Seq<char>>, i: int) -> Option<ResolvedModel>
    decreases alts.len() - i,
{
    if i < 0 || i >= alts.len() {
        None
    } else if alt_applies(alts[i], theme, val) {
        Some(alts[i].resolved)
    } else {
        first_match(alts, theme, val, i + 1)
    }
}

/// The first `:` of an arbitrary property `[prop:value]`.
pub open spec fn arbitrary_colon(b: Seq<u8>) -> Option<int> {
    if b.len() >= 2 && b[0] == '[' as u8 && b[b.len() - 1] == ']' as u8 {
        first_byte(b.subrange(0, b.len() - 1), ':' as u8, 1)
    } else {
        None
    }
}

/// What a base class (negative prefix allowed; important marker and
/// postfix already stripped) resolves to.
pub open spec fn resolve_spec(ds: CatalogModel, base: Seq<char>) -> Option<ResolvedModel> {
    let b = enc(base);
    match arbitrary_colon(b) {
        Some(c) => if c == 1 {
            None
        } else {
            let f = ARBITRARY_PROPERTY_PREFIX@ + text(b, 1, c);
            Some(ResolvedModel { family: f, prop_families: seq![f] })
        },
        None => {
            let name = if b.len() >= 2 && b[0] == '-' as u8 { text(b, 1, b.len() as int) } else { base };
            match lookup(names_of(ds.utilities), name) {
                Some((i, val)) => first_match(ds.utilities[i].1, ds.theme, val, 0),
                None => None,
            }
        },
    }
}


impl Alternative {
    fn matches_literal(&self) -> (r: bool)
        ensures
            r == alt_literal(self@.props),
    {
        let ghost pv = self@.props;
        let mut i: usize = 0;
        while i < self.props.len()
            invariant
                pv == props_view(self.props@),
                0 <= i <= self.props@.len(),
                forall|j: int| 0 <= j < i ==> (#[trigger] pv[j].1) is None,
            decreases self.props@.len() - i,
        {
            if self.props[i].1.is_some() {
                assert(pv[i as int].1 is Some);
                return false;
            }
            i = i + 1;
        }
        true
    }

    fn matches(&self, ds: &DesignSystem, value: &str) -> (r: bool)
        ensures
            r == alt_matches(self@.props, ds.theme@, value@),
    {
        let ghost pv = self@.props;
        let ghost theme = ds.theme@;
        let mut has_spec = false;
        let mut i: usize = 0;
        while i < self.props.len()
            invariant
                pv == props_view(self.props@),
                theme == ds.theme@,
                0 <= i <= self.props@.len(),
                forall|j: int| 0 <= j < i ==> spec_satisfied(#[trigger] pv[j].1, theme, value@),
                has_spec <==> exists|j: int| 0 <= j < i && has_marker(#[trigger] pv[j].1),
            decreases self.props@.len() - i,
        {
            match &self.props[i].1 {
                None => {},
                Some(ValueSpec::Items(items)) => {
                    assert(pv[i as int].1 == Some(SpecModel::Items(items_view(items@))));
                    has_spec = true;
                    if !any_item_matches(items, ds, value) {
                        return false;
                    }
                },
                Some(ValueSpec::Literal) => {
                    assert(pv[i as int].1 == Some(SpecModel::Literal));
                    return false;
                },
            }
            i = i + 1;
        }
        has_spec
    }
}

fn any_item_matches(items: &Vec<SpecItem>, ds: &DesignSystem, value: &str) -> (r: bool)
    ensures
        r == exists|m: int| 0 <= m < items@.len() && item_accepts(#[trigger] items_view(items@)[m], ds.theme@, value@),
{
    let ghost iv = items_view(items@);
    let mut k: usize = 0;
    while k < items.len()
        invariant
            iv == items_view(items@),
            0 <= k <= items@.len(),
            forall|m: int| 0 <= m < k ==> !item_accepts(#[trigger] iv[m], ds.theme@, value@),
        decreases items@.len() - k,
    {
        if items[k].matches(ds, value) {
            assert(item_accepts(iv[k as int], ds.theme@, value@));
            return true;
        }
        k = k + 1;
    }
    false
}

impl DesignSystem {
    /// The design system of a theme and a list of `@utility` rules.
    pub fn from_css(theme: Theme, utilities: Vec<(String, Vec<(String, String)>)>) -> (r: DesignSystem)
        ensures
            r@ == (CatalogModel { theme: theme@, utilities: catalog(rules(utilities@)) }),
            r.wf(),
    {
        let mut map: Vec<(String, Vec<Alternative>)> = Vec::new();
        assert(entries_view(map@) =~= Seq::<(Seq<char>, Seq<AltModel>)>::empty());
        add_rules(&mut map, utilities.as_slice());
        proof { law_catalog_names_once(Seq::empty(), rules(utilities@)); }
        let trie = Trie::build(&map);
        DesignSystem { theme, utilities: map, trie }
    }

    /// The design system with plugin rules added after the catalog's own, so
    /// that the catalog's alternatives are tried first.
    pub fn from_css_with_plugin(
        theme: Theme,
        utilities: Vec<(String, Vec<(String, String)>)>,
        plugin: &[(String, Vec<(String, String)>)],
    ) -> (r: DesignSystem)
        ensures
            r@ == (CatalogModel {
                theme: theme@,
                utilities: catalog_from(catalog(rules(utilities@)), rules(plugin@)),
            }),
            r.wf(),
    {
        let mut map: Vec<(String, Vec<Alternative>)> = Vec::new();
        assert(entries_view(map@) =~= Seq::<(Seq<char>, Seq<AltModel>)>::empty());
        add_rules(&mut map, utilities.as_slice());
        add_rules(&mut map, plugin);
        proof {
            law_catalog_names_once(Seq::empty(), rules(utilities@));
            law_catalog_names_once(catalog(rules(utilities@)), rules(plugin@));
        }
        let trie = Trie::build(&map);
        DesignSystem { theme, utilities: map, trie }
    }

    /// The trie holds the utility names, which are distinct.
    pub closed spec fn wf(&self) -> bool {
        &&& crate::conflict::distinct_names(names_of(self@.utilities))
        &&& self.trie.wf(names_of(self@.utilities))
    }

    fn bare_utility(&self, name: &str) -> (r: Option<usize>)
        ensures
            r matches Some(i) ==> bare_index(names_of(self@.utilities), name@, 0) == Some(i as int) && i < self@.utilities.len(),
            r is None ==> bare_index(names_of(self@.utilities), name@, 0) is None,
    {
        let ghost names = names_of(self@.utilities);
        let bare = concat(name, "-*");
        let mut i: usize = 0;
        while i < self.utilities.len()
            invariant
                names == names_of(self@.utilities),
                bare@ == name@ + "-*"@,
                0 <= i <= self.utilities@.len(),
                bare_index(names, name@, 0) == bare_index(names, name@, i as int),
            decreases self.utilities@.len() - i,
        {
            assert(names[i as int] == self.utilities@[i as int].0@);
            if str_eq(self.utilities[i].0.as_str(), bare.as_str()) {
                return Some(i);
            }
            i = i + 1;
        }
        None
    }

    /// The first alternative of utility `u` that applies to the value.
    fn first_alternative(&self, u: usize, value: Option<&str>) -> (r: Option<Resolved>)
        requires
            u < self.utilities@.len(),
        ensures
            r is Some <==> first_match(self@.utilities[u as int].1, self@.theme, opt_view(value), 0) is Some,
            r matches Some(x) ==> first_match(self@.utilities[u as int].1, self@.theme, opt_view(value), 0) == Some(x@),
    {
        let alts = &self.utilities[u].1;
        let ghost av = self@.utilities[u as int].1;
        assert(av == alts_view(alts@));
        let mut k: usize = 0;
        while k < alts.len()
            invariant
                av == alts_view(alts@),
                av == self@.utilities[u as int].1,
                0 <= k <= alts@.len(),
                first_match(av, self@.theme, opt_view(value), 0) == first_match(av, self@.theme, opt_view(value), k as int),
            decreases alts@.len() - k,
        {
            let applies = match value {
                Some(v) => alts[k].matches(self, v),
                None => alts[k].matches_literal(),
            };
            assert(av[k as int] == alts@[k as int]@);
            assert(applies == alt_applies(av[k as int], self@.theme, opt_view(value)));
            if applies {
                let r = alts[k].resolved.duplicate();
                assert(r@ == av[k as int].resolved);
                assert(first_match(av, self@.theme, opt_view(value), k as int) == Some(av[k as int].resolved));
                return Some(r);
            }
            k = k + 1;
        }
        None
    }

    /// Resolve a base class name (negative prefix, important marker and
    /// postfix already stripped) into the generated properties.
    pub fn resolve(&self, base: &str) -> (r: Option<Resolved>)
        requires
            self.wf(),
        ensures
            r is Some <==> resolve_spec(self@, base@) is Some,
            r matches Some(x) ==> resolve_spec(self@, base@) == Some(x@),
    {
        let b = base.as_bytes();
        let n = b.len();
        // Arbitrary property: `[prop:value]` -> family per property name.
        if n >= 2 && b[0] == 91u8 && b[n - 1] == 93u8 {
            let ghost inner = b@.subrange(0, n - 1);
            let mut c: usize = 1;
            while c < n - 1 && b[c] != 58u8
                invariant
                    inner == b@.subrange(0, n - 1),
                    n == b@.len(),
                    2 <= n,
                    1 <= c <= n - 1,
                    first_byte(inner, ':' as u8, 1) == first_byte(inner, ':' as u8, c as int),
                decreases n - c,
            {
                c = c + 1;
            }
            if c < n - 1 {
                assert(arbitrary_colon(b@) == Some(c as int));
                if c == 1 {
                    return None;
                }
                proof {
                    lemma_after_ascii(b@, 0);
                    lemma_ascii_cut(b@, c as int);
                }
                let family = concat(ARBITRARY_PROPERTY_PREFIX, substr(base, 1, c));
                let f2 = family.clone();
                let fams = vec![f2];
                assert(strs(fams@) =~= seq![family@]);
                return Some(Resolved { family, prop_families: fams });
            }
            assert(arbitrary_colon(b@) is None);
        }
        let name = if n >= 2 && b[0] == 45u8 {
            proof { lemma_after_ascii(b@, 0); }
            substr(base, 1, n)
        } else {
            base
        };
        let ghost names = names_of(self@.utilities);
        assert(name@ == (if b@.len() >= 2 && b@[0] == '-' as u8 { text(b@, 1, b@.len() as int) } else { base@ }));
        match self.trie.lookup(name, Ghost(names)) {
            Some((i, None)) => {
                return self.first_alternative(i, None);
            },
            Some((i, Some(plen))) => {
                let nb = self.utilities[i].0.as_str().as_bytes();
                let cb = name.as_bytes();
                proof {
                    lemma_best_wild(names, name@, names.len() as int);
                    assert(names[i as int] == self.utilities@[i as int].0@);
                    reveal_strlit("*");
                    let nbs = nb@;
                    assert(plen == nbs.len() - 1);
                    vstd::utf8::encode_utf8_valid_utf8(self.utilities@[i as int].0@);
                    vstd::utf8::is_ascii_chars_encode_utf8("*"@);
                    assert(enc("*"@)[0] == '*' as u8);
                    assert(nbs.subrange(plen as int, nbs.len() as int)[0] == enc("*"@)[0]);
                    assert(nbs[plen as int] == '*' as u8);
                    lemma_ascii_cut(nbs, plen as int);
                    crate::text::lemma_cut_point_boundary(nbs, plen as int);
                    vstd::utf8::valid_utf8_split(nbs, plen as int);
                    crate::text::lemma_valid_prefix_cut(cb@, plen as int);
                }
                let value = substr(name, plen, cb.len());
                return self.first_alternative(i, Some(value));
            },
            None => {},
        }
        match self.bare_utility(name) {
            Some(i) => {
                let empty = "";
                proof {
                    reveal_strlit("");
                    assert(opt_view(Some(empty)) == Some(Seq::<char>::empty()));
                }
                self.first_alternative(i, Some(empty))
            },
            None => None,
        }
    }
}

pub open spec fn opt_view(v: Option<&str>) -> Option<Seq<char>> {
    match v {
        Some(s) => Some(s@),
        None => None,
    }
}


// ---------------------------------------------------------------------------
// The catalog wins over later rules
// ---------------------------------------------------------------------------

proof fn lemma_static_index_extend(a: Seq<Seq<char>>, b: Seq<Seq<char>>, cand: Seq<char>, i: int)
    requires
        0 <= i,
        static_index(a, cand, i) is Some,
        a.len() <= b.len(),
        forall|k: int| 0 <= k < a.len() ==> a[k] == b[k],
    ensures
        static_index(b, cand, i) == static_index(a, cand, i),
    decreases a.len() - i,
{
    if i < a.len() && !(!is_wildcard(a[i]) && a[i] == cand) {
        lemma_static_index_extend(a, b, cand, i + 1);
    }
}

proof fn lemma_first_match_extend(a: Seq<AltModel>, b: Seq<AltModel>, theme: Seq<(Seq<char>, Seq<char>)>, val: Option<Seq<char>>, i: int)
    requires
        0 <= i,
        first_match(a, theme, val, i) is Some,
        a.is_prefix_of(b),
    ensures
        first_match(b, theme, val, i) == first_match(a, theme, val, i),
    decreases a.len() - i,
{
    assert(a =~= b.subrange(0, a.len() as int));
    if i < a.len() {
        assert(a[i] == b[i]);
        if !alt_applies(a[i], theme, val) {
            lemma_first_match_extend(a, b, theme, val, i + 1);
        }
    }
}

/// Later rules (a plugin config's) never change how a class resolves
/// through a static utility of the catalog once the catalog resolves it:
/// for such class names the catalog wins.
pub proof fn law_catalog_statics_win(theme: Seq<(Seq<char>, Seq<char>)>, cat: Seq<(Seq<char>, Seq<AltModel>)>, rs: Seq<(Seq<char>, Seq<(Seq<char>, Seq<char>)>)>, base: Seq<char>)
    requires
        arbitrary_colon(enc(base)) is None,
        static_index(names_of(cat), if enc(base).len() >= 2 && enc(base)[0] == '-' as u8 { text(enc(base), 1, enc(base).len() as int) } else { base }, 0) is Some,
        resolve_spec(CatalogModel { theme, utilities: cat }, base) is Some,
    ensures
        resolve_spec(CatalogModel { theme, utilities: catalog_from(cat, rs) }, base) == resolve_spec(CatalogModel { theme, utilities: cat }, base),
{
    let b = enc(base);
    let name = if b.len() >= 2 && b[0] == '-' as u8 { text(b, 1, b.len() as int) } else { base };
    let cat2 = catalog_from(cat, rs);
    law_rules_only_extend(cat, rs);
    let n1 = names_of(cat);
    let n2 = names_of(cat2);
    assert forall|k: int| 0 <= k < n1.len() implies n1[k] == n2[k] by {
        assert(cat2[k].0 == cat[k].0);
    }
    lemma_static_index_extend(n1, n2, name, 0);
    let i = static_index(n1, name, 0)->0;
    lemma_static_index_bound(n1, name, 0);
    assert(cat2[i].0 == cat[i].0 && cat[i].1.is_prefix_of(cat2[i].1));
    lemma_first_match_extend(cat[i].1, cat2[i].1, theme, None, 0);
}

proof fn lemma_static_index_bound(names: Seq<Seq<char>>, cand: Seq<char>, i: int)
    requires
        0 <= i,
    ensures
        static_index(names, cand, i) matches Some(k) ==> i <= k < names.len(),
    decreases names.len() - i,
{
    if i < names.len() && !(!is_wildcard(names[i]) && names[i] == cand) {
        lemma_static_index_bound(names, cand, i + 1);
    }
}

// ---------------------------------------------------------------------------
// Negative values and arbitrary properties
// ---------------------------------------------------------------------------

/// A leading `-` (a negative value) does not change what a class resolves
/// to.
pub proof fn law_resolve_ignores_negative_sign(ds: CatalogModel, x: Seq<char>)
    requires
        enc(x).len() > 0,
        enc(x)[0] != '-' as u8,
        enc(x)[0] != '[' as u8,
    ensures
        resolve_spec(ds, "-"@ + x) == resolve_spec(ds, x),
{
    reveal_strlit("-");
    vstd::utf8::is_ascii_chars_encode_utf8("-"@);
    assert(enc("-"@) =~= seq![45u8]);
    crate::text::lemma_enc_concat("-"@, x);
    let b = enc("-"@ + x);
    assert(b =~= seq![45u8] + enc(x));
    assert(b[0] == 45u8);
    assert(b.subrange(1, b.len() as int) =~= enc(x));
    assert(text(b, 1, b.len() as int) == x);
}

/// An arbitrary property `[prop:value]` resolves to a family of its own,
/// named after the property; with an empty property name it resolves to
/// nothing.
pub proof fn law_resolve_arbitrary_property(ds: CatalogModel, prop: Seq<char>, v: Seq<char>)
    requires
        forall|i: int| 0 <= i < enc(prop).len() ==> enc(prop)[i] != ':' as u8,
    ensures
        prop.len() > 0 ==> resolve_spec(ds, "["@ + prop + ":"@ + v + "]"@) == Some(ResolvedModel {
            family: ARBITRARY_PROPERTY_PREFIX@ + prop,
            prop_families: seq![ARBITRARY_PROPERTY_PREFIX@ + prop],
        }),
        prop.len() == 0 ==> resolve_spec(ds, "["@ + prop + ":"@ + v + "]"@) is None,
{
    reveal_strlit("[");
    reveal_strlit(":");
    reveal_strlit("]");
    vstd::utf8::is_ascii_chars_encode_utf8("["@);
    vstd::utf8::is_ascii_chars_encode_utf8(":"@);
    vstd::utf8::is_ascii_chars_encode_utf8("]"@);
    assert(enc("["@) =~= seq![91u8]);
    assert(enc(":"@) =~= seq![58u8]);
    assert(enc("]"@) =~= seq![93u8]);
    crate::text::lemma_enc_concat("["@, prop);
    crate::text::lemma_enc_concat("["@ + prop, ":"@);
    crate::text::lemma_enc_concat("["@ + prop + ":"@, v);
    crate::text::lemma_enc_concat("["@ + prop + ":"@ + v, "]"@);
    let pb = enc(prop);
    let b = enc("["@ + prop + ":"@ + v + "]"@);
    assert(b =~= seq![91u8] + pb + seq![58u8] + enc(v) + seq![93u8]);
    let k: int = 1 + pb.len() as int;
    let body = b.subrange(0, b.len() - 1);
    assert(body =~= seq![91u8] + pb + seq![58u8] + enc(v));
    assert(body[k] == 58u8);
    assert forall|m: int| 1 <= m < k implies body[m] != 58u8 by {
        assert(body[m] == pb[m - 1]);
    }
    lemma_first_byte(body, 58u8, 1);
    assert(first_byte(body, 58u8, 1) == Some(k));
    assert(arbitrary_colon(b) == Some(k));
    if prop.len() > 0 {
        assert(pb.len() > 0) by {
            if pb.len() == 0 {
                assert(vstd::utf8::decode_utf8(pb) =~= Seq::<char>::empty());
            }
        }
        assert(b.subrange(1, k) =~= pb);
        assert(text(b, 1, k) == prop);
    } else {
        assert(pb =~= Seq::<u8>::empty());
    }
}

pub(crate) proof fn lemma_entry_index_none(cat: Seq<(Seq<char>, Seq<AltModel>)>, name: Seq<char>, i: int)
    requires
        0 <= i <= cat.len(),
        entry_index(cat, name, i) is None,
    ensures
        forall|m: int| i <= m < cat.len() ==> cat[m].0 != name,
    decreases cat.len() - i,
{
    if i < cat.len() {
        lemma_entry_index_none(cat, name, i + 1);
    }
}

/// A catalog built from rules names each utility once.
pub proof fn law_catalog_names_once(cat: Seq<(Seq<char>, Seq<AltModel>)>, rs: Seq<(Seq<char>, Seq<(Seq<char>, Seq<char>)>)>)
    requires
        crate::conflict::distinct_names(names_of(cat)),
    ensures
        crate::conflict::distinct_names(names_of(catalog_from(cat, rs))),
    decreases rs.len(),
{
    if rs.len() > 0 {
        law_catalog_names_once(cat, rs.drop_last());
        let c1 = catalog_from(cat, rs.drop_last());
        let name = rs.last().0;
        let c2 = catalog_add(c1, name, rs.last().1);
        lemma_entry_index(c1, name, 0);
        let n1 = names_of(c1);
        let n2 = names_of(c2);
        assert forall|i: int, j: int| 0 <= i < j < n2.len() implies n2[i] != n2[j] by {
            match entry_index(c1, name, 0) {
                Some(k) => {
                    assert(c2[i].0 == c1[i].0 && c2[j].0 == c1[j].0);
                    assert(n1[i] != n1[j]);
                },
                None => {
                    lemma_entry_index_none(c1, name, 0);
                    if j < c1.len() {
                        assert(n1[i] != n1[j]);
                    } else {
                        assert(c1[i].0 != name);
                    }
                },
            }
        }
    }
}

} // verus!
