//! tailwind-merge-style plugin configuration: `classGroups` /
//! `conflictingClassGroups` (the syntax of tailwind-merge plugin configs,
//! e.g. tailwind-merge-rtl-plugin), compiled into plugin `@utility` rules
//! (`--twmo-family:` properties) and exact-mode conflict-table patches.
//!
//! A top-level `classGroups` extends the compiled catalog (it is appended
//! to it), because the compiled tables cannot be replaced.

use vstd::prelude::*;
use crate::text::{enc, has_prefix, join, join_spec, concat, owned};
use crate::css::text;
use crate::utility::first_byte;
use crate::patterns::{type_code_spec, TYPE_NEVER};
use crate::families::PLUGIN_FAMILY_PROP;

verus! {

broadcast use {vstd::utf8::encode_utf8_valid_utf8, vstd::utf8::encode_utf8_decode_utf8};

/// One value spec of a plugin wildcard group item.
#[derive(Debug, Clone, PartialEq)]
pub enum GroupSpec {
    /// `<type>`, one of the types of the pattern table; `<color>` is
    /// normalized to `any` (the catalog's color scale check).
    Type(String),
    /// `--theme-key-*` (star kept as a flag, prefix stripped) or plain
    /// `--theme-key`.
    ThemeKey { prefix: String, has_star: bool },
    /// Literal keyword suffix; `""` = empty suffix allowed.
    Keyword(String),
}

/// A wildcard group item: class prefix + value specs.
#[derive(Debug, Clone, PartialEq)]
pub struct Wildcard {
    /// Class prefix; the plugin utility name is `{prefix}-*`.
    pub prefix: String,
    pub specs: Vec<GroupSpec>,
}

/// One entry of a `classGroups` list.
#[derive(Debug, Clone, PartialEq)]
pub enum GroupItem {
    /// Static class: the class name is the string.
    Static(String),
    Wildcard(Wildcard),
}

/// Parsed plugin config; both vectors keep declaration order (top-level
/// entries first, `extend` entries appended).
#[derive(Debug, Clone, Default, PartialEq)]
pub struct PluginConfig {
    pub class_groups: Vec<(String, Vec<GroupItem>)>,
    pub conflicting_class_groups: Vec<(String, Vec<String>)>,
}

pub enum GroupSpecModel {
    Type(Seq<char>),
    ThemeKey(Seq<char>, bool),
    Keyword(Seq<char>),
}

pub enum GroupItemModel {
    Static(Seq<char>),
    Wildcard(Seq<char>, Seq<GroupSpecModel>),
}

pub struct ConfigModel {
    pub class_groups: Seq<(Seq<char>, Seq<GroupItemModel>)>,
    pub conflicting_class_groups: Seq<(Seq<char>, Seq<Seq<char>>)>,
}

impl View for GroupSpec {
    type V = GroupSpecModel;

    open spec fn view(&self) -> GroupSpecModel {
        match self {
            GroupSpec::Type(t) => GroupSpecModel::Type(t@),
            GroupSpec::ThemeKey { prefix, has_star } => GroupSpecModel::ThemeKey(prefix@, *has_star),
            GroupSpec::Keyword(k) => GroupSpecModel::Keyword(k@),
        }
    }
}

pub open spec fn specs_view(v: Seq<GroupSpec>) -> Seq<GroupSpecModel> {
    v.map_values(|s: GroupSpec| s@)
}

impl View for GroupItem {
    type V = GroupItemModel;

    open spec fn view(&self) -> GroupItemModel {
        match self {
            GroupItem::Static(c) => GroupItemModel::Static(c@),
            GroupItem::Wildcard(w) => GroupItemModel::Wildcard(w.prefix@, specs_view(w.specs@)),
        }
    }
}

pub open spec fn items_view(v: Seq<GroupItem>) -> Seq<GroupItemModel> {
    v.map_values(|i: GroupItem| i@)
}

pub open spec fn groups_view(v: Seq<(String, Vec<GroupItem>)>) -> Seq<(Seq<char>, Seq<GroupItemModel>)> {
    v.map_values(|g: (String, Vec<GroupItem>)| (g.0@, items_view(g.1@)))
}

pub open spec fn edges_view(v: Seq<(String, Vec<String>)>) -> Seq<(Seq<char>, Seq<Seq<char>>)> {
    v.map_values(|e: (String, Vec<String>)| (e.0@, e.1@.map_values(|s: String| s@)))
}

impl View for PluginConfig {
    type V = ConfigModel;

    open spec fn view(&self) -> ConfigModel {
        ConfigModel {
            class_groups: groups_view(self.class_groups@),
            conflicting_class_groups: edges_view(self.conflicting_class_groups@),
        }
    }
}

/// The marker text of one spec: `<type>`, `prefix*`, `--key` or the keyword.
pub open spec fn spec_text(s: GroupSpecModel) -> Seq<char> {
    match s {
        GroupSpecModel::Type(t) => "<"@ + t + ">"@,
        GroupSpecModel::ThemeKey(prefix, has_star) => if has_star { prefix + "*"@ } else { prefix },
        GroupSpecModel::Keyword(k) => k,
    }
}

/// The plugin rule of one group item: a static class is a literal rule, a
/// wildcard is `{prefix}-*` with a `--value(...)` marker of its specs (an
/// empty keyword spec leaves an empty piece, e.g. `--value(,<length>)`).
pub open spec fn item_rule(group: Seq<char>, item: GroupItemModel) -> (Seq<char>, Seq<(Seq<char>, Seq<char>)>) {
    let prop = PLUGIN_FAMILY_PROP@ + group;
    match item {
        GroupItemModel::Static(c) => (c, seq![(prop, Seq::empty())]),
        GroupItemModel::Wildcard(prefix, specs) => (
            prefix + "-*"@,
            seq![(prop, "--value("@ + join_spec(specs.map_values(|s: GroupSpecModel| spec_text(s)), ","@) + ")"@)],
        ),
    }
}

/// The rules of a group's items, in order.
pub open spec fn group_rules(group: Seq<char>, items: Seq<GroupItemModel>) -> Seq<(Seq<char>, Seq<(Seq<char>, Seq<char>)>)>
    decreases items.len(),
{
    if items.len() == 0 {
        Seq::empty()
    } else {
        group_rules(group, items.drop_last()).push(item_rule(group, items.last()))
    }
}

/// The rules of all groups, in order.
pub open spec fn synthetic_rules(groups: Seq<(Seq<char>, Seq<GroupItemModel>)>) -> Seq<(Seq<char>, Seq<(Seq<char>, Seq<char>)>)>
    decreases groups.len(),
{
    if groups.len() == 0 {
        Seq::empty()
    } else {
        synthetic_rules(groups.drop_last()) + group_rules(groups.last().0, groups.last().1)
    }
}

fn spec_string(spec: &GroupSpec) -> (r: String)
    ensures
        r@ == spec_text(spec@),
{
    match spec {
        GroupSpec::Type(t) => {
            let open = concat("<", t.as_str());
            concat(open.as_str(), ">")
        },
        GroupSpec::ThemeKey { prefix, has_star } => {
            if *has_star {
                concat(prefix.as_str(), "*")
            } else {
                prefix.clone()
            }
        },
        GroupSpec::Keyword(k) => k.clone(),
    }
}

fn item_rule_of(group: &String, item: &GroupItem) -> (r: (String, Vec<(String, String)>))
    ensures
        r.0@ == item_rule(group@, item@).0,
        crate::css::pairs(r.1@) == item_rule(group@, item@).1,
{
    let prop = concat(PLUGIN_FAMILY_PROP, group.as_str());
    match item {
        GroupItem::Static(cls) => {
            let v = vec![(prop, String::new())];
            assert(crate::css::pairs(v@) =~= item_rule(group@, item@).1);
            (cls.clone(), v)
        },
        GroupItem::Wildcard(w) => {
            let mut texts: Vec<String> = Vec::new();
            let mut i: usize = 0;
            while i < w.specs.len()
                invariant
                    0 <= i <= w.specs@.len(),
                    texts@.map_values(|s: String| s@) == specs_view(w.specs@).subrange(0, i as int).map_values(|s: GroupSpecModel| spec_text(s)),
                decreases w.specs@.len() - i,
            {
                let t = spec_string(&w.specs[i]);
                let ghost before = texts@.map_values(|s: String| s@);
                texts.push(t);
                assert(texts@.map_values(|s: String| s@) =~= before.push(spec_text(w.specs@[i as int]@)));
                assert(specs_view(w.specs@).subrange(0, i + 1).map_values(|s: GroupSpecModel| spec_text(s)) =~= specs_view(w.specs@).subrange(0, i as int).map_values(|s: GroupSpecModel| spec_text(s)).push(spec_text(w.specs@[i as int]@)));
                i = i + 1;
            }
            assert(specs_view(w.specs@).subrange(0, i as int) =~= specs_view(w.specs@));
            let joined = join(texts.as_slice(), ",");
            let open = concat("--value(", joined.as_str());
            let marker = concat(open.as_str(), ")");
            let name = concat(w.prefix.as_str(), "-*");
            let v = vec![(prop, marker)];
            assert(crate::css::pairs(v@) =~= item_rule(group@, item@).1);
            (name, v)
        },
    }
}

impl PluginConfig {
    /// The plugin `@utility` rules, in group and item order: a static item
    /// becomes a literal rule; a wildcard becomes `{prefix}-*` with a
    /// `--value(...)` marker.
    pub fn to_synthetic_utilities(&self) -> (r: Vec<(String, Vec<(String, String)>)>)
        ensures
            crate::css::rules(r@) == synthetic_rules(self@.class_groups),
    {
        let ghost gv = self@.class_groups;
        let mut out: Vec<(String, Vec<(String, String)>)> = Vec::new();
        let mut g: usize = 0;
        assert(crate::css::rules(out@) =~= synthetic_rules(gv.subrange(0, 0)));
        while g < self.class_groups.len()
            invariant
                gv == self@.class_groups,
                0 <= g <= self.class_groups@.len(),
                crate::css::rules(out@) == synthetic_rules(gv.subrange(0, g as int)),
            decreases self.class_groups@.len() - g,
        {
            let group = &self.class_groups[g].0;
            let items = &self.class_groups[g].1;
            let ghost base = crate::css::rules(out@);
            let ghost iv = items_view(items@);
            let mut k: usize = 0;
            assert(group_rules(group@, iv.subrange(0, 0)) =~= Seq::<(Seq<char>, Seq<(Seq<char>, Seq<char>)>)>::empty());
            assert(base + group_rules(group@, iv.subrange(0, 0)) =~= base);
            while k < items.len()
                invariant
                    iv == items_view(items@),
                    0 <= k <= items@.len(),
                    crate::css::rules(out@) == base + group_rules(group@, iv.subrange(0, k as int)),
                decreases items@.len() - k,
            {
                let rule = item_rule_of(group, &items[k]);
                let ghost before = crate::css::rules(out@);
                proof {
                    assert(iv.subrange(0, k + 1).drop_last() =~= iv.subrange(0, k as int));
                    assert(iv.subrange(0, k + 1).last() == items@[k as int]@);
                }
                out.push(rule);
                assert(crate::css::rules(out@) =~= before.push(item_rule(group@, items@[k as int]@)));
                assert(base + group_rules(group@, iv.subrange(0, k + 1)) =~= (base + group_rules(group@, iv.subrange(0, k as int))).push(item_rule(group@, items@[k as int]@)));
                k = k + 1;
            }
            proof {
                assert(iv.subrange(0, k as int) =~= iv);
                assert(gv.subrange(0, g + 1).drop_last() =~= gv.subrange(0, g as int));
                assert(gv.subrange(0, g + 1).last() == (group@, iv));
            }
            g = g + 1;
        }
        assert(gv.subrange(0, g as int) =~= gv);
        out
    }
}


// ---------------------------------------------------------------------------
// Reading a config from its JSON value
// ---------------------------------------------------------------------------

/// A JSON value, with object members in the order the parser gives them.
#[derive(Debug)]
pub enum JsonValue {
    Null,
    Bool(bool),
    /// The number's text.
    Number(String),
    String(String),
    Array(Vec<JsonValue>),
    Object(Vec<(String, JsonValue)>),
}

pub open spec fn kind_name_spec(v: JsonValue) -> Seq<char> {
    match v {
        JsonValue::Null => "null"@,
        JsonValue::Bool(_) => "boolean"@,
        JsonValue::Number(_) => "number"@,
        JsonValue::String(_) => "string"@,
        JsonValue::Array(_) => "array"@,
        JsonValue::Object(_) => "object"@,
    }
}

fn kind_name(v: &JsonValue) -> (r: &'static str)
    ensures
        r@ == kind_name_spec(*v),
{
    match v {
        JsonValue::Null => "null",
        JsonValue::Bool(_) => "boolean",
        JsonValue::Number(_) => "number",
        JsonValue::String(_) => "string",
        JsonValue::Array(_) => "array",
        JsonValue::Object(_) => "object",
    }
}

pub open spec fn digit_text(d: nat) -> Seq<char> {
    if d == 0 { "0"@ } else if d == 1 { "1"@ } else if d == 2 { "2"@ } else if d == 3 { "3"@ } else if d == 4 { "4"@ }
    else if d == 5 { "5"@ } else if d == 6 { "6"@ } else if d == 7 { "7"@ } else if d == 8 { "8"@ } else { "9"@ }
}

/// The decimal digits of `n`.
pub open spec fn decimal(n: nat) -> Seq<char>
    decreases n,
{
    if n < 10 { digit_text(n) } else { decimal(n / 10) + digit_text(n % 10) }
}

fn digit(d: usize) -> (r: &'static str)
    requires
        d < 10,
    ensures
        r@ == digit_text(d as nat),
{
    if d == 0 { "0" } else if d == 1 { "1" } else if d == 2 { "2" } else if d == 3 { "3" } else if d == 4 { "4" }
    else if d == 5 { "5" } else if d == 6 { "6" } else if d == 7 { "7" } else if d == 8 { "8" } else { "9" }
}

fn decimal_text(n: usize) -> (r: String)
    ensures
        r@ == decimal(n as nat),
    decreases n,
{
    if n < 10 {
        owned(digit(n))
    } else {
        let head = decimal_text(n / 10);
        concat(head.as_str(), digit(n % 10))
    }
}

/// One value spec of a wildcard item.
pub open spec fn spec_of(v: JsonValue) -> Result<GroupSpecModel, Seq<char>> {
    match v {
        JsonValue::String(s) => {
            let b = enc(s@);
            if b.len() >= 2 && b[0] == '<' as u8 && b[b.len() - 1] == '>' as u8 {
                let name = text(b, 1, b.len() - 1);
                if name == "color"@ {
                    Ok(GroupSpecModel::Type("any"@))
                } else if type_code_spec(name) != TYPE_NEVER {
                    Ok(GroupSpecModel::Type(name))
                } else {
                    Err("unknown spec type: <"@ + name + ">"@)
                }
            } else if has_prefix(s@, "--"@) {
                match first_byte(b, '*' as u8, 0) {
                    Some(k) => Ok(GroupSpecModel::ThemeKey(text(b, 0, k), true)),
                    None => Ok(GroupSpecModel::ThemeKey(s@, false)),
                }
            } else {
                Ok(GroupSpecModel::Keyword(s@))
            }
        },
        _ => Err("spec must be a string"@),
    }
}

pub open spec fn specs_of(arr: Seq<JsonValue>) -> Result<Seq<GroupSpecModel>, Seq<char>>
    decreases arr.len(),
{
    if arr.len() == 0 {
        Ok(Seq::empty())
    } else {
        match specs_of(arr.drop_last()) {
            Err(e) => Err(e),
            Ok(ss) => match spec_of(arr.last()) {
                Ok(s) => Ok(ss.push(s)),
                Err(e) => Err(e),
            },
        }
    }
}

/// A wildcard item: an object with the class prefix as its only key.
pub open spec fn wildcard_of(obj: Seq<(String, JsonValue)>) -> Result<GroupItemModel, Seq<char>> {
    if obj.len() != 1 {
        Err("group item object must have exactly one key (the class prefix), got "@ + decimal(obj.len()))
    } else {
        match obj[0].1 {
            JsonValue::Array(arr) => match specs_of(arr@) {
                Ok(ss) => Ok(GroupItemModel::Wildcard(obj[0].0@, ss)),
                Err(e) => Err(e),
            },
            _ => Err("group item spec list must be a JSON array"@),
        }
    }
}

pub open spec fn item_of(v: JsonValue) -> Result<GroupItemModel, Seq<char>> {
    match v {
        JsonValue::String(s) => Ok(GroupItemModel::Static(s@)),
        JsonValue::Object(obj) => wildcard_of(obj@),
        _ => Err("group item must be a string or an object, got "@ + kind_name_spec(v)),
    }
}

pub open spec fn items_of_array(arr: Seq<JsonValue>) -> Result<Seq<GroupItemModel>, Seq<char>>
    decreases arr.len(),
{
    if arr.len() == 0 {
        Ok(Seq::empty())
    } else {
        match items_of_array(arr.drop_last()) {
            Err(e) => Err(e),
            Ok(is) => match item_of(arr.last()) {
                Ok(i) => Ok(is.push(i)),
                Err(e) => Err(e),
            },
        }
    }
}

/// The items of one group: a string, an array of items, or one wildcard.
pub open spec fn group_items(v: JsonValue) -> Result<Seq<GroupItemModel>, Seq<char>> {
    match v {
        JsonValue::String(s) => Ok(seq![GroupItemModel::Static(s@)]),
        JsonValue::Array(arr) => items_of_array(arr@),
        JsonValue::Object(obj) => match wildcard_of(obj@) {
            Ok(w) => Ok(seq![w]),
            Err(e) => Err(e),
        },
        _ => Err("group item must be a string or an object, got "@ + kind_name_spec(v)),
    }
}

pub open spec fn groups_from(acc: Seq<(Seq<char>, Seq<GroupItemModel>)>, obj: Seq<(String, JsonValue)>) -> Result<Seq<(Seq<char>, Seq<GroupItemModel>)>, Seq<char>>
    decreases obj.len(),
{
    if obj.len() == 0 {
        Ok(acc)
    } else {
        match groups_from(acc, obj.drop_last()) {
            Err(e) => Err(e),
            Ok(gs) => match group_items(obj.last().1) {
                Ok(items) => Ok(gs.push((obj.last().0@, items))),
                Err(e) => Err(e),
            },
        }
    }
}

/// `classGroups`: each named group appended in order.
pub open spec fn class_groups_of(acc: Seq<(Seq<char>, Seq<GroupItemModel>)>, v: JsonValue) -> Result<Seq<(Seq<char>, Seq<GroupItemModel>)>, Seq<char>> {
    match v {
        JsonValue::Object(obj) => groups_from(acc, obj@),
        _ => Err("classGroups must be a JSON object"@),
    }
}

pub open spec fn targets_of(arr: Seq<JsonValue>) -> Result<Seq<Seq<char>>, Seq<char>>
    decreases arr.len(),
{
    if arr.len() == 0 {
        Ok(Seq::empty())
    } else {
        match targets_of(arr.drop_last()) {
            Err(e) => Err(e),
            Ok(ts) => match arr.last() {
                JsonValue::String(s) => Ok(ts.push(s@)),
                _ => Err("conflicting class group target must be a string"@),
            },
        }
    }
}

pub open spec fn conflicts_from(acc: Seq<(Seq<char>, Seq<Seq<char>>)>, obj: Seq<(String, JsonValue)>) -> Result<Seq<(Seq<char>, Seq<Seq<char>>)>, Seq<char>>
    decreases obj.len(),
{
    if obj.len() == 0 {
        Ok(acc)
    } else {
        match conflicts_from(acc, obj.drop_last()) {
            Err(e) => Err(e),
            Ok(cs) => match obj.last().1 {
                JsonValue::Array(arr) => match targets_of(arr@) {
                    Ok(ts) => Ok(cs.push((obj.last().0@, ts))),
                    Err(e) => Err(e),
                },
                _ => Err("conflicting class group targets must be a JSON array"@),
            },
        }
    }
}

/// `conflictingClassGroups`: each group's targets appended in order.
pub open spec fn conflicts_of(acc: Seq<(Seq<char>, Seq<Seq<char>>)>, v: JsonValue) -> Result<Seq<(Seq<char>, Seq<Seq<char>>)>, Seq<char>> {
    match v {
        JsonValue::Object(obj) => conflicts_from(acc, obj@),
        _ => Err("conflictingClassGroups must be a JSON object"@),
    }
}

/// One top-level member (`extend` only when allowed).
pub open spec fn member_of(cfg: ConfigModel, key: Seq<char>, v: JsonValue, allow_extend: bool) -> Result<ConfigModel, Seq<char>>
    decreases v, 1nat,
{
    if key == "classGroups"@ {
        match class_groups_of(cfg.class_groups, v) {
            Ok(gs) => Ok(ConfigModel { class_groups: gs, ..cfg }),
            Err(e) => Err(e),
        }
    } else if key == "conflictingClassGroups"@ {
        match conflicts_of(cfg.conflicting_class_groups, v) {
            Ok(cs) => Ok(ConfigModel { conflicting_class_groups: cs, ..cfg }),
            Err(e) => Err(e),
        }
    } else if key == "extend"@ && allow_extend {
        match v {
            JsonValue::Object(obj) => members_from(cfg, obj@, false),
            _ => Err("extend must be a JSON object"@),
        }
    } else {
        Err("unsupported config key: "@ + key)
    }
}

pub open spec fn members_from(cfg: ConfigModel, obj: Seq<(String, JsonValue)>, allow_extend: bool) -> Result<ConfigModel, Seq<char>>
    decreases obj, obj.len(),
{
    if obj.len() == 0 {
        Ok(cfg)
    } else {
        match members_from(cfg, obj.drop_last(), allow_extend) {
            Err(e) => Err(e),
            Ok(c) => member_of(c, obj.last().0@, obj.last().1, allow_extend),
        }
    }
}

pub open spec fn empty_config() -> ConfigModel {
    ConfigModel { class_groups: Seq::empty(), conflicting_class_groups: Seq::empty() }
}

/// A tailwind-merge plugin config: top-level `classGroups`,
/// `conflictingClassGroups` and optionally `extend` with the same two keys
/// (appended); any other key is an error, as is any malformed part (the
/// first one in member order).
pub open spec fn config_of(root: JsonValue) -> Result<ConfigModel, Seq<char>> {
    match root {
        JsonValue::Object(obj) => members_from(empty_config(), obj@, true),
        _ => Err("config must be a JSON object"@),
    }
}


fn parse_spec(v: &JsonValue) -> (r: Result<GroupSpec, String>)
    ensures
        r is Ok <==> spec_of(*v) is Ok,
        r matches Ok(x) ==> spec_of(*v) == Ok::<GroupSpecModel, Seq<char>>(x@),
        r matches Err(m) ==> spec_of(*v) == Err::<GroupSpecModel, Seq<char>>(m@),
{
    match v {
        JsonValue::String(s) => {
            let b = s.as_str().as_bytes();
            let n = b.len();
            if n >= 2 && b[0] == 60u8 && b[n - 1] == 62u8 {
                proof {
                    crate::text::lemma_after_ascii(b@, 0);
                    assert(b@[n - 1] < 0x80);
                }
                let name = crate::text::substr(s.as_str(), 1, n - 1);
                if crate::text::str_eq(name, "color") {
                    return Ok(GroupSpec::Type(owned("any")));
                }
                if crate::patterns::type_code(name) != TYPE_NEVER {
                    return Ok(GroupSpec::Type(owned(name)));
                }
                let head = concat("unknown spec type: <", name);
                return Err(concat(head.as_str(), ">"));
            }
            if crate::text::starts_with(s.as_str(), "--") {
                let k = crate::utility::find_byte(b, 42u8);
                if k < n {
                    proof { assert(b@[k as int] < 0x80); }
                    return Ok(GroupSpec::ThemeKey { prefix: owned(crate::text::substr(s.as_str(), 0, k)), has_star: true });
                }
                return Ok(GroupSpec::ThemeKey { prefix: s.clone(), has_star: false });
            }
            Ok(GroupSpec::Keyword(s.clone()))
        },
        _ => Err(owned("spec must be a string")),
    }
}

fn parse_specs(arr: &Vec<JsonValue>) -> (r: Result<Vec<GroupSpec>, String>)
    ensures
        r is Ok <==> specs_of(arr@) is Ok,
        r matches Ok(x) ==> specs_of(arr@) == Ok::<Seq<GroupSpecModel>, Seq<char>>(specs_view(x@)),
        r matches Err(m) ==> specs_of(arr@) == Err::<Seq<GroupSpecModel>, Seq<char>>(m@),
{
    let mut out: Vec<GroupSpec> = Vec::new();
    let mut i: usize = 0;
    assert(arr@.subrange(0, 0) =~= Seq::<JsonValue>::empty());
    assert(specs_view(out@) =~= Seq::<GroupSpecModel>::empty());
    while i < arr.len()
        invariant
            0 <= i <= arr@.len(),
            specs_of(arr@.subrange(0, i as int)) == Ok::<Seq<GroupSpecModel>, Seq<char>>(specs_view(out@)),
        decreases arr@.len() - i,
    {
        proof {
            assert(arr@.subrange(0, i + 1).drop_last() =~= arr@.subrange(0, i as int));
            assert(arr@.subrange(0, i + 1).last() == arr@[i as int]);
        }
        match parse_spec(&arr[i]) {
            Ok(s) => {
                let ghost before = specs_view(out@);
                let ghost sv = s@;
                out.push(s);
                assert(specs_view(out@) =~= before.push(sv));
            },
            Err(e) => {
                proof {
                    assert(specs_of(arr@.subrange(0, i + 1)) == Err::<Seq<GroupSpecModel>, Seq<char>>(e@));
                    lemma_specs_err(arr@, i as int + 1);
                }
                return Err(e);
            },
        }
        i = i + 1;
    }
    assert(arr@.subrange(0, i as int) =~= arr@);
    Ok(out)
}

proof fn lemma_specs_err(arr: Seq<JsonValue>, n: int)
    requires
        0 < n <= arr.len(),
        specs_of(arr.subrange(0, n)) is Err,
    ensures
        specs_of(arr) == specs_of(arr.subrange(0, n)),
    decreases arr.len() - n,
{
    if n < arr.len() {
        assert(arr.subrange(0, n + 1).drop_last() =~= arr.subrange(0, n));
        lemma_specs_err(arr, n + 1);
    } else {
        assert(arr.subrange(0, n) =~= arr);
    }
}

fn parse_wildcard(obj: &Vec<(String, JsonValue)>) -> (r: Result<GroupItem, String>)
    ensures
        r is Ok <==> wildcard_of(obj@) is Ok,
        r matches Ok(x) ==> wildcard_of(obj@) == Ok::<GroupItemModel, Seq<char>>(x@),
        r matches Err(m) ==> wildcard_of(obj@) == Err::<GroupItemModel, Seq<char>>(m@),
{
    if obj.len() != 1 {
        let n = decimal_text(obj.len());
        return Err(concat("group item object must have exactly one key (the class prefix), got ", n.as_str()));
    }
    let prefix = &obj[0].0;
    match &obj[0].1 {
        JsonValue::Array(arr) => {
            match parse_specs(arr) {
                Ok(specs) => Ok(GroupItem::Wildcard(Wildcard { prefix: prefix.clone(), specs })),
                Err(e) => Err(e),
            }
        },
        _ => Err(owned("group item spec list must be a JSON array")),
    }
}

fn parse_item(v: &JsonValue) -> (r: Result<GroupItem, String>)
    ensures
        r is Ok <==> item_of(*v) is Ok,
        r matches Ok(x) ==> item_of(*v) == Ok::<GroupItemModel, Seq<char>>(x@),
        r matches Err(m) ==> item_of(*v) == Err::<GroupItemModel, Seq<char>>(m@),
{
    match v {
        JsonValue::String(s) => Ok(GroupItem::Static(s.clone())),
        JsonValue::Object(obj) => parse_wildcard(obj),
        _ => Err(concat("group item must be a string or an object, got ", kind_name(v))),
    }
}

proof fn lemma_items_err(arr: Seq<JsonValue>, n: int)
    requires
        0 < n <= arr.len(),
        items_of_array(arr.subrange(0, n)) is Err,
    ensures
        items_of_array(arr) == items_of_array(arr.subrange(0, n)),
    decreases arr.len() - n,
{
    if n < arr.len() {
        assert(arr.subrange(0, n + 1).drop_last() =~= arr.subrange(0, n));
        lemma_items_err(arr, n + 1);
    } else {
        assert(arr.subrange(0, n) =~= arr);
    }
}

fn parse_group_items(v: &JsonValue) -> (r: Result<Vec<GroupItem>, String>)
    ensures
        r is Ok <==> group_items(*v) is Ok,
        r matches Ok(x) ==> group_items(*v) == Ok::<Seq<GroupItemModel>, Seq<char>>(items_view(x@)),
        r matches Err(m) ==> group_items(*v) == Err::<Seq<GroupItemModel>, Seq<char>>(m@),
{
    match v {
        JsonValue::String(s) => {
            let out = vec![GroupItem::Static(s.clone())];
            assert(items_view(out@) =~= seq![GroupItemModel::Static(s@)]);
            Ok(out)
        },
        JsonValue::Array(arr) => {
            let mut out: Vec<GroupItem> = Vec::new();
            let mut i: usize = 0;
            assert(arr@.subrange(0, 0) =~= Seq::<JsonValue>::empty());
            assert(items_view(out@) =~= Seq::<GroupItemModel>::empty());
            while i < arr.len()
                invariant
                    0 <= i <= arr@.len(),
                    group_items(*v) == items_of_array(arr@),
                    items_of_array(arr@.subrange(0, i as int)) == Ok::<Seq<GroupItemModel>, Seq<char>>(items_view(out@)),
                decreases arr@.len() - i,
            {
                proof {
                    assert(arr@.subrange(0, i + 1).drop_last() =~= arr@.subrange(0, i as int));
                    assert(arr@.subrange(0, i + 1).last() == arr@[i as int]);
                }
                match parse_item(&arr[i]) {
                    Ok(it) => {
                        let ghost before = items_view(out@);
                        let ghost iv = it@;
                        out.push(it);
                        assert(items_view(out@) =~= before.push(iv));
                    },
                    Err(e) => {
                        proof {
                            assert(items_of_array(arr@.subrange(0, i + 1)) == Err::<Seq<GroupItemModel>, Seq<char>>(e@));
                            lemma_items_err(arr@, i as int + 1);
                        }
                        return Err(e);
                    },
                }
                i = i + 1;
            }
            assert(arr@.subrange(0, i as int) =~= arr@);
            Ok(out)
        },
        JsonValue::Object(obj) => {
            match parse_wildcard(obj) {
                Ok(w) => {
                    let ghost wv = w@;
                    let out = vec![w];
                    assert(items_view(out@) =~= seq![wv]);
                    Ok(out)
                },
                Err(e) => Err(e),
            }
        },
        _ => Err(concat("group item must be a string or an object, got ", kind_name(v))),
    }
}

proof fn lemma_groups_err(acc: Seq<(Seq<char>, Seq<GroupItemModel>)>, obj: Seq<(String, JsonValue)>, n: int)
    requires
        0 < n <= obj.len(),
        groups_from(acc, obj.subrange(0, n)) is Err,
    ensures
        groups_from(acc, obj) == groups_from(acc, obj.subrange(0, n)),
    decreases obj.len() - n,
{
    if n < obj.len() {
        assert(obj.subrange(0, n + 1).drop_last() =~= obj.subrange(0, n));
        lemma_groups_err(acc, obj, n + 1);
    } else {
        assert(obj.subrange(0, n) =~= obj);
    }
}

fn parse_class_groups(value: &JsonValue, out: &mut Vec<(String, Vec<GroupItem>)>) -> (r: Result<(), String>)
    ensures
        r is Ok <==> class_groups_of(groups_view(old(out)@), *value) is Ok,
        r is Ok ==> class_groups_of(groups_view(old(out)@), *value) == Ok::<Seq<(Seq<char>, Seq<GroupItemModel>)>, Seq<char>>(groups_view(final(out)@)),
        r matches Err(m) ==> class_groups_of(groups_view(old(out)@), *value) == Err::<Seq<(Seq<char>, Seq<GroupItemModel>)>, Seq<char>>(m@),
{
    let ghost acc = groups_view(out@);
    match value {
        JsonValue::Object(obj) => {
            let mut i: usize = 0;
            assert(obj@.subrange(0, 0) =~= Seq::<(String, JsonValue)>::empty());
            while i < obj.len()
                invariant
                    0 <= i <= obj@.len(),
                    acc == groups_view(old(out)@),
                    class_groups_of(acc, *value) == groups_from(acc, obj@),
                    groups_from(acc, obj@.subrange(0, i as int)) == Ok::<Seq<(Seq<char>, Seq<GroupItemModel>)>, Seq<char>>(groups_view(out@)),
                decreases obj@.len() - i,
            {
                proof {
                    assert(obj@.subrange(0, i + 1).drop_last() =~= obj@.subrange(0, i as int));
                    assert(obj@.subrange(0, i + 1).last() == obj@[i as int]);
                }
                match parse_group_items(&obj[i].1) {
                    Ok(items) => {
                        let ghost before = groups_view(out@);
                        let ghost iv = items_view(items@);
                        out.push((obj[i].0.clone(), items));
                        assert(groups_view(out@) =~= before.push((obj@[i as int].0@, iv)));
                    },
                    Err(e) => {
                        proof {
                            assert(groups_from(acc, obj@.subrange(0, i + 1)) == Err::<Seq<(Seq<char>, Seq<GroupItemModel>)>, Seq<char>>(e@));
                            lemma_groups_err(acc, obj@, i as int + 1);
                        }
                        return Err(e);
                    },
                }
                i = i + 1;
            }
            assert(obj@.subrange(0, i as int) =~= obj@);
            Ok(())
        },
        _ => Err(owned("classGroups must be a JSON object")),
    }
}

proof fn lemma_targets_err(arr: Seq<JsonValue>, n: int)
    requires
        0 < n <= arr.len(),
        targets_of(arr.subrange(0, n)) is Err,
    ensures
        targets_of(arr) == targets_of(arr.subrange(0, n)),
    decreases arr.len() - n,
{
    if n < arr.len() {
        assert(arr.subrange(0, n + 1).drop_last() =~= arr.subrange(0, n));
        lemma_targets_err(arr, n + 1);
    } else {
        assert(arr.subrange(0, n) =~= arr);
    }
}

proof fn lemma_conflicts_err(acc: Seq<(Seq<char>, Seq<Seq<char>>)>, obj: Seq<(String, JsonValue)>, n: int)
    requires
        0 < n <= obj.len(),
        conflicts_from(acc, obj.subrange(0, n)) is Err,
    ensures
        conflicts_from(acc, obj) == conflicts_from(acc, obj.subrange(0, n)),
    decreases obj.len() - n,
{
    if n < obj.len() {
        assert(obj.subrange(0, n + 1).drop_last() =~= obj.subrange(0, n));
        lemma_conflicts_err(acc, obj, n + 1);
    } else {
        assert(obj.subrange(0, n) =~= obj);
    }
}

fn parse_targets(arr: &Vec<JsonValue>) -> (r: Result<Vec<String>, String>)
    ensures
        r is Ok <==> targets_of(arr@) is Ok,
        r matches Ok(x) ==> targets_of(arr@) == Ok::<Seq<Seq<char>>, Seq<char>>(x@.map_values(|s: String| s@)),
        r matches Err(m) ==> targets_of(arr@) == Err::<Seq<Seq<char>>, Seq<char>>(m@),
{
    let mut out: Vec<String> = Vec::new();
    let mut i: usize = 0;
    assert(arr@.subrange(0, 0) =~= Seq::<JsonValue>::empty());
    assert(out@.map_values(|s: String| s@) =~= Seq::<Seq<char>>::empty());
    while i < arr.len()
        invariant
            0 <= i <= arr@.len(),
            targets_of(arr@.subrange(0, i as int)) == Ok::<Seq<Seq<char>>, Seq<char>>(out@.map_values(|s: String| s@)),
        decreases arr@.len() - i,
    {
        proof {
            assert(arr@.subrange(0, i + 1).drop_last() =~= arr@.subrange(0, i as int));
            assert(arr@.subrange(0, i + 1).last() == arr@[i as int]);
        }
        match &arr[i] {
            JsonValue::String(s) => {
                let ghost before = out@.map_values(|s: String| s@);
                out.push(s.clone());
                assert(out@.map_values(|s: String| s@) =~= before.push(s@));
            },
            _ => {
                proof {
                    assert(targets_of(arr@.subrange(0, i + 1)) is Err);
                    lemma_targets_err(arr@, i as int + 1);
                }
                return Err(owned("conflicting class group target must be a string"));
            },
        }
        i = i + 1;
    }
    assert(arr@.subrange(0, i as int) =~= arr@);
    Ok(out)
}

fn parse_conflicts(value: &JsonValue, out: &mut Vec<(String, Vec<String>)>) -> (r: Result<(), String>)
    ensures
        r is Ok <==> conflicts_of(edges_view(old(out)@), *value) is Ok,
        r is Ok ==> conflicts_of(edges_view(old(out)@), *value) == Ok::<Seq<(Seq<char>, Seq<Seq<char>>)>, Seq<char>>(edges_view(final(out)@)),
        r matches Err(m) ==> conflicts_of(edges_view(old(out)@), *value) == Err::<Seq<(Seq<char>, Seq<Seq<char>>)>, Seq<char>>(m@),
{
    let ghost acc = edges_view(out@);
    match value {
        JsonValue::Object(obj) => {
            let mut i: usize = 0;
            assert(obj@.subrange(0, 0) =~= Seq::<(String, JsonValue)>::empty());
            while i < obj.len()
                invariant
                    0 <= i <= obj@.len(),
                    acc == edges_view(old(out)@),
                    conflicts_of(acc, *value) == conflicts_from(acc, obj@),
                    conflicts_from(acc, obj@.subrange(0, i as int)) == Ok::<Seq<(Seq<char>, Seq<Seq<char>>)>, Seq<char>>(edges_view(out@)),
                decreases obj@.len() - i,
            {
                proof {
                    assert(obj@.subrange(0, i + 1).drop_last() =~= obj@.subrange(0, i as int));
                    assert(obj@.subrange(0, i + 1).last() == obj@[i as int]);
                }
                match &obj[i].1 {
                    JsonValue::Array(arr) => {
                        match parse_targets(arr) {
                            Ok(ts) => {
                                let ghost before = edges_view(out@);
                                let ghost tv = ts@.map_values(|s: String| s@);
                                out.push((obj[i].0.clone(), ts));
                                assert(edges_view(out@) =~= before.push((obj@[i as int].0@, tv)));
                            },
                            Err(e) => {
                                proof {
                                    assert(conflicts_from(acc, obj@.subrange(0, i + 1)) == Err::<Seq<(Seq<char>, Seq<Seq<char>>)>, Seq<char>>(e@));
                                    lemma_conflicts_err(acc, obj@, i as int + 1);
                                }
                                return Err(e);
                            },
                        }
                    },
                    _ => {
                        proof {
                            assert(conflicts_from(acc, obj@.subrange(0, i + 1)) is Err);
                            lemma_conflicts_err(acc, obj@, i as int + 1);
                        }
                        return Err(owned("conflicting class group targets must be a JSON array"));
                    },
                }
                i = i + 1;
            }
            assert(obj@.subrange(0, i as int) =~= obj@);
            Ok(())
        },
        _ => Err(owned("conflictingClassGroups must be a JSON object")),
    }
}

proof fn lemma_members_err(cfg: ConfigModel, obj: Seq<(String, JsonValue)>, allow: bool, n: int)
    requires
        0 < n <= obj.len(),
        members_from(cfg, obj.subrange(0, n), allow) is Err,
    ensures
        members_from(cfg, obj, allow) == members_from(cfg, obj.subrange(0, n), allow),
    decreases obj.len() - n,
{
    if n < obj.len() {
        assert(obj.subrange(0, n + 1).drop_last() =~= obj.subrange(0, n));
        lemma_members_err(cfg, obj, allow, n + 1);
    } else {
        assert(obj.subrange(0, n) =~= obj);
    }
}

/// Reads the members of a config object (or of its `extend` object).
fn parse_members(cfg: &mut PluginConfig, obj: &Vec<(String, JsonValue)>, allow_extend: bool) -> (r: Result<(), String>)
    ensures
        r is Ok <==> members_from(old(cfg)@, obj@, allow_extend) is Ok,
        r is Ok ==> members_from(old(cfg)@, obj@, allow_extend) == Ok::<ConfigModel, Seq<char>>(final(cfg)@),
        r matches Err(m) ==> members_from(old(cfg)@, obj@, allow_extend) == Err::<ConfigModel, Seq<char>>(m@),
    decreases if allow_extend { 1nat } else { 0nat },
{
    let ghost c0 = cfg@;
    let mut i: usize = 0;
    assert(obj@.subrange(0, 0) =~= Seq::<(String, JsonValue)>::empty());
    while i < obj.len()
        invariant
            0 <= i <= obj@.len(),
            c0 == old(cfg)@,
            members_from(c0, obj@.subrange(0, i as int), allow_extend) == Ok::<ConfigModel, Seq<char>>(cfg@),
        decreases obj@.len() - i,
    {
        proof {
            assert(obj@.subrange(0, i + 1).drop_last() =~= obj@.subrange(0, i as int));
            assert(obj@.subrange(0, i + 1).last() == obj@[i as int]);
        }
        let key = obj[i].0.as_str();
        let value = &obj[i].1;
        let ghost ci = cfg@;
        let res = if crate::text::str_eq(key, "classGroups") {
            parse_class_groups(value, &mut cfg.class_groups)
        } else if crate::text::str_eq(key, "conflictingClassGroups") {
            parse_conflicts(value, &mut cfg.conflicting_class_groups)
        } else if crate::text::str_eq(key, "extend") && allow_extend {
            match value {
                JsonValue::Object(inner) => parse_members(cfg, inner, false),
                _ => Err(owned("extend must be a JSON object")),
            }
        } else {
            Err(concat("unsupported config key: ", key))
        };
        proof {
            assert(members_from(c0, obj@.subrange(0, i + 1), allow_extend) == member_of(ci, key@, *value, allow_extend));
        }
        match res {
            Ok(()) => {},
            Err(e) => {
                proof {
                    assert(members_from(c0, obj@.subrange(0, i + 1), allow_extend) == Err::<ConfigModel, Seq<char>>(e@));
                    lemma_members_err(c0, obj@, allow_extend, i as int + 1);
                }
                return Err(e);
            },
        }
        i = i + 1;
    }
    assert(obj@.subrange(0, i as int) =~= obj@);
    Ok(())
}

/// Reads a tailwind-merge plugin config from its JSON value (see `config_of`).
pub fn parse_config_value(root: &JsonValue) -> (r: Result<PluginConfig, String>)
    ensures
        r is Ok <==> config_of(*root) is Ok,
        r matches Ok(c) ==> config_of(*root) == Ok::<ConfigModel, Seq<char>>(c@),
        r matches Err(m) ==> config_of(*root) == Err::<ConfigModel, Seq<char>>(m@),
{
    match root {
        JsonValue::Object(obj) => {
            let mut cfg = PluginConfig { class_groups: Vec::new(), conflicting_class_groups: Vec::new() };
            assert(cfg@ =~= empty_config()) by {
                assert(groups_view(cfg.class_groups@) =~= Seq::<(Seq<char>, Seq<GroupItemModel>)>::empty());
                assert(edges_view(cfg.conflicting_class_groups@) =~= Seq::<(Seq<char>, Seq<Seq<char>>)>::empty());
            }
            match parse_members(&mut cfg, obj, true) {
                Ok(()) => Ok(cfg),
                Err(e) => Err(e),
            }
        },
        _ => Err(owned("config must be a JSON object")),
    }
}

// ---------------------------------------------------------------------------
// Reading a config from its JSON text
// ---------------------------------------------------------------------------

#[verifier::external_type_specification]
#[verifier::external_body]
pub struct ExSerdeJsonValue(serde_json::Value);

#[verifier::external_type_specification]
#[verifier::external_body]
pub struct ExSerdeJsonError(serde_json::Error);

/// The document that `serde_json::from_str::<serde_json::Value>` reads from
/// a text, as a `JsonValue`; `None` where the text is no JSON document.
pub uninterp spec fn json_document(text: Seq<char>) -> Option<JsonValue>;

/// Converts a `serde_json::Value` into a `JsonValue`, variant by variant;
/// object members come in the order the value's map yields them. This is
/// the conversion half of `read_json`, which alone calls it.
#[verifier::external_body]
fn json_from_serde(v: serde_json::Value) -> JsonValue {
    match v {
        serde_json::Value::Null => JsonValue::Null,
        serde_json::Value::Bool(b) => JsonValue::Bool(b),
        serde_json::Value::Number(n) => JsonValue::Number(n.to_string()),
        serde_json::Value::String(s) => JsonValue::String(s),
        serde_json::Value::Array(a) => JsonValue::Array(a.into_iter().map(json_from_serde).collect()),
        serde_json::Value::Object(o) => JsonValue::Object(o.into_iter().map(|(k, x)| (k, json_from_serde(x))).collect()),
    }
}

/// `serde_json::from_str::<serde_json::Value>`: the document of a JSON text,
/// converted by `json_from_serde`, or the parser's error. The claim is that
/// the document is a function of the text alone (named `json_document`);
/// which texts are documents is not stated.
#[verifier::external_body]
fn read_json(text: &str) -> (r: Result<JsonValue, serde_json::Error>)
    ensures
        r is Ok <==> json_document(text@) is Some,
        r matches Ok(v) ==> json_document(text@) == Some(v),
{
    serde_json::from_str::<serde_json::Value>(text).map(json_from_serde)
}

/// The `Display` text of a `serde_json::Error`; nothing is stated of it.
#[verifier::external_body]
fn json_error_text(e: &serde_json::Error) -> String {
    e.to_string()
}

/// Reads a tailwind-merge plugin config from its JSON text: an error that
/// starts with `invalid JSON: ` where the text is no JSON document, else
/// what `parse_config_value` gives for the document.
pub fn parse_config_json(json: &str) -> (r: Result<PluginConfig, String>)
    ensures
        json_document(json@) is None ==> (r matches Err(m) && "invalid JSON: "@.is_prefix_of(m@)),
        json_document(json@) matches Some(v) ==> {
            &&& (r is Ok <==> config_of(v) is Ok)
            &&& (r matches Ok(c) ==> config_of(v) == Ok::<ConfigModel, Seq<char>>(c@))
            &&& (r matches Err(m) ==> config_of(v) == Err::<ConfigModel, Seq<char>>(m@))
        },
{
    match read_json(json) {
        Ok(v) => parse_config_value(&v),
        Err(e) => {
            let detail = json_error_text(&e);
            let m = concat("invalid JSON: ", detail.as_str());
            assert(m@.subrange(0, "invalid JSON: "@.len() as int) =~= "invalid JSON: "@);
            Err(m)
        },
    }
}

} // verus!
