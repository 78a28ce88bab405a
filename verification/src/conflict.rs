//! Conflict table: class base -> (own family, conflict set), built at
//! generation time from the classes a project uses.

use vstd::prelude::*;
use crate::candidate::{parse_class_name, sort_modifiers, spec_sort_modifiers, parse_class_model, ParsedClass, ParsedModel};
use crate::config::{GroupItem, PluginConfig, ConfigModel, GroupItemModel};
use crate::families::{conflict_edges, spec_conflict_edges};
use crate::utility::{DesignSystem, Resolved, ResolvedModel, CatalogModel, resolve_spec, strs};
use crate::values::{is_named_container_query, spec_is_named_container_query};
use crate::text::{enc, cut_point, str_eq, owned, concat, join, join_spec, lemma_after_ascii};

verus! {

broadcast use {vstd::utf8::encode_utf8_valid_utf8, vstd::utf8::encode_utf8_decode_utf8};

// ---------------------------------------------------------------------------
// Conflict id lists
// ---------------------------------------------------------------------------

/// The ids of a list, as a set.
pub open spec fn id_set(s: Seq<u16>) -> Set<u16> {
    Set::new(|x: u16| s.contains(x))
}

/// Strictly increasing, hence free of repeats.
pub open spec fn increasing(s: Seq<u16>) -> bool {
    forall|i: int, j: int| 0 <= i < j < s.len() ==> s[i] < s[j]
}

pub open spec fn no_repeats(s: Seq<u16>) -> bool {
    forall|i: int, j: int| 0 <= i < j < s.len() ==> s[i] != s[j]
}

/// Two increasing lists with the same ids are the same list.
pub proof fn lemma_increasing_unique(a: Seq<u16>, b: Seq<u16>)
    requires
        increasing(a),
        increasing(b),
        id_set(a) == id_set(b),
    ensures
        a == b,
    decreases a.len(),
{
    if a.len() == 0 {
        if b.len() > 0 {
            assert(id_set(b).contains(b[0]));
        }
        assert(a =~= b);
    } else {
        assert(id_set(a).contains(a[0]));
        assert(b.contains(a[0]));
        let j = choose|j: int| 0 <= j < b.len() && b[j] == a[0];
        assert(id_set(b).contains(b[0]));
        assert(a.contains(b[0]));
        let i = choose|i: int| 0 <= i < a.len() && a[i] == b[0];
        assert(a[0] == b[0]) by {
            if i > 0 { assert(a[0] < a[i]); }
            if j > 0 { assert(b[0] < b[j]); }
        }
        let a1 = a.drop_first();
        let b1 = b.drop_first();
        assert(id_set(a1) =~= id_set(b1)) by {
            assert forall|x: u16| id_set(a1).contains(x) implies id_set(b1).contains(x) by {
                let k = choose|k: int| 0 <= k < a1.len() && a1[k] == x;
                assert(a[k + 1] == x);
                assert(id_set(a).contains(x));
                let m = choose|m: int| 0 <= m < b.len() && b[m] == x;
                assert(a[0] < a[k + 1]);
                if m == 0 {
                    assert(false);
                }
                assert(b1[m - 1] == x);
            }
            assert forall|x: u16| id_set(b1).contains(x) implies id_set(a1).contains(x) by {
                let k = choose|k: int| 0 <= k < b1.len() && b1[k] == x;
                assert(b[k + 1] == x);
                assert(id_set(b).contains(x));
                let m = choose|m: int| 0 <= m < a.len() && a[m] == x;
                assert(b[0] < b[k + 1]);
                if m == 0 {
                    assert(false);
                }
                assert(a1[m - 1] == x);
            }
        }
        lemma_increasing_unique(a1, b1);
        assert(a =~= seq![a[0]] + a1);
        assert(b =~= seq![b[0]] + b1);
    }
}

pub(crate) fn push_unique(v: &mut Vec<u16>, id: u16)
    ensures
        final(v)@ == if old(v)@.contains(id) { old(v)@ } else { old(v)@.push(id) },
        id_set(final(v)@) == id_set(old(v)@).insert(id),
        no_repeats(old(v)@) ==> no_repeats(final(v)@),
{
    let mut i: usize = 0;
    while i < v.len()
        invariant
            0 <= i <= v@.len(),
            forall|j: int| 0 <= j < i ==> v@[j] != id,
        decreases v@.len() - i,
    {
        if v[i] == id {
            assert(id_set(v@) =~= id_set(v@).insert(id));
            return;
        }
        i = i + 1;
    }
    let ghost before = v@;
    v.push(id);
    proof { lemma_id_set_push(before, id); }
}

pub proof fn lemma_id_set_push(s: Seq<u16>, x: u16)
    ensures
        id_set(s.push(x)) == id_set(s).insert(x),
{
    assert forall|y: u16| id_set(s.push(x)).contains(y) implies id_set(s).insert(x).contains(y) by {
        let k = choose|k: int| 0 <= k < s.push(x).len() && s.push(x)[k] == y;
        if k < s.len() {
            assert(s[k] == y);
        }
    }
    assert forall|y: u16| id_set(s).insert(x).contains(y) implies id_set(s.push(x)).contains(y) by {
        if y == x {
            assert(s.push(x)[s.len() as int] == x);
        } else {
            let k = choose|k: int| 0 <= k < s.len() && s[k] == y;
            assert(s.push(x)[k] == y);
        }
    }
    assert(id_set(s.push(x)) =~= id_set(s).insert(x));
}

/// Inserts an id missing from an increasing list at its place.
fn insert_sorted(out: &mut Vec<u16>, x: u16)
    requires
        increasing(old(out)@),
        !old(out)@.contains(x),
    ensures
        increasing(final(out)@),
        id_set(final(out)@) == id_set(old(out)@).insert(x),
{
    let mut k: usize = 0;
    while k < out.len() && out[k] < x
        invariant
            0 <= k <= out@.len(),
            forall|j: int| 0 <= j < k ==> out@[j] < x,
        decreases out@.len() - k,
    {
        k = k + 1;
    }
    let ghost before = out@;
    proof {
        if k < before.len() {
            assert(before[k as int] != x);
        }
    }
    out.insert(k, x);
    assert(out@ =~= before.subrange(0, k as int).push(x) + before.subrange(k as int, before.len() as int));
    assert(id_set(out@) =~= id_set(before).insert(x)) by {
        assert forall|y: u16| id_set(out@).contains(y) implies id_set(before).insert(x).contains(y) by {
            let m = choose|m: int| 0 <= m < out@.len() && out@[m] == y;
            if m < k {
                assert(before[m] == y);
            } else if m > k {
                assert(before[m - 1] == y);
            }
        }
        assert forall|y: u16| id_set(before).insert(x).contains(y) implies id_set(out@).contains(y) by {
            if y == x {
                assert(out@[k as int] == x);
            } else {
                let m = choose|m: int| 0 <= m < before.len() && before[m] == y;
                if m < k {
                    assert(out@[m] == y);
                } else {
                    assert(out@[m + 1] == y);
                }
            }
        }
    }
}

/// Sorts a list of distinct ids (the order `sort_unstable` gives).
pub(crate) fn sort_ids(v: &mut Vec<u16>)
    requires
        no_repeats(old(v)@),
    ensures
        increasing(final(v)@),
        id_set(final(v)@) == id_set(old(v)@),
{
    let mut out: Vec<u16> = Vec::new();
    let mut i: usize = 0;
    assert(id_set(out@) =~= id_set(v@.subrange(0, 0)));
    while i < v.len()
        invariant
            no_repeats(v@),
            0 <= i <= v@.len(),
            increasing(out@),
            id_set(out@) == id_set(v@.subrange(0, i as int)),
        decreases v@.len() - i,
    {
        let x = v[i];
        proof {
            if out@.contains(x) {
                assert(id_set(out@).contains(x));
                let m = choose|m: int| 0 <= m < v@.subrange(0, i as int).len() && v@.subrange(0, i as int)[m] == x;
                assert(v@[m] == v@[i as int]);
            }
        }
        insert_sorted(&mut out, x);
        proof {
            assert(v@.subrange(0, i + 1) =~= v@.subrange(0, i as int).push(x));
            lemma_id_set_push(v@.subrange(0, i as int), x);
        }
        i = i + 1;
    }
    assert(v@.subrange(0, i as int) =~= v@);
    *v = out;
}

// ---------------------------------------------------------------------------
// Families
// ---------------------------------------------------------------------------

/// First index at or after `i` of a family name.
pub open spec fn name_index(names: Seq<Seq<char>>, n: Seq<char>, i: int) -> Option<int>
    decreases names.len() - i,
{
    if i < 0 || i >= names.len() {
        None
    } else if names[i] == n {
        Some(i)
    } else {
        name_index(names, n, i + 1)
    }
}

/// The id of a family: its index, truncated to a `u16`; 0 when unknown.
pub open spec fn id_in(names: Seq<Seq<char>>, n: Seq<char>) -> u16 {
    match name_index(names, n, 0) {
        Some(i) => (i % 65536) as u16,
        None => 0,
    }
}

pub proof fn lemma_u16_cast(i: usize)
    ensures
        i as u16 == (i as int % 65536) as u16,
{
    assert(i as u16 == (i % 65536) as u16) by (bit_vector);
}

pub open spec fn registered(names: Seq<Seq<char>>, n: Seq<char>) -> bool {
    name_index(names, n, 0) is Some
}

/// A family gets the next id the first time it is seen.
pub open spec fn register(names: Seq<Seq<char>>, n: Seq<char>) -> Seq<Seq<char>> {
    if registered(names, n) { names } else { names.push(n) }
}

pub open spec fn register_all(names: Seq<Seq<char>>, fs: Seq<Seq<char>>) -> Seq<Seq<char>>
    decreases fs.len(),
{
    if fs.len() == 0 { names } else { register(register_all(names, fs.drop_last()), fs.last()) }
}

pub proof fn lemma_name_index(names: Seq<Seq<char>>, n: Seq<char>, i: int)
    requires
        0 <= i <= names.len(),
    ensures
        name_index(names, n, i) matches Some(j) ==> i <= j < names.len() && names[j] == n
            && forall|m: int| i <= m < j ==> names[m] != n,
        name_index(names, n, i) is None ==> forall|m: int| i <= m < names.len() ==> names[m] != n,
    decreases names.len() - i,
{
    if i < names.len() && names[i] != n {
        lemma_name_index(names, n, i + 1);
    }
}

/// Registering keeps the ids of the families already known and makes the
/// family known.
pub proof fn lemma_register(names: Seq<Seq<char>>, n: Seq<char>)
    ensures
        registered(register(names, n), n),
        names.is_prefix_of(register(names, n)),
        forall|q: Seq<char>| registered(names, q) ==> name_index(register(names, n), q, 0) == name_index(names, q, 0),
        forall|q: Seq<char>| #[trigger] registered(register(names, n), q) <==> registered(names, q) || q == n,
{
    lemma_name_index(names, n, 0);
    let r = register(names, n);
    if !registered(names, n) {
        assert forall|q: Seq<char>| registered(names, q) implies name_index(r, q, 0) == name_index(names, q, 0) by {
            lemma_name_index(names, q, 0);
            lemma_name_index(r, q, 0);
            let j = name_index(names, q, 0)->0;
            assert(r[j] == q);
            if name_index(r, q, 0) != name_index(names, q, 0) {
                let k = name_index(r, q, 0)->0;
                assert(k < j);
                assert(r[k] == names[k]);
            }
        }
        assert forall|q: Seq<char>| #[trigger] registered(r, q) <==> registered(names, q) || q == n by {
            lemma_name_index(names, q, 0);
            lemma_name_index(r, q, 0);
            if q == n {
                assert(r[names.len() as int] == n);
            }
            if registered(r, q) && q != n {
                let k = name_index(r, q, 0)->0;
                assert(k < names.len());
                assert(names[k] == q);
            }
            if registered(names, q) {
                let k = name_index(names, q, 0)->0;
                assert(r[k] == q);
            }
        }
        lemma_name_index(r, n, 0);
        assert(r[names.len() as int] == n);
    }
    assert(names.is_prefix_of(r));
}

pub proof fn lemma_register_all(names: Seq<Seq<char>>, fs: Seq<Seq<char>>)
    ensures
        names.is_prefix_of(register_all(names, fs)),
        forall|q: Seq<char>| registered(names, q) ==> name_index(register_all(names, fs), q, 0) == name_index(names, q, 0),
        forall|k: int| 0 <= k < fs.len() ==> registered(register_all(names, fs), #[trigger] fs[k]),
        forall|q: Seq<char>| #[trigger] registered(register_all(names, fs), q) ==> registered(names, q) || fs.contains(q),
    decreases fs.len(),
{
    if fs.len() > 0 {
        let prev = register_all(names, fs.drop_last());
        lemma_register_all(names, fs.drop_last());
        lemma_register(prev, fs.last());
        assert forall|k: int| 0 <= k < fs.len() implies registered(register_all(names, fs), #[trigger] fs[k]) by {
            if k < fs.len() - 1 {
                assert(fs.drop_last()[k] == fs[k]);
            }
        }
        assert forall|q: Seq<char>| #[trigger] registered(register_all(names, fs), q) implies registered(names, q) || fs.contains(q) by {
            if registered(prev, q) && !registered(names, q) {
                let k = choose|k: int| 0 <= k < fs.drop_last().len() && fs.drop_last()[k] == q;
                assert(fs[k] == q);
            }
            if q == fs.last() {
                assert(fs[fs.len() - 1] == q);
            }
        }
        assert forall|q: Seq<char>| registered(names, q) implies name_index(register_all(names, fs), q, 0) == name_index(names, q, 0) by {
            assert(registered(prev, q));
        }
        assert(names.is_prefix_of(register_all(names, fs)));
    }
}

/// The families a resolved class registers, in order: its own family, each
/// property family followed by that family's edges, then the own family's
/// edges.
pub open spec fn prop_part(pfs: Seq<Seq<char>>) -> Seq<Seq<char>>
    decreases pfs.len(),
{
    if pfs.len() == 0 {
        Seq::empty()
    } else {
        prop_part(pfs.drop_last()) + seq![pfs.last()] + spec_conflict_edges(pfs.last())
    }
}

pub open spec fn key_families(r: ResolvedModel) -> Seq<Seq<char>> {
    seq![r.family] + prop_part(r.prop_families) + spec_conflict_edges(r.family)
}

/// What a class conflicts with: own family and conflict ids.
pub struct KeyModel {
    pub family: Seq<char>,
    pub ids: Set<u16>,
}

/// The key of a resolved class, and the family list after registering its
/// families.
pub open spec fn make_key_spec(names: Seq<Seq<char>>, r: ResolvedModel) -> (Seq<Seq<char>>, KeyModel) {
    let names2 = register_all(names, key_families(r));
    (names2, KeyModel { family: r.family, ids: id_set(key_families(r).map_values(|f: Seq<char>| id_in(names2, f))) })
}

/// The runtime entry for a class base: own family + the set of family ids it
/// conflicts with (own family + generated property families + directed edges).
#[derive(Debug, Clone)]
pub struct ClassKey {
    pub family: String,
    /// In increasing order.
    pub conflict_ids: Vec<u16>,
}

impl View for ClassKey {
    type V = KeyModel;

    open spec fn view(&self) -> KeyModel {
        KeyModel { family: self.family@, ids: id_set(self.conflict_ids@) }
    }
}

impl ClassKey {
    /// A copy with the same family and ids.
    pub fn duplicate(&self) -> (r: ClassKey)
        ensures
            r@ == self@,
            r.conflict_ids@ == self.conflict_ids@,
    {
        let mut ids: Vec<u16> = Vec::new();
        let mut i: usize = 0;
        while i < self.conflict_ids.len()
            invariant
                0 <= i <= self.conflict_ids@.len(),
                ids@ == self.conflict_ids@.subrange(0, i as int),
            decreases self.conflict_ids@.len() - i,
        {
            ids.push(self.conflict_ids[i]);
            assert(ids@ =~= self.conflict_ids@.subrange(0, i + 1));
            i = i + 1;
        }
        assert(ids@ =~= self.conflict_ids@);
        ClassKey { family: self.family.clone(), conflict_ids: ids }
    }
}

pub open spec fn keys_view(v: Seq<(String, ClassKey)>) -> Seq<(Seq<char>, KeyModel)> {
    v.map_values(|e: (String, ClassKey)| (e.0@, e.1@))
}

/// What a conflict table holds.
pub struct TableModel {
    pub entries: Seq<(Seq<char>, KeyModel)>,
    pub family_names: Seq<Seq<char>>,
    pub postfix_entries: Seq<(Seq<char>, KeyModel)>,
    pub arb_fallbacks: Seq<(Seq<char>, KeyModel)>,
}

#[derive(Debug, Default)]
pub struct ConflictTable {
    /// base class name -> key, each base once.
    pub entries: Vec<(String, ClassKey)>,
    /// Family id -> name.
    pub family_names: Vec<String>,
    /// base + `/` -> postfix variant key (only when the postfix changes the
    /// family or the conflict set, e.g. `text-lg/` or `@container/`).
    pub postfix_entries: Vec<(String, ClassKey)>,
    /// Used arbitrary-value prefixes -> key (fallback: `p-[10px]` -> `p-arb`).
    pub arb_fallbacks: Vec<(String, ClassKey)>,
}

impl View for ConflictTable {
    type V = TableModel;

    open spec fn view(&self) -> TableModel {
        TableModel {
            entries: keys_view(self.entries@),
            family_names: strs(self.family_names@),
            postfix_entries: keys_view(self.postfix_entries@),
            arb_fallbacks: keys_view(self.arb_fallbacks@),
        }
    }
}

/// Every key lists its ids in increasing order, has a known family, and
/// names known families only.
pub open spec fn key_wf(k: ClassKey, names: Seq<Seq<char>>) -> bool {
    &&& increasing(k.conflict_ids@)
    &&& registered(names, k.family@)
    &&& forall|j: int| 0 <= j < k.conflict_ids@.len() ==> (#[trigger] k.conflict_ids@[j] as int) < names.len()
}

pub open spec fn keys_wf(v: Seq<(String, ClassKey)>, names: Seq<Seq<char>>) -> bool {
    forall|i: int| 0 <= i < v.len() ==> key_wf((#[trigger] v[i]).1, names)
}

/// Keys stay well formed as the family list grows.
pub proof fn lemma_keys_wf_grow(v: Seq<(String, ClassKey)>, names: Seq<Seq<char>>, fs: Seq<Seq<char>>)
    requires
        keys_wf(v, names),
    ensures
        keys_wf(v, register_all(names, fs)),
{
    lemma_register_all(names, fs);
    let n2 = register_all(names, fs);
    assert forall|i: int| 0 <= i < v.len() implies key_wf((#[trigger] v[i]).1, n2) by {
        assert(key_wf(v[i].1, names));
        assert(registered(n2, v[i].1.family@));
    }
}

impl ConflictTable {
    pub open spec fn wf(&self) -> bool {
        &&& keys_wf(self.entries@, strs(self.family_names@))
        &&& keys_wf(self.postfix_entries@, strs(self.family_names@))
        &&& keys_wf(self.arb_fallbacks@, strs(self.family_names@))
    }

    /// Read-only family id lookup (0 for an unknown family).
    pub fn family_id_of(&self, name: &str) -> (r: u16)
        ensures
            r == id_in(self@.family_names, name@),
    {
        let ghost names = strs(self.family_names@);
        let mut i: usize = 0;
        while i < self.family_names.len()
            invariant
                names == strs(self.family_names@),
                0 <= i <= self.family_names@.len(),
                name_index(names, name@, 0) == name_index(names, name@, i as int),
            decreases self.family_names@.len() - i,
        {
            if str_eq(self.family_names[i].as_str(), name) {
                assert(names[i as int] == name@);
                proof { lemma_u16_cast(i); }
                return i as u16;
            }
            i = i + 1;
        }
        0
    }

    /// Does the family exist in the compiled table (registered by a resolved
    /// class or a plugin static)?
    pub fn family_exists(&self, family: &str) -> (r: bool)
        ensures
            r == registered(self@.family_names, family@),
    {
        let ghost names = strs(self.family_names@);
        let mut i: usize = 0;
        while i < self.family_names.len()
            invariant
                names == strs(self.family_names@),
                0 <= i <= self.family_names@.len(),
                name_index(names, family@, 0) == name_index(names, family@, i as int),
            decreases self.family_names@.len() - i,
        {
            if str_eq(self.family_names[i].as_str(), family) {
                assert(names[i as int] == family@);
                return true;
            }
            i = i + 1;
        }
        false
    }
}


/// The ids of families, after registering them.
pub open spec fn ids_of(names: Seq<Seq<char>>, fs: Seq<Seq<char>>) -> Seq<u16> {
    fs.map_values(|f: Seq<char>| id_in(names, f))
}

proof fn lemma_ids_of_ok(names: Seq<Seq<char>>, fs: Seq<Seq<char>>)
    requires
        forall|k: int| 0 <= k < fs.len() ==> registered(names, #[trigger] fs[k]),
    ensures
        forall|j: int| 0 <= j < fs.len() ==> (#[trigger] ids_of(names, fs)[j] as int) < names.len(),
{
    assert forall|j: int| 0 <= j < fs.len() implies (#[trigger] ids_of(names, fs)[j] as int) < names.len() by {
        assert(registered(names, fs[j]));
        lemma_name_index(names, fs[j], 0);
        let i = name_index(names, fs[j], 0)->0;
        assert(0 <= i < names.len());
    }
}

/// The id of a family, registering it the first time it is seen.
pub(crate) fn register_name(names: &mut Vec<String>, name: &str) -> (r: u16)
    ensures
        strs(final(names)@) == register(strs(old(names)@), name@),
        r == id_in(strs(final(names)@), name@),
{
    let ghost start = strs(names@);
    let mut i: usize = 0;
    while i < names.len()
        invariant
            start == strs(names@),
            0 <= i <= names@.len(),
            name_index(start, name@, 0) == name_index(start, name@, i as int),
        decreases names@.len() - i,
    {
        if str_eq(names[i].as_str(), name) {
            assert(start[i as int] == name@);
            proof { lemma_u16_cast(i); }
            return i as u16;
        }
        i = i + 1;
    }
    proof { lemma_u16_cast(i); }
    let id = i as u16;
    names.push(owned(name));
    proof {
        lemma_name_index(strs(names@), name@, 0);
        assert(strs(names@) =~= start.push(name@));
        lemma_register(start, name@);
        assert(strs(names@)[i as int] == name@);
        lemma_name_index(start, name@, 0);
        if name_index(strs(names@), name@, 0) != Some(i as int) {
            let k = name_index(strs(names@), name@, 0)->0;
            assert(start[k] == name@);
        }
    }
    id
}

/// Registers one more family of a key under construction and adds its id.
fn note_family(names: &mut Vec<String>, conflicts: &mut Vec<u16>, name: &str, Ghost(n0): Ghost<Seq<Seq<char>>>, Ghost(done): Ghost<Seq<Seq<char>>>)
    requires
        strs(old(names)@) == register_all(n0, done),
        id_set(old(conflicts)@) == id_set(ids_of(register_all(n0, done), done)),
        no_repeats(old(conflicts)@),
    ensures
        strs(final(names)@) == register_all(n0, done.push(name@)),
        id_set(final(conflicts)@) == id_set(ids_of(register_all(n0, done.push(name@)), done.push(name@))),
        no_repeats(final(conflicts)@),
{
    let id = register_name(names, name);
    push_unique(conflicts, id);
    proof {
        let r0 = register_all(n0, done);
        let d2 = done.push(name@);
        assert(d2.drop_last() =~= done);
        let r1 = register_all(n0, d2);
        assert(r1 == register(r0, name@));
        lemma_register_all(n0, done);
        lemma_register(r0, name@);
        assert(ids_of(r1, done) =~= ids_of(r0, done)) by {
            assert forall|k: int| 0 <= k < done.len() implies ids_of(r1, done)[k] == ids_of(r0, done)[k] by {
                assert(registered(r0, done[k]));
            }
        }
        assert(ids_of(r1, d2) =~= ids_of(r1, done).push(id));
        lemma_id_set_push(ids_of(r1, done), id);
    }
}

/// The conflict ids of a resolved class, in increasing order; registers its
/// families.
pub(crate) fn key_ids(names: &mut Vec<String>, r: &Resolved) -> (ids: Vec<u16>)
    ensures
        (strs(final(names)@), KeyModel { family: r.family@, ids: id_set(ids@) }) == make_key_spec(strs(old(names)@), r@),
        increasing(ids@),
        registered(strs(final(names)@), r.family@),
        forall|j: int| 0 <= j < ids@.len() ==> (#[trigger] ids@[j] as int) < strs(final(names)@).len(),
{
    let ghost n0 = strs(names@);
    let ghost pfs = strs(r.prop_families@);
    let mut conflicts: Vec<u16> = Vec::new();
    proof {
        assert(register_all(n0, Seq::<Seq<char>>::empty()) == n0);
        assert(id_set(conflicts@) =~= id_set(ids_of(n0, Seq::<Seq<char>>::empty())));
    }
    note_family(names, &mut conflicts, r.family.as_str(), Ghost(n0), Ghost(Seq::empty()));
    let ghost mut done: Seq<Seq<char>> = seq![r.family@];
    assert(Seq::<Seq<char>>::empty().push(r.family@) =~= done);
    assert(done =~= seq![r.family@] + prop_part(pfs.subrange(0, 0)));
    let mut i: usize = 0;
    while i < r.prop_families.len()
        invariant
            pfs == strs(r.prop_families@),
            0 <= i <= r.prop_families@.len(),
            done == seq![r.family@] + prop_part(pfs.subrange(0, i as int)),
            strs(names@) == register_all(n0, done),
            id_set(conflicts@) == id_set(ids_of(register_all(n0, done), done)),
            no_repeats(conflicts@),
        decreases r.prop_families@.len() - i,
    {
        let pf = r.prop_families[i].as_str();
        note_family(names, &mut conflicts, pf, Ghost(n0), Ghost(done));
        proof { done = done.push(pf@); }
        let edges = conflict_edges(pf);
        let ghost es = edges.deep_view();
        let ghost mid = done;
        let mut k: usize = 0;
        assert(mid + es.subrange(0, 0) =~= mid);
        while k < edges.len()
            invariant
                es == edges.deep_view(),
                0 <= k <= edges@.len(),
                done == mid + es.subrange(0, k as int),
                strs(names@) == register_all(n0, done),
                id_set(conflicts@) == id_set(ids_of(register_all(n0, done), done)),
                no_repeats(conflicts@),
            decreases edges@.len() - k,
        {
            note_family(names, &mut conflicts, edges[k].as_str(), Ghost(n0), Ghost(done));
            proof {
                assert(es[k as int] == edges@[k as int]@);
                assert(mid + es.subrange(0, k + 1) =~= done.push(edges@[k as int]@));
                done = done.push(edges@[k as int]@);
            }
            k = k + 1;
        }
        proof {
            assert(es.subrange(0, k as int) =~= es);
            assert(pfs.subrange(0, i + 1).drop_last() =~= pfs.subrange(0, i as int));
            assert(pfs.subrange(0, i + 1).last() == pf@);
            assert(done =~= seq![r.family@] + prop_part(pfs.subrange(0, i + 1)));
        }
        i = i + 1;
    }
    assert(pfs.subrange(0, i as int) =~= pfs);
    let own_edges = conflict_edges(r.family.as_str());
    let ghost es = own_edges.deep_view();
    let ghost mid = done;
    let mut k: usize = 0;
    assert(mid + es.subrange(0, 0) =~= mid);
    while k < own_edges.len()
        invariant
            es == own_edges.deep_view(),
            0 <= k <= own_edges@.len(),
            done == mid + es.subrange(0, k as int),
            strs(names@) == register_all(n0, done),
            id_set(conflicts@) == id_set(ids_of(register_all(n0, done), done)),
            no_repeats(conflicts@),
        decreases own_edges@.len() - k,
    {
        note_family(names, &mut conflicts, own_edges[k].as_str(), Ghost(n0), Ghost(done));
        proof {
            assert(es[k as int] == own_edges@[k as int]@);
            assert(mid + es.subrange(0, k + 1) =~= done.push(own_edges@[k as int]@));
            done = done.push(own_edges@[k as int]@);
        }
        k = k + 1;
    }
    assert(es.subrange(0, k as int) =~= es);
    assert(done =~= key_families(r@));
    let ghost before_sort = conflicts@;
    sort_ids(&mut conflicts);
    proof {
        let n2 = register_all(n0, done);
        lemma_register_all(n0, done);
        lemma_ids_of_ok(n2, done);
        assert forall|j: int| 0 <= j < conflicts@.len() implies (#[trigger] conflicts@[j] as int) < n2.len() by {
            assert(id_set(conflicts@).contains(conflicts@[j]));
            assert(id_set(ids_of(n2, done)).contains(conflicts@[j]));
            let m = choose|m: int| 0 <= m < ids_of(n2, done).len() && ids_of(n2, done)[m] == conflicts@[j];
        }
        assert(registered(n2, done[0]));
    }
    conflicts
}

impl ConflictTable {
    /// The key of a resolved class; registers its families.
    fn make_key(&mut self, r: &Resolved) -> (key: ClassKey)
        ensures
            (strs(final(self).family_names@), key@) == make_key_spec(strs(old(self).family_names@), r@),
            key_wf(key, strs(final(self).family_names@)),
            final(self).entries == old(self).entries,
            final(self).postfix_entries == old(self).postfix_entries,
            final(self).arb_fallbacks == old(self).arb_fallbacks,
    {
        let ids = key_ids(&mut self.family_names, r);
        ClassKey { family: r.family.clone(), conflict_ids: ids }
    }
}

// ---------------------------------------------------------------------------
// Entries
// ---------------------------------------------------------------------------

/// The resolution a postfix variant is keyed by: `text-lg/7` also conflicts
/// with `leading-*`; `@container/[name]` is the named-container family.
pub open spec fn postfix_resolved(m: ParsedModel, r: ResolvedModel) -> ResolvedModel {
    if r.family == "font-size"@ {
        ResolvedModel { family: r.family, prop_families: r.prop_families.push("leading"@) }
    } else if r.family == "container-type"@ && spec_is_named_container_query(vstd::utf8::decode_utf8(m.base)) {
        ResolvedModel { family: "container-named"@, prop_families: r.prop_families }
    } else {
        r
    }
}

pub open spec fn postfix_key_spec(names: Seq<Seq<char>>, m: ParsedModel, r: ResolvedModel) -> (Seq<Seq<char>>, Option<KeyModel>) {
    if m.postfix is None {
        (names, None)
    } else {
        let (n2, k) = make_key_spec(names, postfix_resolved(m, r));
        (n2, Some(k))
    }
}

/// First entry at or after `i` with this name.
pub open spec fn lookup_key(v: Seq<(Seq<char>, KeyModel)>, k: Seq<char>, i: int) -> Option<KeyModel>
    decreases v.len() - i,
{
    if i < 0 || i >= v.len() {
        None
    } else if v[i].0 == k {
        Some(v[i].1)
    } else {
        lookup_key(v, k, i + 1)
    }
}

/// The first entry for a name wins.
pub open spec fn insert_absent(v: Seq<(Seq<char>, KeyModel)>, k: Seq<char>, x: KeyModel) -> Seq<(Seq<char>, KeyModel)> {
    if lookup_key(v, k, 0) is Some { v } else { v.push((k, x)) }
}

/// The entries of one resolved class: its key under the base and, where
/// the postfix changes the family or the conflict set, the postfix key
/// under `base/`.
pub open spec fn entry_for_spec(t: TableModel, m: ParsedModel, base: Seq<char>, r: ResolvedModel) -> TableModel {
    let (n1, key) = make_key_spec(t.family_names, r);
    let (n2, pk) = postfix_key_spec(n1, m, r);
    TableModel {
        entries: insert_absent(t.entries, base, key),
        family_names: n2,
        postfix_entries: match pk {
            Some(p) => if p.family != key.family || p.ids != key.ids {
                insert_absent(t.postfix_entries, base + "/"@, p)
            } else {
                t.postfix_entries
            },
            None => t.postfix_entries,
        },
        arb_fallbacks: t.arb_fallbacks,
    }
}

/// First `[` or `(` at or after `i`.
pub open spec fn first_open(b: Seq<u8>, i: int) -> Option<int>
    decreases b.len() - i,
{
    if i < 0 || i >= b.len() {
        None
    } else if b[i] == '[' as u8 || b[i] == '(' as u8 {
        Some(i)
    } else {
        first_open(b, i + 1)
    }
}

/// Fallback prefix of an arbitrary class: `p-[10px]` -> `p-`.
pub open spec fn arb_prefix_spec(base: Seq<char>) -> Option<Seq<char>> {
    let b = enc(base);
    match first_open(b, 0) {
        Some(i) => if i == 0 { None } else { Some(crate::css::text(b, 0, i)) },
        None => None,
    }
}

pub open spec fn arbitrary_like(base: Seq<char>) -> bool {
    first_open(enc(base), 0) is Some
}

/// The modifiers of a parsed class, as text.
pub open spec fn modifier_texts(m: ParsedModel) -> Seq<Seq<char>> {
    m.modifiers.map_values(|x: Seq<u8>| vstd::utf8::decode_utf8(x))
}

/// The base of a parsed class without its postfix, as text.
pub open spec fn base_text(m: ParsedModel) -> Seq<char> {
    vstd::utf8::decode_utf8(crate::candidate::base_without_postfix_bytes(m))
}

pub open spec fn opt_text(p: Option<&str>) -> Option<Seq<char>> {
    match p {
        Some(s) => Some(s@),
        None => None,
    }
}

/// One class added to the table: resolved by its base (or, with a postfix
/// that fails, by the whole base name), plus the arbitrary-value fallback of
/// its prefix.
pub open spec fn add_class_spec(t: TableModel, ds: CatalogModel, class: Seq<char>, prefix: Option<Seq<char>>) -> TableModel {
    let m = parse_class_model(class, prefix);
    if m.is_external {
        t
    } else {
        let base = base_text(m);
        let t1 = match resolve_spec(ds, base) {
            Some(r) => entry_for_spec(t, m, base, r),
            None => if m.postfix is Some {
                match resolve_spec(ds, vstd::utf8::decode_utf8(m.base)) {
                    Some(r) => entry_for_spec(t, m, base, r),
                    None => t,
                }
            } else {
                t
            },
        };
        if arbitrary_like(base) {
            match arb_prefix_spec(base) {
                Some(p) => match resolve_spec(ds, base) {
                    Some(r) => {
                        let (n, key) = make_key_spec(t1.family_names, r);
                        TableModel { family_names: n, arb_fallbacks: insert_absent(t1.arb_fallbacks, p, key), ..t1 }
                    },
                    None => t1,
                },
                None => t1,
            }
        } else {
            t1
        }
    }
}

/// The classes added in order.
pub open spec fn add_classes(t: TableModel, ds: CatalogModel, classes: Seq<Seq<char>>, prefix: Option<Seq<char>>) -> TableModel
    decreases classes.len(),
{
    if classes.len() == 0 {
        t
    } else {
        add_class_spec(add_classes(t, ds, classes.drop_last(), prefix), ds, classes.last(), prefix)
    }
}

pub open spec fn empty_table() -> TableModel {
    TableModel { entries: Seq::empty(), family_names: Seq::empty(), postfix_entries: Seq::empty(), arb_fallbacks: Seq::empty() }
}

fn find_key(v: &Vec<(String, ClassKey)>, k: &str) -> (r: Option<usize>)
    ensures
        r matches Some(i) ==> i < v@.len() && lookup_key(keys_view(v@), k@, 0) == Some(v@[i as int].1@),
        r is None ==> lookup_key(keys_view(v@), k@, 0) is None,
{
    let ghost kv = keys_view(v@);
    let mut i: usize = 0;
    while i < v.len()
        invariant
            kv == keys_view(v@),
            0 <= i <= v@.len(),
            lookup_key(kv, k@, 0) == lookup_key(kv, k@, i as int),
        decreases v@.len() - i,
    {
        if str_eq(v[i].0.as_str(), k) {
            assert(kv[i as int].0 == k@);
            return Some(i);
        }
        i = i + 1;
    }
    None
}

fn insert_key(v: &mut Vec<(String, ClassKey)>, k: &str, key: ClassKey)
    ensures
        keys_view(final(v)@) == insert_absent(keys_view(old(v)@), k@, key@),
        forall|names: Seq<Seq<char>>| keys_wf(old(v)@, names) && key_wf(key, names) ==> keys_wf(final(v)@, names),
{
    match find_key(v, k) {
        Some(_) => {},
        None => {
            let ghost before = v@;
            v.push((owned(k), key));
            assert(keys_view(v@) =~= keys_view(before).push((k@, key@)));
            assert forall|names: Seq<Seq<char>>| keys_wf(before, names) && key_wf(key, names) implies keys_wf(v@, names) by {
                assert forall|i: int| 0 <= i < v@.len() implies key_wf((#[trigger] v@[i]).1, names) by {
                    if i < before.len() {
                        assert(v@[i] == before[i]);
                    }
                }
            }
        },
    }
}

proof fn lemma_first_open(b: Seq<u8>, i: int)
    requires
        0 <= i <= b.len(),
    ensures
        first_open(b, i) matches Some(k) ==> i <= k < b.len() && (b[k] == '[' as u8 || b[k] == '(' as u8),
    decreases b.len() - i,
{
    if i < b.len() && !(b[i] == '[' as u8 || b[i] == '(' as u8) {
        lemma_first_open(b, i + 1);
    }
}

fn first_open_index(b: &[u8]) -> (r: Option<usize>)
    ensures
        r matches Some(i) ==> first_open(b@, 0) == Some(i as int) && i < b@.len(),
        r is None ==> first_open(b@, 0) is None,
{
    let mut i: usize = 0;
    while i < b.len()
        invariant
            0 <= i <= b@.len(),
            first_open(b@, 0) == first_open(b@, i as int),
        decreases b@.len() - i,
    {
        if b[i] == 91u8 || b[i] == 40u8 {
            return Some(i);
        }
        i = i + 1;
    }
    None
}

fn is_arbitrary_like(base: &str) -> (r: bool)
    ensures
        r == arbitrary_like(base@),
{
    first_open_index(base.as_bytes()).is_some()
}

/// Fallback prefix of an arbitrary class: `p-[10px]` -> `p-`.
fn arb_prefix(base: &str) -> (r: Option<String>)
    ensures
        r is Some <==> arb_prefix_spec(base@) is Some,
        r matches Some(p) ==> arb_prefix_spec(base@) == Some(p@),
{
    let b = base.as_bytes();
    match first_open_index(b) {
        Some(i) => {
            if i == 0 {
                None
            } else {
                proof {
                    lemma_first_open(b@, 0);
                    assert(b@[i as int] < 0x80);
                }
                Some(owned(crate::text::substr(base, 0, i)))
            }
        },
        None => None,
    }
}

impl ConflictTable {
    /// Postfix variant of a class's key (see `postfix_resolved`).
    fn postfix_key_for(&mut self, parsed: &ParsedClass, r: &Resolved) -> (k: Option<ClassKey>)
        ensures
            (strs(final(self).family_names@), match k { Some(x) => Some(x@), None => None })
                == postfix_key_spec(strs(old(self).family_names@), parsed@, r@),
            k matches Some(x) ==> key_wf(x, strs(final(self).family_names@)),
            final(self).entries == old(self).entries,
            final(self).postfix_entries == old(self).postfix_entries,
            final(self).arb_fallbacks == old(self).arb_fallbacks,
    {
        if parsed.maybe_postfix_position.is_none() {
            return None;
        }
        let mut pr = r.duplicate();
        if str_eq(r.family.as_str(), "font-size") {
            let ghost before = strs(pr.prop_families@);
            pr.prop_families.push(owned("leading"));
            assert(strs(pr.prop_families@) =~= before.push("leading"@));
        } else if str_eq(r.family.as_str(), "container-type") {
            if is_named_container_query(parsed.base_class_name.as_str()) {
                pr.family = owned("container-named");
            }
        }
        assert(pr@ == postfix_resolved(parsed@, r@));
        Some(self.make_key(&pr))
    }

    fn entry_for(&mut self, parsed: &ParsedClass, base: &str, r: &Resolved)
        requires
            old(self).wf(),
        ensures
            final(self).wf(),
            final(self)@ == entry_for_spec(old(self)@, parsed@, base@, r@),
    {
        let ghost t0 = self@;
        let key = self.make_key(r);
        let ghost n1 = strs(self.family_names@);
        proof {
            lemma_keys_wf_grow(self.entries@, t0.family_names, key_families(r@));
            lemma_keys_wf_grow(self.postfix_entries@, t0.family_names, key_families(r@));
            lemma_keys_wf_grow(self.arb_fallbacks@, t0.family_names, key_families(r@));
        }
        let postfix_key = self.postfix_key_for(parsed, r);
        let ghost n2 = strs(self.family_names@);
        proof {
            if parsed@.postfix is Some {
                let fs = key_families(postfix_resolved(parsed@, r@));
                lemma_keys_wf_grow(self.entries@, n1, fs);
                lemma_keys_wf_grow(self.postfix_entries@, n1, fs);
                lemma_keys_wf_grow(self.arb_fallbacks@, n1, fs);
                lemma_register_all(n1, fs);
                assert(registered(n2, key.family@));
                assert(key_wf(key, n2));
            } else {
                assert(key_wf(key, n2));
            }
        }
        let kcopy = key.duplicate();
        assert(key_wf(kcopy, n2));
        insert_key(&mut self.entries, base, kcopy);
        assert(keys_wf(self.entries@, n2));
        assert(keys_wf(self.postfix_entries@, n2));
        assert(keys_wf(self.arb_fallbacks@, n2));
        match postfix_key {
            Some(pk) => {
                assert(key_wf(pk, n2));
                let same_ids = vec_eq(&pk.conflict_ids, &key.conflict_ids);
                proof {
                    if !same_ids {
                        if id_set(pk.conflict_ids@) == id_set(key.conflict_ids@) {
                            lemma_increasing_unique(pk.conflict_ids@, key.conflict_ids@);
                        }
                    }
                }
                if !str_eq(pk.family.as_str(), key.family.as_str()) || !same_ids {
                    let slash = concat(base, "/");
                    insert_key(&mut self.postfix_entries, slash.as_str(), pk);
                }
            },
            None => {},
        }
    }

    /// Adds one class: its base entry, its postfix entry and its
    /// arbitrary-value fallback.
    pub(crate) fn add_class(&mut self, ds: &DesignSystem, class: &str, prefix: Option<&str>)
        requires
            old(self).wf(),
            ds.wf(),
        ensures
            final(self).wf(),
            final(self)@ == add_class_spec(old(self)@, ds@, class@, opt_text(prefix)),
    {
        let parsed = parse_class_name(class, prefix);
        proof {
            assert(opt_text(prefix) == match prefix { Some(p) => Some(p@), None => None::<Seq<char>> });
        }
        if parsed.is_external {
            return;
        }
        proof {
            crate::candidate::lemma_postfix_cut(class@, opt_text(prefix));
        }
        let base = owned(parsed.base_without_postfix());
        assert(base@ == base_text(parsed@));
        match ds.resolve(base.as_str()) {
            Some(r) => {
                self.entry_for(&parsed, base.as_str(), &r);
            },
            None => {
                if parsed.maybe_postfix_position.is_some() {
                    match ds.resolve(parsed.base_class_name.as_str()) {
                        Some(r) => {
                            self.entry_for(&parsed, base.as_str(), &r);
                        },
                        None => {},
                    }
                }
            },
        }
        if is_arbitrary_like(base.as_str()) {
            match arb_prefix(base.as_str()) {
                Some(p) => {
                    match ds.resolve(base.as_str()) {
                        Some(r) => {
                            let ghost t1 = self@;
                            let key = self.make_key(&r);
                            proof {
                                lemma_keys_wf_grow(self.entries@, t1.family_names, key_families(r@));
                                lemma_keys_wf_grow(self.postfix_entries@, t1.family_names, key_families(r@));
                                lemma_keys_wf_grow(self.arb_fallbacks@, t1.family_names, key_families(r@));
                            }
                            insert_key(&mut self.arb_fallbacks, p.as_str(), key);
                        },
                        None => {},
                    }
                },
                None => {},
            }
        }
    }

    /// The table of the classes a project uses.
    pub fn from_classes(ds: &DesignSystem, classes: &[String], prefix: Option<&str>) -> (r: ConflictTable)
        requires
            ds.wf(),
        ensures
            r.wf(),
            r@ == add_classes(empty_table(), ds@, classes@.map_values(|c: String| c@), opt_text(prefix)),
    {
        let mut table = ConflictTable { entries: Vec::new(), family_names: Vec::new(), postfix_entries: Vec::new(), arb_fallbacks: Vec::new() };
        let ghost cs = classes@.map_values(|c: String| c@);
        assert(table@ =~= empty_table()) by {
            assert(keys_view(table.entries@) =~= Seq::<(Seq<char>, KeyModel)>::empty());
            assert(strs(table.family_names@) =~= Seq::<Seq<char>>::empty());
            assert(keys_view(table.postfix_entries@) =~= Seq::<(Seq<char>, KeyModel)>::empty());
            assert(keys_view(table.arb_fallbacks@) =~= Seq::<(Seq<char>, KeyModel)>::empty());
        }
        assert(cs.subrange(0, 0) =~= Seq::<Seq<char>>::empty());
        let mut i: usize = 0;
        while i < classes.len()
            invariant
                cs == classes@.map_values(|c: String| c@),
                0 <= i <= classes@.len(),
                table.wf(),
                ds.wf(),
                table@ == add_classes(empty_table(), ds@, cs.subrange(0, i as int), opt_text(prefix)),
            decreases classes@.len() - i,
        {
            proof {
                assert(cs.subrange(0, i + 1).drop_last() =~= cs.subrange(0, i as int));
                assert(cs.subrange(0, i + 1).last() == classes@[i as int]@);
            }
            table.add_class(ds, classes[i].as_str(), prefix);
            i = i + 1;
        }
        assert(cs.subrange(0, i as int) =~= cs);
        table
    }
}

fn vec_eq(a: &Vec<u16>, b: &Vec<u16>) -> (r: bool)
    ensures
        r == (a@ == b@),
{
    if a.len() != b.len() {
        return false;
    }
    let mut i: usize = 0;
    while i < a.len()
        invariant
            a@.len() == b@.len(),
            0 <= i <= a@.len(),
            forall|j: int| 0 <= j < i ==> a@[j] == b@[j],
        decreases a@.len() - i,
    {
        if a[i] != b[i] {
            return false;
        }
        i = i + 1;
    }
    assert(a@ =~= b@);
    true
}


// ---------------------------------------------------------------------------
// Lookups and plugin edges
// ---------------------------------------------------------------------------

/// The key of a full class: the postfix variant first, then the base, then
/// the arbitrary-value fallback of its prefix.
pub open spec fn key_of_spec(t: TableModel, class: Seq<char>, prefix: Option<Seq<char>>) -> Option<KeyModel> {
    let m = parse_class_model(class, prefix);
    if m.is_external {
        None
    } else {
        let base = base_text(m);
        let via_postfix = if m.postfix is Some { lookup_key(t.postfix_entries, base + "/"@, 0) } else { None };
        let direct = lookup_key(t.entries, base, 0);
        if via_postfix is Some {
            via_postfix
        } else if direct is Some {
            direct
        } else if arbitrary_like(base) {
            match arb_prefix_spec(base) {
                Some(p) => lookup_key(t.arb_fallbacks, p, 0),
                None => None,
            }
        } else {
            None
        }
    }
}

/// Per-family conflict sets: each family starts with itself, then takes in
/// the ids of every key of that family.
pub open spec fn add_key_ids(out: Seq<Set<u16>>, names: Seq<Seq<char>>, keys: Seq<(Seq<char>, KeyModel)>) -> Seq<Set<u16>>
    decreases keys.len(),
{
    if keys.len() == 0 {
        out
    } else {
        let o = add_key_ids(out, names, keys.drop_last());
        let f = id_in(names, keys.last().1.family) as int;
        if f < o.len() { o.update(f, o[f].union(keys.last().1.ids)) } else { o }
    }
}

pub open spec fn family_conflict_sets(t: TableModel) -> Seq<Set<u16>> {
    let init = Seq::new(t.family_names.len(), |f: int| set![(f % 65536) as u16]);
    add_key_ids(add_key_ids(init, t.family_names, t.entries), t.family_names, t.postfix_entries)
}

/// A directed plugin edge: every key of the source family also conflicts
/// with the target.
pub open spec fn patch_keys(v: Seq<(Seq<char>, KeyModel)>, source: Seq<char>, tid: u16) -> Seq<(Seq<char>, KeyModel)> {
    v.map_values(|e: (Seq<char>, KeyModel)| if e.1.family == source {
        (e.0, KeyModel { family: e.1.family, ids: e.1.ids.insert(tid) })
    } else {
        e
    })
}

pub open spec fn patch_spec(t: TableModel, source: Seq<char>, target: Seq<char>) -> TableModel {
    let tid = id_in(t.family_names, target);
    TableModel {
        entries: patch_keys(t.entries, source, tid),
        family_names: t.family_names,
        postfix_entries: patch_keys(t.postfix_entries, source, tid),
        arb_fallbacks: patch_keys(t.arb_fallbacks, source, tid),
    }
}

/// Every key has a known family (its id indexes the family list).
pub open spec fn families_known(t: TableModel) -> bool {
    &&& forall|i: int| 0 <= i < t.entries.len() ==> (id_in(t.family_names, (#[trigger] t.entries[i]).1.family) as int) < t.family_names.len()
    &&& forall|i: int| 0 <= i < t.postfix_entries.len() ==> (id_in(t.family_names, (#[trigger] t.postfix_entries[i]).1.family) as int) < t.family_names.len()
}

proof fn lemma_add_key_ids_len(out: Seq<Set<u16>>, names: Seq<Seq<char>>, keys: Seq<(Seq<char>, KeyModel)>)
    ensures
        add_key_ids(out, names, keys).len() == out.len(),
    decreases keys.len(),
{
    if keys.len() > 0 {
        lemma_add_key_ids_len(out, names, keys.drop_last());
    }
}

pub proof fn lemma_id_bound(names: Seq<Seq<char>>, n: Seq<char>)
    requires
        registered(names, n),
    ensures
        (id_in(names, n) as int) < names.len(),
{
    lemma_name_index(names, n, 0);
}

impl ConflictTable {
    /// The key of a full class, for the merge loop.
    pub fn key_of(&self, class: &str, prefix: Option<&str>) -> (r: Option<ClassKey>)
        ensures
            r is Some <==> key_of_spec(self@, class@, opt_text(prefix)) is Some,
            r matches Some(k) ==> key_of_spec(self@, class@, opt_text(prefix)) == Some(k@),
            r matches Some(k) ==> self.wf() ==> key_wf(k, self@.family_names),
    {
        let parsed = parse_class_name(class, prefix);
        proof {
            assert(opt_text(prefix) == match prefix { Some(p) => Some(p@), None => None::<Seq<char>> });
        }
        if parsed.is_external {
            return None;
        }
        proof {
            crate::candidate::lemma_postfix_cut(class@, opt_text(prefix));
        }
        let base = parsed.base_without_postfix();
        assert(base@ == base_text(parsed@));
        if parsed.maybe_postfix_position.is_some() {
            let slash = concat(base, "/");
            match find_key(&self.postfix_entries, slash.as_str()) {
                Some(i) => {
                    return Some(self.postfix_entries[i].1.duplicate());
                },
                None => {},
            }
            match find_key(&self.entries, base) {
                Some(i) => {
                    return Some(self.entries[i].1.duplicate());
                },
                None => {},
            }
        }
        match find_key(&self.entries, base) {
            Some(i) => {
                return Some(self.entries[i].1.duplicate());
            },
            None => {},
        }
        if is_arbitrary_like(base) {
            match arb_prefix(base) {
                Some(p) => {
                    match find_key(&self.arb_fallbacks, p.as_str()) {
                        Some(i) => {
                            return Some(self.arb_fallbacks[i].1.duplicate());
                        },
                        None => {},
                    }
                },
                None => {},
            }
        }
        None
    }

    /// Per-family conflict id lists (own family first, then the ids of its
    /// keys), for JS generation.
    pub fn family_conflicts(&self) -> (r: Vec<Vec<u16>>)
        requires
            self.wf(),
        ensures
            r@.len() == self@.family_names.len(),
            forall|f: int| 0 <= f < r@.len() ==> (#[trigger] r@[f])@.len() >= 1 && r@[f]@[0] == (f % 65536) as u16
                && no_repeats(r@[f]@) && id_set(r@[f]@) == family_conflict_sets(self@)[f],
    {
        proof { self.lemma_wf_families_known(); }
        let n = self.family_names.len();
        let ghost names = self@.family_names;
        let mut out: Vec<Vec<u16>> = Vec::new();
        let mut f: usize = 0;
        while f < n
            invariant
                n == self.family_names@.len(),
                0 <= f <= n,
                out@.len() == f,
                forall|g: int| 0 <= g < f ==> (#[trigger] out@[g])@ == seq![(g % 65536) as u16],
            decreases n - f,
        {
            proof { lemma_u16_cast(f); }
            out.push(vec![f as u16]);
            f = f + 1;
        }
        let ghost init = Seq::new(names.len(), |g: int| set![(g % 65536) as u16]);
        assert forall|g: int| 0 <= g < out@.len() implies id_set((#[trigger] out@[g])@) == init[g] by {
            assert(id_set(out@[g]@) =~= init[g]) by {
                assert(out@[g]@[0] == (g % 65536) as u16);
            }
        }
        proof {
            assert forall|i: int| 0 <= i < self.entries@.len() implies (id_in(names, (#[trigger] self.entries@[i]).1.family@) as int) < names.len() by {
                assert(self@.entries[i].1.family == self.entries@[i].1.family@);
            }
            assert forall|i: int| 0 <= i < self.postfix_entries@.len() implies (id_in(names, (#[trigger] self.postfix_entries@[i]).1.family@) as int) < names.len() by {
                assert(self@.postfix_entries[i].1.family == self.postfix_entries@[i].1.family@);
            }
        }
        self.add_all_ids(&mut out, &self.entries, Ghost(init));
        let ghost mid = add_key_ids(init, names, self@.entries);
        proof { lemma_add_key_ids_len(init, names, self@.entries); }
        self.add_all_ids(&mut out, &self.postfix_entries, Ghost(mid));
        out
    }

    proof fn lemma_wf_families_known(&self)
        requires
            self.wf(),
        ensures
            families_known(self@),
    {
        let names = self@.family_names;
        assert forall|i: int| 0 <= i < self@.entries.len() implies (id_in(names, (#[trigger] self@.entries[i]).1.family) as int) < names.len() by {
            assert(key_wf(self.entries@[i].1, strs(self.family_names@)));
            assert(self@.entries[i].1.family == self.entries@[i].1.family@);
            lemma_id_bound(names, self@.entries[i].1.family);
        }
        assert forall|i: int| 0 <= i < self@.postfix_entries.len() implies (id_in(names, (#[trigger] self@.postfix_entries[i]).1.family) as int) < names.len() by {
            assert(key_wf(self.postfix_entries@[i].1, strs(self.family_names@)));
            assert(self@.postfix_entries[i].1.family == self.postfix_entries@[i].1.family@);
            lemma_id_bound(names, self@.postfix_entries[i].1.family);
        }
    }

    /// Adds the ids of each key to the list of its family.
    fn add_all_ids(&self, out: &mut Vec<Vec<u16>>, keys: &Vec<(String, ClassKey)>, Ghost(start): Ghost<Seq<Set<u16>>>)
        requires
            old(out)@.len() == self@.family_names.len(),
            start.len() == self@.family_names.len(),
            forall|i: int| 0 <= i < keys@.len() ==> (id_in(self@.family_names, (#[trigger] keys@[i]).1.family@) as int) < self@.family_names.len(),
            forall|f: int| 0 <= f < old(out)@.len() ==> (#[trigger] old(out)@[f])@.len() >= 1 && old(out)@[f]@[0] == (f % 65536) as u16
                && no_repeats(old(out)@[f]@) && id_set(old(out)@[f]@) == start[f],
        ensures
            final(out)@.len() == self@.family_names.len(),
            forall|f: int| 0 <= f < final(out)@.len() ==> (#[trigger] final(out)@[f])@.len() >= 1 && final(out)@[f]@[0] == (f % 65536) as u16
                && no_repeats(final(out)@[f]@) && id_set(final(out)@[f]@) == add_key_ids(start, self@.family_names, keys_view(keys@))[f],
    {
        let ghost names = self@.family_names;
        let ghost kv = keys_view(keys@);
        let mut i: usize = 0;
        assert(kv.subrange(0, 0).len() == 0);
        while i < keys.len()
            invariant
                kv == keys_view(keys@),
                names == self@.family_names,
                out@.len() == names.len(),
                start.len() == names.len(),
                0 <= i <= keys@.len(),
                forall|k: int| 0 <= k < keys@.len() ==> (id_in(names, (#[trigger] keys@[k]).1.family@) as int) < names.len(),
                forall|f: int| 0 <= f < out@.len() ==> (#[trigger] out@[f])@.len() >= 1 && out@[f]@[0] == (f % 65536) as u16
                    && no_repeats(out@[f]@) && id_set(out@[f]@) == add_key_ids(start, names, kv.subrange(0, i as int))[f],
            decreases keys@.len() - i,
        {
            let key = &keys[i].1;
            let f = self.family_id_of(key.family.as_str()) as usize;
            let ghost prev = add_key_ids(start, names, kv.subrange(0, i as int));
            proof {
                lemma_add_key_ids_len(start, names, kv.subrange(0, i as int));
                assert(kv[i as int].1.family == key.family@);
                assert(kv.subrange(0, i + 1).drop_last() =~= kv.subrange(0, i as int));
                assert(kv.subrange(0, i + 1).last() == (keys@[i as int].0@, key@));
                assert(add_key_ids(start, names, kv.subrange(0, i + 1)) == prev.update(f as int, prev[f as int].union(key@.ids)));
            }
            let mut target = out[f].clone();
            assert(target@ == out@[f as int]@);
            let mut k: usize = 0;
            while k < key.conflict_ids.len()
                invariant
                    0 <= k <= key.conflict_ids@.len(),
                    target@.len() >= 1,
                    target@[0] == out@[f as int]@[0],
                    no_repeats(target@),
                    id_set(target@) == id_set(out@[f as int]@).union(id_set(key.conflict_ids@.subrange(0, k as int))),
                decreases key.conflict_ids@.len() - k,
            {
                let id = key.conflict_ids[k];
                let ghost before = target@;
                push_unique(&mut target, id);
                proof {
                    assert(key.conflict_ids@.subrange(0, k + 1) =~= key.conflict_ids@.subrange(0, k as int).push(id));
                    lemma_id_set_push(key.conflict_ids@.subrange(0, k as int), id);
                    assert(id_set(target@) =~= id_set(out@[f as int]@).union(id_set(key.conflict_ids@.subrange(0, k + 1))));
                }
                k = k + 1;
            }
            assert(key.conflict_ids@.subrange(0, k as int) =~= key.conflict_ids@);
            let ghost old_out = out@;
            out.set(f, target);
            proof {
                assert forall|g: int| 0 <= g < out@.len() implies (#[trigger] out@[g])@.len() >= 1 && out@[g]@[0] == (g % 65536) as u16
                    && no_repeats(out@[g]@) && id_set(out@[g]@) == add_key_ids(start, names, kv.subrange(0, i + 1))[g] by {
                    if g != f as int {
                        assert(out@[g] == old_out[g]);
                        assert(add_key_ids(start, names, kv.subrange(0, i + 1))[g] == prev[g]);
                    } else {
                        assert(out@[g]@ == target@);
                        assert(id_set(out@[g]@) =~= prev[g].union(key@.ids));
                        assert(add_key_ids(start, names, kv.subrange(0, i + 1))[g] == prev[g].union(key@.ids));
                    }
                }
            }
            i = i + 1;
        }
        assert(kv.subrange(0, i as int) =~= kv);
    }

    /// Appends a directed plugin edge to every key of the source family.
    fn patch_family_edges(&mut self, source: &str, target: &str)
        requires
            old(self).wf(),
            registered(old(self)@.family_names, target@),
        ensures
            final(self).wf(),
            final(self)@ == patch_spec(old(self)@, source@, target@),
    {
        let tid = self.family_id_of(target);
        proof { lemma_id_bound(self@.family_names, target@); }
        let ghost names = strs(self.family_names@);
        patch_keys_exec(&mut self.entries, source, tid, Ghost(names));
        patch_keys_exec(&mut self.postfix_entries, source, tid, Ghost(names));
        patch_keys_exec(&mut self.arb_fallbacks, source, tid, Ghost(names));
    }
}

fn contains_id(v: &Vec<u16>, x: u16) -> (r: bool)
    ensures
        r == v@.contains(x),
{
    let mut i: usize = 0;
    while i < v.len()
        invariant
            0 <= i <= v@.len(),
            forall|j: int| 0 <= j < i ==> v@[j] != x,
        decreases v@.len() - i,
    {
        if v[i] == x {
            return true;
        }
        i = i + 1;
    }
    false
}

fn patch_keys_exec(v: &mut Vec<(String, ClassKey)>, source: &str, tid: u16, Ghost(names): Ghost<Seq<Seq<char>>>)
    requires
        keys_wf(old(v)@, names),
        (tid as int) < names.len(),
    ensures
        keys_wf(final(v)@, names),
        keys_view(final(v)@) == patch_keys(keys_view(old(v)@), source@, tid),
{
    let ghost start = keys_view(v@);
    let mut i: usize = 0;
    while i < v.len()
        invariant
            (tid as int) < names.len(),
            keys_wf(v@, names),
            0 <= i <= v@.len(),
            v@.len() == start.len(),
            forall|j: int| 0 <= j < i ==> (#[trigger] keys_view(v@)[j]) == patch_keys(start, source@, tid)[j],
            forall|j: int| i <= j < v@.len() ==> (#[trigger] keys_view(v@)[j]) == start[j],
        decreases v@.len() - i,
    {
        if str_eq(v[i].1.family.as_str(), source) {
            let mut ids = v[i].1.conflict_ids.clone();
            assert(ids@ == v@[i as int].1.conflict_ids@);
            proof {
                assert(key_wf(v@[i as int].1, names));
            }
            if !contains_id(&ids, tid) {
                let ghost before = ids@;
                ids.push(tid);
                proof {
                    lemma_id_set_push(before, tid);
                    assert(no_repeats(ids@)) by {
                        assert forall|a: int, b: int| 0 <= a < b < ids@.len() implies ids@[a] != ids@[b] by {
                            if b < before.len() {
                                assert(before[a] < before[b]);
                            } else {
                                assert(!before.contains(tid));
                                assert(ids@[a] == before[a]);
                            }
                        }
                    }
                }
                let ghost pushed = ids@;
                sort_ids(&mut ids);
                let fam = v[i].1.family.clone();
                let name = v[i].0.clone();
                let ghost old_v = v@;
                let ghost new_ids = ids@;
                v.set(i, (name, ClassKey { family: fam, conflict_ids: ids }));
                proof {
                    assert(start[i as int] == keys_view(old_v)[i as int]);
                    assert(keys_view(old_v)[i as int].1.ids == id_set(before));
                    assert(id_set(new_ids) == id_set(before).insert(tid));
                    assert(start[i as int].1.family == source@);
                    assert(keys_view(v@)[i as int] == (start[i as int].0, KeyModel { family: source@, ids: id_set(before).insert(tid) }));
                    assert(keys_view(v@)[i as int] == patch_keys(start, source@, tid)[i as int]);
                    assert forall|j: int| 0 <= j < v@.len() implies key_wf((#[trigger] v@[j]).1, names) by {
                        if j != i as int {
                            assert(v@[j] == old_v[j]);
                        } else {
                            assert forall|m: int| 0 <= m < v@[j].1.conflict_ids@.len() implies (#[trigger] v@[j].1.conflict_ids@[m] as int) < names.len() by {
                                let x = v@[j].1.conflict_ids@[m];
                                assert(id_set(v@[j].1.conflict_ids@).contains(x));
                                assert(id_set(pushed).contains(x));
                                if x != tid {
                                    assert(id_set(before).contains(x));
                                    let q = choose|q: int| 0 <= q < before.len() && before[q] == x;
                                    assert(key_wf(old_v[i as int].1, names));
                                    assert(old_v[i as int].1.conflict_ids@[q] == x);
                                }
                            }
                        }
                    }
                    assert forall|j: int| 0 <= j < i + 1 implies (#[trigger] keys_view(v@)[j]) == patch_keys(start, source@, tid)[j] by {
                        if j != i as int {
                            assert(keys_view(v@)[j] == keys_view(old_v)[j]);
                        }
                    }
                    assert forall|j: int| i + 1 <= j < v@.len() implies (#[trigger] keys_view(v@)[j]) == start[j] by {
                        assert(keys_view(v@)[j] == keys_view(old_v)[j]);
                    }
                }
            } else {
                proof {
                    let x = v@[i as int].1;
                    assert(x.conflict_ids@.contains(tid));
                    assert(id_set(x.conflict_ids@).insert(tid) =~= id_set(x.conflict_ids@));
                    assert(keys_view(v@)[i as int] == patch_keys(start, source@, tid)[i as int]);
                }
            }
        } else {
            assert(keys_view(v@)[i as int] == patch_keys(start, source@, tid)[i as int]);
        }
        i = i + 1;
    }
    assert(keys_view(v@) =~= patch_keys(start, source@, tid));
}


/// Edges of a plugin config that could not be patched into the compiled
/// table: the source or some target has no compiled family. The caller
/// emits them as runtime overlay conflict tables.
pub type UnresolvedEdges = Vec<(String, Vec<String>)>;

/// The plugin's static items missing from the table, added as classes.
pub open spec fn add_statics(t: TableModel, ds: CatalogModel, items: Seq<GroupItemModel>, prefix: Option<Seq<char>>) -> TableModel
    decreases items.len(),
{
    if items.len() == 0 {
        t
    } else {
        let t1 = add_statics(t, ds, items.drop_last(), prefix);
        match items.last() {
            GroupItemModel::Static(c) => if lookup_key(t1.entries, c, 0) is None { add_class_spec(t1, ds, c, prefix) } else { t1 },
            GroupItemModel::Wildcard(_, _) => t1,
        }
    }
}

pub open spec fn add_group_statics(t: TableModel, ds: CatalogModel, groups: Seq<(Seq<char>, Seq<GroupItemModel>)>, prefix: Option<Seq<char>>) -> TableModel
    decreases groups.len(),
{
    if groups.len() == 0 {
        t
    } else {
        add_statics(add_group_statics(t, ds, groups.drop_last(), prefix), ds, groups.last().1, prefix)
    }
}

/// The edges from `group` to each known target.
pub open spec fn patch_targets(t: TableModel, group: Seq<char>, targets: Seq<Seq<char>>) -> TableModel
    decreases targets.len(),
{
    if targets.len() == 0 {
        t
    } else {
        let t1 = patch_targets(t, group, targets.drop_last());
        if registered(t1.family_names, targets.last()) { patch_spec(t1, group, targets.last()) } else { t1 }
    }
}

/// The directed edges applied in order, with those whose source or some
/// target is unknown listed as unresolved.
pub open spec fn apply_edges(t: TableModel, edges: Seq<(Seq<char>, Seq<Seq<char>>)>) -> (TableModel, Seq<(Seq<char>, Seq<Seq<char>>)>)
    decreases edges.len(),
{
    if edges.len() == 0 {
        (t, Seq::empty())
    } else {
        let (t1, un) = apply_edges(t, edges.drop_last());
        let (g, ts) = edges.last();
        if !registered(t1.family_names, g) {
            (t1, un.push((g, ts)))
        } else {
            let missing = exists|k: int| 0 <= k < ts.len() && !registered(t1.family_names, #[trigger] ts[k]);
            (patch_targets(t1, g, ts), if missing { un.push((g, ts)) } else { un })
        }
    }
}

/// A plugin config applied to a compiled table: static items first, then
/// the directed edges.
pub open spec fn apply_plugin_spec(t: TableModel, ds: CatalogModel, cfg: ConfigModel, prefix: Option<Seq<char>>) -> (TableModel, Seq<(Seq<char>, Seq<Seq<char>>)>) {
    apply_edges(add_group_statics(t, ds, cfg.class_groups, prefix), cfg.conflicting_class_groups)
}

// ---------------------------------------------------------------------------
// Every key conflicts with its own family
// ---------------------------------------------------------------------------

/// The key's family is known, the key conflicts with that family's id, and
/// every target of the family's directed edges is known.
pub open spec fn key_owns(names: Seq<Seq<char>>, k: KeyModel) -> bool {
    &&& registered(names, k.family)
    &&& k.ids.contains(id_in(names, k.family))
    &&& forall|e: int| 0 <= e < spec_conflict_edges(k.family).len() ==> registered(names, #[trigger] spec_conflict_edges(k.family)[e])
}

pub open spec fn list_owns(names: Seq<Seq<char>>, v: Seq<(Seq<char>, KeyModel)>) -> bool {
    forall|i: int| 0 <= i < v.len() ==> key_owns(names, (#[trigger] v[i]).1)
}

/// Every key of the table conflicts with its own family's id.
pub open spec fn table_owns(t: TableModel) -> bool {
    &&& list_owns(t.family_names, t.entries)
    &&& list_owns(t.family_names, t.postfix_entries)
    &&& list_owns(t.family_names, t.arb_fallbacks)
}

/// `names2` keeps the index of every family of `names`.
pub open spec fn keeps_ids(names: Seq<Seq<char>>, names2: Seq<Seq<char>>) -> bool {
    forall|q: Seq<char>| registered(names, q) ==> #[trigger] name_index(names2, q, 0) == name_index(names, q, 0)
}

proof fn lemma_list_owns_grow(names: Seq<Seq<char>>, names2: Seq<Seq<char>>, v: Seq<(Seq<char>, KeyModel)>)
    requires
        list_owns(names, v),
        keeps_ids(names, names2),
    ensures
        list_owns(names2, v),
{
    assert forall|i: int| 0 <= i < v.len() implies key_owns(names2, (#[trigger] v[i]).1) by {
        assert(key_owns(names, v[i].1));
        assert(name_index(names2, v[i].1.family, 0) == name_index(names, v[i].1.family, 0));
        let es = spec_conflict_edges(v[i].1.family);
        assert forall|e: int| 0 <= e < es.len() implies registered(names2, #[trigger] es[e]) by {
            assert(registered(names, es[e]));
            assert(name_index(names2, es[e], 0) == name_index(names, es[e], 0));
        }
    }
}

proof fn lemma_table_owns_grow(t: TableModel, names2: Seq<Seq<char>>)
    requires
        table_owns(t),
        keeps_ids(t.family_names, names2),
    ensures
        list_owns(names2, t.entries),
        list_owns(names2, t.postfix_entries),
        list_owns(names2, t.arb_fallbacks),
{
    lemma_list_owns_grow(t.family_names, names2, t.entries);
    lemma_list_owns_grow(t.family_names, names2, t.postfix_entries);
    lemma_list_owns_grow(t.family_names, names2, t.arb_fallbacks);
}

pub(crate) proof fn lemma_keeps_ids_trans(a: Seq<Seq<char>>, b: Seq<Seq<char>>, c: Seq<Seq<char>>)
    requires
        keeps_ids(a, b),
        keeps_ids(b, c),
    ensures
        keeps_ids(a, c),
{
    assert forall|q: Seq<char>| registered(a, q) implies #[trigger] name_index(c, q, 0) == name_index(a, q, 0) by {
        assert(name_index(b, q, 0) == name_index(a, q, 0));
        assert(registered(b, q));
    }
}

pub(crate) proof fn lemma_make_key_owns(names: Seq<Seq<char>>, r: ResolvedModel)
    ensures
        key_owns(make_key_spec(names, r).0, make_key_spec(names, r).1),
        keeps_ids(names, make_key_spec(names, r).0),
{
    let fs = key_families(r);
    let n2 = register_all(names, fs);
    lemma_register_all(names, fs);
    assert(fs[0] == r.family);
    assert(registered(n2, fs[0]));
    let ids = fs.map_values(|f: Seq<char>| id_in(n2, f));
    assert(ids[0] == id_in(n2, r.family));
    assert(ids.contains(id_in(n2, r.family)));
    let es = spec_conflict_edges(r.family);
    let off = 1 + prop_part(r.prop_families).len();
    assert forall|e: int| 0 <= e < es.len() implies registered(n2, #[trigger] es[e]) by {
        assert(fs[off + e] == es[e]);
    }
}

proof fn lemma_insert_absent_owns(names: Seq<Seq<char>>, v: Seq<(Seq<char>, KeyModel)>, k: Seq<char>, x: KeyModel)
    requires
        list_owns(names, v),
        key_owns(names, x),
    ensures
        list_owns(names, insert_absent(v, k, x)),
{
    let r = insert_absent(v, k, x);
    assert forall|i: int| 0 <= i < r.len() implies key_owns(names, (#[trigger] r[i]).1) by {
        if i < v.len() {
            assert(r[i] == v[i]);
        }
    }
}

proof fn lemma_entry_for_owns(t: TableModel, m: ParsedModel, base: Seq<char>, r: ResolvedModel)
    requires
        table_owns(t),
    ensures
        table_owns(entry_for_spec(t, m, base, r)),
        keeps_ids(t.family_names, entry_for_spec(t, m, base, r).family_names),
{
    let (n1, key) = make_key_spec(t.family_names, r);
    lemma_make_key_owns(t.family_names, r);
    let (n2, pk) = postfix_key_spec(n1, m, r);
    if m.postfix is Some {
        lemma_make_key_owns(n1, postfix_resolved(m, r));
    } else {
        assert(keeps_ids(n1, n1));
    }
    lemma_keeps_ids_trans(t.family_names, n1, n2);
    assert(key_owns(n2, key)) by {
        assert(name_index(n2, key.family, 0) == name_index(n1, key.family, 0));
    }
    lemma_table_owns_grow(t, n2);
    lemma_insert_absent_owns(n2, t.entries, base, key);
    match pk {
        Some(p) => {
            lemma_insert_absent_owns(n2, t.postfix_entries, base + "/"@, p);
        },
        None => {},
    }
}

proof fn lemma_add_class_owns(t: TableModel, ds: CatalogModel, class: Seq<char>, prefix: Option<Seq<char>>)
    requires
        table_owns(t),
    ensures
        table_owns(add_class_spec(t, ds, class, prefix)),
        keeps_ids(t.family_names, add_class_spec(t, ds, class, prefix).family_names),
{
    let m = parse_class_model(class, prefix);
    if m.is_external {
        assert(keeps_ids(t.family_names, t.family_names));
    } else {
        let base = base_text(m);
        let t1 = match resolve_spec(ds, base) {
            Some(r) => entry_for_spec(t, m, base, r),
            None => if m.postfix is Some {
                match resolve_spec(ds, vstd::utf8::decode_utf8(m.base)) {
                    Some(r) => entry_for_spec(t, m, base, r),
                    None => t,
                }
            } else {
                t
            },
        };
        match resolve_spec(ds, base) {
            Some(r) => lemma_entry_for_owns(t, m, base, r),
            None => if m.postfix is Some {
                match resolve_spec(ds, vstd::utf8::decode_utf8(m.base)) {
                    Some(r) => lemma_entry_for_owns(t, m, base, r),
                    None => assert(keeps_ids(t.family_names, t.family_names)),
                }
            } else {
                assert(keeps_ids(t.family_names, t.family_names));
            },
        }
        assert(table_owns(t1) && keeps_ids(t.family_names, t1.family_names));
        if arbitrary_like(base) {
            match arb_prefix_spec(base) {
                Some(p) => match resolve_spec(ds, base) {
                    Some(r) => {
                        let (n, key) = make_key_spec(t1.family_names, r);
                        lemma_make_key_owns(t1.family_names, r);
                        lemma_table_owns_grow(t1, n);
                        lemma_insert_absent_owns(n, t1.arb_fallbacks, p, key);
                        lemma_keeps_ids_trans(t.family_names, t1.family_names, n);
                    },
                    None => {},
                },
                None => {},
            }
        }
    }
}

/// In a table built from a project's classes, every key conflicts with its
/// own family's id, and every target of its family's directed edges is in
/// the family list.
pub proof fn law_built_table_keys_own_families(ds: CatalogModel, classes: Seq<Seq<char>>, prefix: Option<Seq<char>>)
    ensures
        table_owns(add_classes(empty_table(), ds, classes, prefix)),
    decreases classes.len(),
{
    if classes.len() > 0 {
        law_built_table_keys_own_families(ds, classes.drop_last(), prefix);
        lemma_add_class_owns(add_classes(empty_table(), ds, classes.drop_last(), prefix), ds, classes.last(), prefix);
    }
}

proof fn lemma_add_statics_owns(t: TableModel, ds: CatalogModel, items: Seq<GroupItemModel>, prefix: Option<Seq<char>>)
    requires
        table_owns(t),
    ensures
        table_owns(add_statics(t, ds, items, prefix)),
    decreases items.len(),
{
    if items.len() > 0 {
        lemma_add_statics_owns(t, ds, items.drop_last(), prefix);
        let t1 = add_statics(t, ds, items.drop_last(), prefix);
        match items.last() {
            GroupItemModel::Static(c) => {
                lemma_add_class_owns(t1, ds, c, prefix);
            },
            GroupItemModel::Wildcard(_, _) => {},
        }
    }
}

proof fn lemma_add_group_statics_owns(t: TableModel, ds: CatalogModel, groups: Seq<(Seq<char>, Seq<GroupItemModel>)>, prefix: Option<Seq<char>>)
    requires
        table_owns(t),
    ensures
        table_owns(add_group_statics(t, ds, groups, prefix)),
    decreases groups.len(),
{
    if groups.len() > 0 {
        lemma_add_group_statics_owns(t, ds, groups.drop_last(), prefix);
        lemma_add_statics_owns(add_group_statics(t, ds, groups.drop_last(), prefix), ds, groups.last().1, prefix);
    }
}

proof fn lemma_patch_keys_owns(names: Seq<Seq<char>>, v: Seq<(Seq<char>, KeyModel)>, source: Seq<char>, tid: u16)
    requires
        list_owns(names, v),
    ensures
        list_owns(names, patch_keys(v, source, tid)),
{
    let r = patch_keys(v, source, tid);
    assert forall|i: int| 0 <= i < r.len() implies key_owns(names, (#[trigger] r[i]).1) by {
        assert(key_owns(names, v[i].1));
    }
}

proof fn lemma_patch_targets_owns(t: TableModel, group: Seq<char>, targets: Seq<Seq<char>>)
    requires
        table_owns(t),
    ensures
        table_owns(patch_targets(t, group, targets)),
    decreases targets.len(),
{
    if targets.len() > 0 {
        lemma_patch_targets_owns(t, group, targets.drop_last());
        let t1 = patch_targets(t, group, targets.drop_last());
        let tid = id_in(t1.family_names, targets.last());
        lemma_patch_keys_owns(t1.family_names, t1.entries, group, tid);
        lemma_patch_keys_owns(t1.family_names, t1.postfix_entries, group, tid);
        lemma_patch_keys_owns(t1.family_names, t1.arb_fallbacks, group, tid);
    }
}

proof fn lemma_apply_edges_owns(t: TableModel, edges: Seq<(Seq<char>, Seq<Seq<char>>)>)
    requires
        table_owns(t),
    ensures
        table_owns(apply_edges(t, edges).0),
    decreases edges.len(),
{
    if edges.len() > 0 {
        lemma_apply_edges_owns(t, edges.drop_last());
        let t1 = apply_edges(t, edges.drop_last()).0;
        lemma_patch_targets_owns(t1, edges.last().0, edges.last().1);
    }
}

/// A plugin config keeps every key conflicting with its own family's id,
/// with the targets of its family's edges in the family list.
pub proof fn law_plugin_config_keeps_keys_owning(t: TableModel, ds: CatalogModel, cfg: ConfigModel, prefix: Option<Seq<char>>)
    requires
        table_owns(t),
    ensures
        table_owns(apply_plugin_spec(t, ds, cfg, prefix).0),
{
    lemma_add_group_statics_owns(t, ds, cfg.class_groups, prefix);
    lemma_apply_edges_owns(add_group_statics(t, ds, cfg.class_groups, prefix), cfg.conflicting_class_groups);
}

proof fn lemma_patch_targets_names(t: TableModel, group: Seq<char>, targets: Seq<Seq<char>>)
    ensures
        patch_targets(t, group, targets).family_names == t.family_names,
    decreases targets.len(),
{
    if targets.len() > 0 {
        lemma_patch_targets_names(t, group, targets.drop_last());
    }
}

fn copy_strings(v: &Vec<String>) -> (r: Vec<String>)
    ensures
        strs(r@) == strs(v@),
{
    let mut out: Vec<String> = Vec::new();
    let mut i: usize = 0;
    while i < v.len()
        invariant
            0 <= i <= v@.len(),
            strs(out@) == strs(v@).subrange(0, i as int),
        decreases v@.len() - i,
    {
        let ghost before = strs(out@);
        out.push(v[i].clone());
        assert(strs(out@) =~= before.push(v@[i as int]@));
        assert(strs(v@).subrange(0, i + 1) =~= strs(v@).subrange(0, i as int).push(v@[i as int]@));
        i = i + 1;
    }
    assert(strs(v@).subrange(0, i as int) =~= strs(v@));
    out
}

/// Apply a plugin config to a compiled conflict table (exact mode). Static
/// group items are added as classes when no class already covers them
/// (builtin entries win); directed edges are patched into every entry of
/// the source family. Edges whose source or some target has no compiled
/// family are returned for runtime overlay emission (the known targets are
/// still patched).
pub fn apply_plugin_config(table: &mut ConflictTable, ds: &DesignSystem, cfg: &PluginConfig, prefix: Option<&str>) -> (r: UnresolvedEdges)
    requires
        old(table).wf(),
        ds.wf(),
    ensures
        final(table).wf(),
        (final(table)@, crate::config::edges_view(r@)) == apply_plugin_spec(old(table)@, ds@, cfg@, opt_text(prefix)),
{
    let ghost groups = cfg@.class_groups;
    let ghost t0 = table@;
    let mut g: usize = 0;
    assert(groups.subrange(0, 0) =~= Seq::<(Seq<char>, Seq<GroupItemModel>)>::empty());
    while g < cfg.class_groups.len()
        invariant
            groups == cfg@.class_groups,
            0 <= g <= cfg.class_groups@.len(),
            table.wf(),
            ds.wf(),
            table@ == add_group_statics(t0, ds@, groups.subrange(0, g as int), opt_text(prefix)),
        decreases cfg.class_groups@.len() - g,
    {
        let items = &cfg.class_groups[g].1;
        let ghost iv = crate::config::items_view(items@);
        let ghost tg = table@;
        let mut k: usize = 0;
        assert(iv.subrange(0, 0) =~= Seq::<GroupItemModel>::empty());
        while k < items.len()
            invariant
                iv == crate::config::items_view(items@),
                0 <= k <= items@.len(),
                table.wf(),
                ds.wf(),
                table@ == add_statics(tg, ds@, iv.subrange(0, k as int), opt_text(prefix)),
            decreases items@.len() - k,
        {
            proof {
                assert(iv.subrange(0, k + 1).drop_last() =~= iv.subrange(0, k as int));
                assert(iv.subrange(0, k + 1).last() == items@[k as int]@);
            }
            match &items[k] {
                GroupItem::Static(cls) => {
                    match find_key(&table.entries, cls.as_str()) {
                        Some(_) => {},
                        None => {
                            table.add_class(ds, cls.as_str(), prefix);
                        },
                    }
                },
                GroupItem::Wildcard(_) => {},
            }
            k = k + 1;
        }
        proof {
            assert(iv.subrange(0, k as int) =~= iv);
            assert(groups.subrange(0, g + 1).drop_last() =~= groups.subrange(0, g as int));
            assert(groups.subrange(0, g + 1).last().1 == iv);
        }
        g = g + 1;
    }
    assert(groups.subrange(0, g as int) =~= groups);
    let ghost edges = cfg@.conflicting_class_groups;
    let ghost t1 = table@;
    let mut unresolved: Vec<(String, Vec<String>)> = Vec::new();
    let mut e: usize = 0;
    assert(edges.subrange(0, 0) =~= Seq::<(Seq<char>, Seq<Seq<char>>)>::empty());
    assert(crate::config::edges_view(unresolved@) =~= Seq::<(Seq<char>, Seq<Seq<char>>)>::empty());
    while e < cfg.conflicting_class_groups.len()
        invariant
            edges == cfg@.conflicting_class_groups,
            0 <= e <= cfg.conflicting_class_groups@.len(),
            table.wf(),
            (table@, crate::config::edges_view(unresolved@)) == apply_edges(t1, edges.subrange(0, e as int)),
        decreases cfg.conflicting_class_groups@.len() - e,
    {
        let group = &cfg.conflicting_class_groups[e].0;
        let targets = &cfg.conflicting_class_groups[e].1;
        let ghost ts = strs(targets@);
        let ghost tb = table@;
        let ghost ub = crate::config::edges_view(unresolved@);
        proof {
            assert(edges.subrange(0, e + 1).drop_last() =~= edges.subrange(0, e as int));
            assert(edges.subrange(0, e + 1).last() == (group@, ts));
            assert(ts =~= targets@.map_values(|s: String| s@));
        }
        if !table.family_exists(group.as_str()) {
            let ghost before = crate::config::edges_view(unresolved@);
            unresolved.push((group.clone(), copy_strings(targets)));
            assert(crate::config::edges_view(unresolved@) =~= before.push((group@, ts)));
            e = e + 1;
            continue;
        }
        let mut missing = false;
        let mut k: usize = 0;
        assert(ts.subrange(0, 0) =~= Seq::<Seq<char>>::empty());
        while k < targets.len()
            invariant
                ts == strs(targets@),
                0 <= k <= targets@.len(),
                table.wf(),
                table@ == patch_targets(tb, group@, ts.subrange(0, k as int)),
                missing <==> exists|j: int| 0 <= j < k && !registered(tb.family_names, #[trigger] ts[j]),
            decreases targets@.len() - k,
        {
            proof {
                assert(ts.subrange(0, k + 1).drop_last() =~= ts.subrange(0, k as int));
                assert(ts.subrange(0, k + 1).last() == ts[k as int]);
                lemma_patch_targets_names(tb, group@, ts.subrange(0, k as int));
            }
            if table.family_exists(targets[k].as_str()) {
                table.patch_family_edges(group.as_str(), targets[k].as_str());
            } else {
                missing = true;
            }
            k = k + 1;
        }
        assert(ts.subrange(0, k as int) =~= ts);
        if missing {
            let ghost before = crate::config::edges_view(unresolved@);
            unresolved.push((group.clone(), copy_strings(targets)));
            assert(crate::config::edges_view(unresolved@) =~= before.push((group@, ts)));
        }
        e = e + 1;
    }
    assert(edges.subrange(0, e as int) =~= edges);
    unresolved
}

/// The variant part of a conflict key: the modifiers, sorted when there are
/// several, joined by `:`.
pub open spec fn variant_spec(ms: Seq<Seq<char>>) -> Seq<char> {
    if ms.len() == 0 {
        Seq::empty()
    } else if ms.len() == 1 {
        ms[0]
    } else {
        join_spec(spec_sort_modifiers(ms), ":"@)
    }
}

/// `variant + important marker + family`, as tailwind-merge keys a class.
pub open spec fn conflict_key_spec(ms: Seq<Seq<char>>, has_important: bool, family: Seq<char>) -> Seq<char> {
    variant_spec(ms) + (if has_important { "!"@ } else { Seq::empty() }) + family
}

/// Without arbitrary or order-sensitive modifiers, any arrangement of the
/// same modifiers gives the same conflict key.
pub proof fn law_conflict_key_ignores_modifier_order(ms: Seq<Seq<char>>, ms2: Seq<Seq<char>>, has_important: bool, family: Seq<char>)
    requires
        forall|j: int| 0 <= j < ms.len() ==> !crate::candidate::is_anchor(#[trigger] ms[j]),
        ms2.to_multiset() == ms.to_multiset(),
    ensures
        conflict_key_spec(ms2, has_important, family) == conflict_key_spec(ms, has_important, family),
{
    broadcast use vstd::seq_lib::group_to_multiset_ensures;
    crate::candidate::law_sort_modifiers_ignores_order(ms, ms2);
    assert(ms2.to_multiset().len() == ms2.len());
    assert(ms.to_multiset().len() == ms.len());
    if ms.len() == 1 {
        assert(ms.to_multiset().count(ms2[0]) > 0);
        assert(ms.contains(ms2[0]));
        assert(ms2[0] == ms[0]);
    }
}

/// The family prefix of arbitrary properties (`[color:red]` ->
/// `arbitrary..color`).
pub const ARBITRARY_PREFIX: &'static str = crate::families::ARBITRARY_PROPERTY_PREFIX;

/// `hover:focus:p-2` and `focus:hover:p-2` share one conflict key: swapping
/// two neighbouring modifiers that are neither arbitrary nor
/// order-sensitive leaves the key as it is.
pub proof fn law_conflict_key_ignores_modifier_swaps(ms: Seq<Seq<char>>, i: int, has_important: bool, family: Seq<char>)
    requires
        0 <= i,
        i + 1 < ms.len(),
        !crate::candidate::is_anchor(ms[i]),
        !crate::candidate::is_anchor(ms[i + 1]),
    ensures
        conflict_key_spec(ms.update(i, ms[i + 1]).update(i + 1, ms[i]), has_important, family) == conflict_key_spec(ms, has_important, family),
{
    crate::candidate::law_sort_modifiers_ignores_swaps(ms, i);
}

pub(crate) fn variant(modifiers: &[String]) -> (r: String)
    ensures
        r@ == variant_spec(modifiers@.map_values(|s: String| s@)),
{
    if modifiers.len() == 0 {
        String::new()
    } else if modifiers.len() == 1 {
        modifiers[0].clone()
    } else {
        let sorted = sort_modifiers(modifiers);
        assert(sorted@.map_values(|s: String| s@) =~= sorted.deep_view());
        join(sorted.as_slice(), ":")
    }
}

/// Variant-aware conflict key for the merge loop: sorted modifiers +
/// important marker + family.
pub fn conflict_key(modifiers: &[String], has_important: bool, family: &str) -> (r: String)
    ensures
        r@ == conflict_key_spec(modifiers@.map_values(|s: String| s@), has_important, family@),
{
    let v = variant(modifiers);
    let with_important = if has_important { concat(v.as_str(), "!") } else { v };
    proof {
        reveal_strlit("");
    }
    assert(has_important || with_important@ =~= variant_spec(modifiers@.map_values(|s: String| s@)) + Seq::<char>::empty());
    concat(with_important.as_str(), family)
}

// ---------------------------------------------------------------------------
// What the per-family conflict sets hold
// ---------------------------------------------------------------------------

proof fn lemma_add_key_ids(out: Seq<Set<u16>>, names: Seq<Seq<char>>, keys: Seq<(Seq<char>, KeyModel)>)
    ensures
        crate::patterns::sets_grow(out, add_key_ids(out, names, keys)),
        forall|j: int| 0 <= j < keys.len() && (id_in(names, keys[j].1.family) as int) < out.len() ==>
            (#[trigger] keys[j]).1.ids.subset_of(add_key_ids(out, names, keys)[id_in(names, keys[j].1.family) as int]),
    decreases keys.len(),
{
    if keys.len() > 0 {
        let prev = keys.drop_last();
        lemma_add_key_ids(out, names, prev);
        let o = add_key_ids(out, names, prev);
        let r = add_key_ids(out, names, keys);
        assert(crate::patterns::sets_grow(o, r)) by {
            assert forall|f: int| 0 <= f < o.len() implies (#[trigger] o[f]).subset_of(r[f]) by {}
        }
        assert forall|f: int| 0 <= f < out.len() implies (#[trigger] out[f]).subset_of(r[f]) by {
            assert(out[f].subset_of(o[f]));
            assert(o[f].subset_of(r[f]));
        }
        assert forall|j: int| 0 <= j < keys.len() && (id_in(names, keys[j].1.family) as int) < out.len() implies
            (#[trigger] keys[j]).1.ids.subset_of(r[id_in(names, keys[j].1.family) as int]) by {
            if j < prev.len() {
                assert(prev[j] == keys[j]);
                assert(o[id_in(names, keys[j].1.family) as int].subset_of(r[id_in(names, keys[j].1.family) as int]));
            }
        }
    }
}

/// The per-family conflict sets of a conflict table: each family's set
/// holds the family itself and the conflict ids of every key (of a base or
/// of a postfix form) of that family.
pub proof fn law_table_family_conflicts_cover(t: TableModel)
    requires
        t.family_names.len() <= 65536,
    ensures
        family_conflict_sets(t).len() == t.family_names.len(),
        forall|f: int| 0 <= f < t.family_names.len() ==> (#[trigger] family_conflict_sets(t)[f]).contains(f as u16),
        forall|j: int| 0 <= j < t.entries.len() && (id_in(t.family_names, t.entries[j].1.family) as int) < t.family_names.len() ==>
            (#[trigger] t.entries[j]).1.ids.subset_of(family_conflict_sets(t)[id_in(t.family_names, t.entries[j].1.family) as int]),
        forall|j: int| 0 <= j < t.postfix_entries.len() && (id_in(t.family_names, t.postfix_entries[j].1.family) as int) < t.family_names.len() ==>
            (#[trigger] t.postfix_entries[j]).1.ids.subset_of(family_conflict_sets(t)[id_in(t.family_names, t.postfix_entries[j].1.family) as int]),
{
    let names = t.family_names;
    let init = Seq::new(names.len(), |f: int| set![(f % 65536) as u16]);
    let s1 = add_key_ids(init, names, t.entries);
    let s2 = add_key_ids(s1, names, t.postfix_entries);
    lemma_add_key_ids(init, names, t.entries);
    lemma_add_key_ids(s1, names, t.postfix_entries);
    assert forall|f: int| 0 <= f < names.len() implies (#[trigger] s2[f]).contains(f as u16) by {
        assert(init[f].contains((f % 65536) as u16));
        assert(f % 65536 == f);
        assert(init[f].subset_of(s1[f]));
        assert(s1[f].subset_of(s2[f]));
    }
    assert forall|j: int| 0 <= j < t.entries.len() && (id_in(names, t.entries[j].1.family) as int) < names.len() implies
        (#[trigger] t.entries[j]).1.ids.subset_of(s2[id_in(names, t.entries[j].1.family) as int]) by {
        assert(s1[id_in(names, t.entries[j].1.family) as int].subset_of(s2[id_in(names, t.entries[j].1.family) as int]));
    }
}

// ---------------------------------------------------------------------------
// What a table built from classes holds
// ---------------------------------------------------------------------------

/// No family name occurs twice.
pub open spec fn distinct_names(names: Seq<Seq<char>>) -> bool {
    forall|i: int, j: int| 0 <= i < j < names.len() ==> names[i] != names[j]
}

pub(crate) proof fn lemma_register_all_distinct(names: Seq<Seq<char>>, fs: Seq<Seq<char>>)
    requires
        distinct_names(names),
    ensures
        distinct_names(register_all(names, fs)),
    decreases fs.len(),
{
    if fs.len() > 0 {
        lemma_register_all_distinct(names, fs.drop_last());
        let prev = register_all(names, fs.drop_last());
        if !registered(prev, fs.last()) {
            lemma_name_index(prev, fs.last(), 0);
            let r = prev.push(fs.last());
            assert forall|i: int, j: int| 0 <= i < j < r.len() implies r[i] != r[j] by {
                if j == prev.len() {
                    assert(prev[i] != fs.last());
                } else {
                    assert(r[i] == prev[i] && r[j] == prev[j]);
                }
            }
        }
    }
}

proof fn lemma_add_class_distinct(t: TableModel, ds: CatalogModel, class: Seq<char>, prefix: Option<Seq<char>>)
    requires
        distinct_names(t.family_names),
    ensures
        distinct_names(add_class_spec(t, ds, class, prefix).family_names),
{
    let m = parse_class_model(class, prefix);
    if !m.is_external {
        let base = base_text(m);
        let r_opt = match resolve_spec(ds, base) {
            Some(r) => Some(r),
            None => if m.postfix is Some { resolve_spec(ds, vstd::utf8::decode_utf8(m.base)) } else { None },
        };
        let t1 = match r_opt {
            Some(r) => entry_for_spec(t, m, base, r),
            None => t,
        };
        match r_opt {
            Some(r) => {
                let n1 = make_key_spec(t.family_names, r).0;
                lemma_register_all_distinct(t.family_names, key_families(r));
                if m.postfix is Some {
                    lemma_register_all_distinct(n1, key_families(postfix_resolved(m, r)));
                }
            },
            None => {},
        }
        assert(distinct_names(t1.family_names));
        assert(add_class_spec(t, ds, class, prefix).family_names == t1.family_names
            || (resolve_spec(ds, base) is Some && add_class_spec(t, ds, class, prefix).family_names
                == make_key_spec(t1.family_names, resolve_spec(ds, base)->0).0));
        if resolve_spec(ds, base) is Some {
            lemma_register_all_distinct(t1.family_names, key_families(resolve_spec(ds, base)->0));
        }
    }
}

proof fn lemma_lookup_push(v: Seq<(Seq<char>, KeyModel)>, x: (Seq<char>, KeyModel), q: Seq<char>, i: int)
    requires
        0 <= i <= v.len(),
    ensures
        lookup_key(v, q, i) is Some ==> lookup_key(v.push(x), q, i) == lookup_key(v, q, i),
        lookup_key(v, q, i) is None && x.0 == q ==> lookup_key(v.push(x), q, i) == Some(x.1),
    decreases v.len() - i,
{
    let w = v.push(x);
    if i < v.len() {
        assert(w[i] == v[i]);
        if v[i].0 != q {
            lemma_lookup_push(v, x, q, i + 1);
        }
    } else {
        assert(w[i] == x);
    }
}

proof fn lemma_insert_absent_lookup(v: Seq<(Seq<char>, KeyModel)>, k: Seq<char>, x: KeyModel, q: Seq<char>)
    ensures
        lookup_key(v, q, 0) is Some ==> lookup_key(insert_absent(v, k, x), q, 0) is Some,
        lookup_key(insert_absent(v, k, x), k, 0) is Some,
{
    lemma_lookup_push(v, (k, x), q, 0);
    lemma_lookup_push(v, (k, x), k, 0);
}

/// The base a class is entered under, where the design system resolves it.
pub open spec fn entered_base(ds: CatalogModel, class: Seq<char>, prefix: Option<Seq<char>>) -> Option<Seq<char>> {
    let m = parse_class_model(class, prefix);
    if !m.is_external && resolve_spec(ds, base_text(m)) is Some { Some(base_text(m)) } else { None }
}

proof fn lemma_add_class_entries(t: TableModel, ds: CatalogModel, class: Seq<char>, prefix: Option<Seq<char>>, q: Seq<char>)
    ensures
        lookup_key(t.entries, q, 0) is Some ==> lookup_key(add_class_spec(t, ds, class, prefix).entries, q, 0) is Some,
        entered_base(ds, class, prefix) matches Some(b) ==> lookup_key(add_class_spec(t, ds, class, prefix).entries, b, 0) is Some,
{
    let m = parse_class_model(class, prefix);
    if !m.is_external {
        let base = base_text(m);
        match resolve_spec(ds, base) {
            Some(r) => {
                let key = make_key_spec(t.family_names, r).1;
                lemma_insert_absent_lookup(t.entries, base, key, q);
            },
            None => if m.postfix is Some {
                match resolve_spec(ds, vstd::utf8::decode_utf8(m.base)) {
                    Some(r) => {
                        let key = make_key_spec(t.family_names, r).1;
                        lemma_insert_absent_lookup(t.entries, base, key, q);
                    },
                    None => {},
                }
            },
        }
    }
}

/// A table built from a project's classes has each family name once, and
/// every class that is not external and whose base the design system
/// resolves has an entry under that base.
pub proof fn law_built_table_enters_classes(ds: CatalogModel, classes: Seq<Seq<char>>, prefix: Option<Seq<char>>)
    ensures
        distinct_names(add_classes(empty_table(), ds, classes, prefix).family_names),
        forall|j: int| 0 <= j < classes.len() && (#[trigger] entered_base(ds, classes[j], prefix)) is Some ==>
            lookup_key(add_classes(empty_table(), ds, classes, prefix).entries, entered_base(ds, classes[j], prefix)->0, 0) is Some,
    decreases classes.len(),
{
    if classes.len() > 0 {
        let prev = classes.drop_last();
        law_built_table_enters_classes(ds, prev, prefix);
        let t0 = add_classes(empty_table(), ds, prev, prefix);
        lemma_add_class_distinct(t0, ds, classes.last(), prefix);
        assert forall|j: int| 0 <= j < classes.len() && (#[trigger] entered_base(ds, classes[j], prefix)) is Some implies
            lookup_key(add_classes(empty_table(), ds, classes, prefix).entries, entered_base(ds, classes[j], prefix)->0, 0) is Some by {
            let b = entered_base(ds, classes[j], prefix)->0;
            lemma_add_class_entries(t0, ds, classes.last(), prefix, b);
            if j < prev.len() {
                assert(prev[j] == classes[j]);
            }
        }
    }
}

} // verus!

verus! {

/// A font-size class with a line-height postfix (`text-lg/7`) also
/// conflicts with the `leading` family, on top of everything the class
/// conflicts with without the postfix: its key keeps the font-size family,
/// registers `leading` and every family of the plain key, and holds their ids.
pub proof fn law_postfix_font_size_conflicts_with_leading(names: Seq<Seq<char>>, m: ParsedModel, r: ResolvedModel)
    requires
        m.postfix is Some,
        r.family == "font-size"@,
    ensures
        ({
            let (n2, k) = postfix_key_spec(names, m, r);
            &&& k is Some
            &&& k->0.family == "font-size"@
            &&& registered(n2, "leading"@)
            &&& k->0.ids.contains(id_in(n2, "leading"@))
            &&& forall|j: int| 0 <= j < key_families(r).len() ==>
                    registered(n2, #[trigger] key_families(r)[j]) && k->0.ids.contains(id_in(n2, key_families(r)[j]))
        }),
{
    let pr = postfix_resolved(m, r);
    assert(pr.prop_families == r.prop_families.push("leading"@));
    assert(prop_part(pr.prop_families) == prop_part(r.prop_families) + seq!["leading"@] + spec_conflict_edges("leading"@)) by {
        assert(pr.prop_families.drop_last() =~= r.prop_families);
    }
    let fs = key_families(pr);
    let base = key_families(r);
    let n2 = register_all(names, fs);
    lemma_register_all(names, fs);
    let ids = fs.map_values(|f: Seq<char>| id_in(n2, f));
    let lp: int = prop_part(r.prop_families).len() as int;
    assert(fs[1 + lp] == "leading"@);
    assert(ids[1 + lp] == id_in(n2, "leading"@));
    assert(id_set(ids).contains(id_in(n2, "leading"@)));
    assert forall|j: int| 0 <= j < base.len() implies
        registered(n2, #[trigger] base[j]) && id_set(ids).contains(id_in(n2, base[j])) by {
        let x = if j < 1 + lp { j } else { j + 1 + spec_conflict_edges("leading"@).len() };
        assert(fs[x] == base[j]);
        assert(ids[x] == id_in(n2, base[j]));
    }
}

} // verus!

verus! {

/// A named container query with a postfix (`@container/[name]`) is keyed by
/// the named-container family, which conflicts with the container type.
pub proof fn law_postfix_named_container(names: Seq<Seq<char>>, m: ParsedModel, r: ResolvedModel)
    requires
        m.postfix is Some,
        r.family == "container-type"@,
        crate::values::spec_is_named_container_query(vstd::utf8::decode_utf8(m.base)),
    ensures
        ({
            let (n2, k) = postfix_key_spec(names, m, r);
            &&& k is Some
            &&& k->0.family == "container-named"@
            &&& registered(n2, "container-type"@)
            &&& k->0.ids.contains(id_in(n2, "container-type"@))
        }),
{
    reveal_strlit("container-type");
    reveal_strlit("font-size");
    assert("container-type"@[0] == 'c' && "font-size"@[0] == 'f');
    let pr = postfix_resolved(m, r);
    assert(pr.family == "container-named"@);
    let fs = key_families(pr);
    let n2 = register_all(names, fs);
    lemma_register_all(names, fs);
    assert(spec_conflict_edges("container-named"@) == seq!["container-type"@]);
    let lp: int = prop_part(pr.prop_families).len() as int;
    assert(fs[1 + lp] == "container-type"@);
    let ids = fs.map_values(|f: Seq<char>| id_in(n2, f));
    assert(ids[1 + lp] == id_in(n2, "container-type"@));
}

/// For any other class, the postfix does not change what the class
/// conflicts with: the postfix key is the plain key.
pub proof fn law_postfix_keeps_other_keys(names: Seq<Seq<char>>, m: ParsedModel, r: ResolvedModel)
    requires
        m.postfix is Some,
        r.family != "font-size"@,
        r.family != "container-type"@,
    ensures
        postfix_key_spec(names, m, r) == (make_key_spec(names, r).0, Some(make_key_spec(names, r).1)),
{
}

} // verus!
