//! twMerge and twJoin: right-to-left iteration, the last class wins; a
//! class is dropped when its conflict key (sorted modifiers + important +
//! family) was claimed by a later class.

use vstd::prelude::*;
use crate::text::{owned, concat, str_eq, join, join_spec, trim, trimmed, split_whitespace, words, is_word, lemma_words_are_words, lemma_words_of_join};
use crate::candidate::{parse_class_name, parse_class_model};
use crate::conflict::{ConflictTable, TableModel, KeyModel, key_of_spec, lookup_key, table_owns, key_owns, name_index, lemma_name_index, conflict_key, conflict_key_spec, variant_spec, modifier_texts, opt_text, key_wf, id_set, id_in, lemma_id_set_push};
use crate::utility::strs;

verus! {

/// Class values to join: strings and nested lists; empty values are skipped.
#[derive(Debug)]
pub enum JoinValue<'a> {
    Str(&'a str),
    Nested(Vec<JoinValue<'a>>),
}

/// The joined text of a value.
pub open spec fn value_text(v: JoinValue) -> Seq<char>
    decreases v, 0nat,
{
    match v {
        JoinValue::Str(s) => s@,
        JoinValue::Nested(arr) => join_texts(arr@, arr@.len() as int),
    }
}

/// The first `n` values joined with single spaces, empty ones skipped.
pub open spec fn join_texts(vs: Seq<JoinValue>, n: int) -> Seq<char>
    decreases vs, n,
{
    if n <= 0 || n > vs.len() {
        Seq::empty()
    } else {
        let s = join_texts(vs, n - 1);
        let r = value_text(vs[n - 1]);
        if r.len() == 0 { s } else if s.len() == 0 { r } else { s + " "@ + r }
    }
}


/// The values joined with single spaces, empty ones skipped.
pub open spec fn join_all(vs: Seq<JoinValue>) -> Seq<char> {
    join_texts(vs, vs.len() as int)
}

proof fn lemma_join_texts_prefix(vs: Seq<JoinValue>, ws: Seq<JoinValue>, n: int)
    requires
        0 <= n <= vs.len(),
        n <= ws.len(),
        forall|i: int| 0 <= i < n ==> vs[i] == ws[i],
    ensures
        join_texts(vs, n) == join_texts(ws, n),
    decreases n,
{
    if n > 0 {
        lemma_join_texts_prefix(vs, ws, n - 1);
    }
}

/// An empty value at the end changes nothing: empty values are skipped.
pub proof fn law_join_skips_empty_values(vs: Seq<JoinValue>, v: JoinValue)
    requires
        value_text(v).len() == 0,
    ensures
        join_all(vs.push(v)) == join_all(vs),
{
    lemma_join_texts_prefix(vs, vs.push(v), vs.len() as int);
}

/// A nested list joins as its values do.
pub proof fn law_join_flattens_nested_lists(arr: Vec<JoinValue>)
    ensures
        join_all(seq![JoinValue::Nested(arr)]) == join_all(arr@),
{
    let vs = seq![JoinValue::Nested(arr)];
    assert(join_texts(vs, 0) == Seq::<char>::empty());
    assert(value_text(vs[0]) == join_texts(arr@, arr@.len() as int));
}

fn to_value(mix: &JoinValue) -> (r: String)
    ensures
        r@ == value_text(*mix),
    decreases *mix,
{
    match mix {
        JoinValue::Str(s) => owned(s),
        JoinValue::Nested(arr) => {
            let mut string = String::new();
            let mut i: usize = 0;
            while i < arr.len()
                invariant
                    0 <= i <= arr@.len(),
                    string@ == join_texts(arr@, i as int),
                    *mix == JoinValue::Nested(*arr),
                decreases arr@.len() - i,
            {
                proof {
                    assert((*mix)->Nested_0 == *arr);
                    assert(decreases_to!(*mix => (*mix)->Nested_0));
                    assert(decreases_to!(*arr => arr@));
                    assert(decreases_to!(arr@ => arr@[i as int]));
                }
                let resolved = to_value(&arr[i]);
                if !resolved.as_str().is_empty() {
                    if !string.as_str().is_empty() {
                        string.append(" ");
                    }
                    string.append(resolved.as_str());
                }
                proof {
                    reveal_strlit(" ");
                }
                i = i + 1;
            }
            string
        },
    }
}

/// Join class values (strings, nested lists; empty values skipped) with
/// single spaces.
pub fn tw_join(values: &[JoinValue]) -> (r: String)
    ensures
        r@ == join_all(values@),
{
    let mut string = String::new();
    let mut i: usize = 0;
    while i < values.len()
        invariant
            0 <= i <= values@.len(),
            string@ == join_texts(values@, i as int),
        decreases values@.len() - i,
    {
        let resolved = to_value(&values[i]);
        if !resolved.as_str().is_empty() {
            if !string.as_str().is_empty() {
                string.append(" ");
            }
            string.append(resolved.as_str());
        }
        proof {
            reveal_strlit(" ");
        }
        i = i + 1;
    }
    string
}


/// The conflict groups a kept class claims: one per conflict id, under the
/// class's variant scope.
pub open spec fn claimed(t: TableModel, mods: Seq<Seq<char>>, important: bool, ids: Set<u16>) -> Set<Seq<char>> {
    Set::new(|x: Seq<char>| exists|id: u16| ids.contains(id) && x == conflict_key_spec(mods, important, #[trigger] t.family_names[id as int]))
}

/// One class, seen from the right: kept unless its own conflict key was
/// claimed by a later class; a kept class claims its conflict groups.
/// External and unknown classes are always kept.
pub open spec fn merge_step(t: TableModel, prefix: Option<Seq<char>>, st: (Set<Seq<char>>, Seq<Seq<char>>), w: Seq<char>) -> (Set<Seq<char>>, Seq<Seq<char>>) {
    let (acc, kept) = st;
    let m = parse_class_model(w, prefix);
    if m.is_external {
        (acc, seq![w] + kept)
    } else {
        match key_of_spec(t, w, prefix) {
            None => (acc, seq![w] + kept),
            Some(key) => {
                let mods = modifier_texts(m);
                if acc.contains(conflict_key_spec(mods, m.has_important, key.family)) {
                    (acc, kept)
                } else {
                    (acc.union(claimed(t, mods, m.has_important, key.ids)), seq![w] + kept)
                }
            },
        }
    }
}

/// The classes from index `k` on, merged right to left.
pub open spec fn merge_from(t: TableModel, ws: Seq<Seq<char>>, prefix: Option<Seq<char>>, k: int) -> (Set<Seq<char>>, Seq<Seq<char>>)
    decreases ws.len() - k,
{
    if k < 0 || k >= ws.len() {
        (Set::empty(), Seq::empty())
    } else {
        merge_step(t, prefix, merge_from(t, ws, prefix, k + 1), ws[k])
    }
}

/// The merged class list.
pub open spec fn tw_merge_spec(t: TableModel, class_list: Seq<char>, prefix: Option<Seq<char>>) -> Seq<char> {
    let ws = words(trimmed(class_list));
    join_spec(merge_from(t, ws, prefix, 0).1, " "@)
}

fn contains_string(v: &Vec<String>, s: &str) -> (r: bool)
    ensures
        r == strs(v@).contains(s@),
{
    let mut i: usize = 0;
    while i < v.len()
        invariant
            0 <= i <= v@.len(),
            forall|j: int| 0 <= j < i ==> v@[j]@ != s@,
        decreases v@.len() - i,
    {
        if str_eq(v[i].as_str(), s) {
            assert(strs(v@)[i as int] == s@);
            return true;
        }
        i = i + 1;
    }
    false
}

/// Merge a class list, right to left, the last class wins.
pub fn tw_merge(table: &ConflictTable, class_list: &str, prefix: Option<&str>) -> (r: String)
    requires
        table.wf(),
    ensures
        r@ == tw_merge_spec(table@, class_list@, opt_text(prefix)),
{
    let ghost t = table@;
    let ghost pv = opt_text(prefix);
    let class_names = split_whitespace(trim(class_list));
    let ghost ws = class_names@.map_values(|w: &str| w@);
    let mut in_conflict: Vec<String> = Vec::new();
    let mut result: Vec<&str> = Vec::new();
    let mut index: usize = class_names.len();
    assert(in_conflict@.map_values(|s: String| s@).to_set() =~= Set::<Seq<char>>::empty());
    assert(result@.map_values(|w: &str| w@).reverse() =~= Seq::<Seq<char>>::empty());
    while index > 0
        invariant
            table.wf(),
            t == table@,
            pv == opt_text(prefix),
            ws == class_names@.map_values(|w: &str| w@),
            index <= class_names@.len(),
            strs(in_conflict@).to_set() == merge_from(t, ws, pv, index as int).0,
            result@.map_values(|w: &str| w@).reverse() == merge_from(t, ws, pv, index as int).1,
        decreases index,
    {
        index = index - 1;
        let written_class = class_names[index];
        let ghost st = merge_from(t, ws, pv, index + 1);
        let ghost rv = result@.map_values(|w: &str| w@);
        assert(ws[index as int] == written_class@);
        let parsed = parse_class_name(written_class, prefix);
        proof {
            assert(pv == match prefix { Some(p) => Some(p@), None => None::<Seq<char>> });
        }
        if parsed.is_external {
            result.push(written_class);
            assert(result@.map_values(|w: &str| w@).reverse() =~= seq![written_class@] + rv.reverse());
            continue;
        }
        let key = match table.key_of(written_class, prefix) {
            Some(k) => k,
            None => {
                result.push(written_class);
                assert(result@.map_values(|w: &str| w@).reverse() =~= seq![written_class@] + rv.reverse());
                continue;
            },
        };
        let modifier_id = crate::conflict::variant(parsed.modifiers.as_slice());
        let scope = if parsed.has_important { concat(modifier_id.as_str(), "!") } else { modifier_id };
        let ghost mods = modifier_texts(parsed@);
        proof {
            assert forall|i: int| 0 <= i < mods.len() implies mods[i] == parsed.modifiers@[i]@ by {
                vstd::utf8::encode_utf8_decode_utf8(parsed.modifiers@[i]@);
            }
            assert(parsed.modifiers@.map_values(|s: String| s@) =~= mods);
            reveal_strlit("");
            assert(scope@ == variant_spec(mods) + (if parsed.has_important { "!"@ } else { Seq::<char>::empty() }));
        }
        let own = conflict_key(parsed.modifiers.as_slice(), parsed.has_important, key.family.as_str());
        if contains_string(&in_conflict, own.as_str()) {
            proof {
                assert(strs(in_conflict@).to_set().contains(own@));
            }
            continue;
        }
        let ghost acc0 = strs(in_conflict@).to_set();
        let mut k: usize = 0;
        while k < key.conflict_ids.len()
            invariant
                table.wf(),
                t == table@,
                key_wf(key, t.family_names),
                0 <= k <= key.conflict_ids@.len(),
                scope@ == variant_spec(mods) + (if parsed.has_important { "!"@ } else { Seq::<char>::empty() }),
                strs(in_conflict@).to_set() == acc0.union(claimed(t, mods, parsed.has_important, id_set(key.conflict_ids@.subrange(0, k as int)))),
            decreases key.conflict_ids@.len() - k,
        {
            let fid = key.conflict_ids[k];
            assert((fid as int) < t.family_names.len());
            let group = concat(scope.as_str(), table.family_names[fid as usize].as_str());
            let ghost before = strs(in_conflict@);
            in_conflict.push(group);
            proof {
                assert(strs(in_conflict@) =~= before.push(group@));
                assert(group@ == conflict_key_spec(mods, parsed.has_important, t.family_names[fid as int]));
                let sub = key.conflict_ids@.subrange(0, k as int);
                assert(key.conflict_ids@.subrange(0, k + 1) =~= sub.push(fid));
                lemma_id_set_push(sub, fid);
                assert(strs(in_conflict@).to_set() =~= acc0.union(claimed(t, mods, parsed.has_important, id_set(sub).insert(fid)))) by {
                    assert forall|x: Seq<char>| strs(in_conflict@).to_set().contains(x) implies acc0.union(claimed(t, mods, parsed.has_important, id_set(sub).insert(fid))).contains(x) by {
                        if x != group@ {
                            assert(before.to_set().contains(x));
                        } else {
                            assert(claimed(t, mods, parsed.has_important, id_set(sub).insert(fid)).contains(x));
                        }
                    }
                    assert forall|x: Seq<char>| acc0.union(claimed(t, mods, parsed.has_important, id_set(sub).insert(fid))).contains(x) implies strs(in_conflict@).to_set().contains(x) by {
                        if x == group@ {
                            assert(strs(in_conflict@)[before.len() as int] == x);
                        } else {
                            if acc0.contains(x) || claimed(t, mods, parsed.has_important, id_set(sub)).contains(x) {
                                assert(before.to_set().contains(x));
                                let q = choose|q: int| 0 <= q < before.len() && before[q] == x;
                                assert(strs(in_conflict@)[q] == x);
                            } else {
                                let id = choose|id: u16| id_set(sub).insert(fid).contains(id) && x == conflict_key_spec(mods, parsed.has_important, #[trigger] t.family_names[id as int]);
                                assert(id == fid || id_set(sub).contains(id));
                                if id != fid {
                                    assert(claimed(t, mods, parsed.has_important, id_set(sub)).contains(x));
                                }
                            }
                        }
                    }
                }
            }
            k = k + 1;
        }
        assert(key.conflict_ids@.subrange(0, k as int) =~= key.conflict_ids@);
        result.push(written_class);
        assert(result@.map_values(|w: &str| w@).reverse() =~= seq![written_class@] + rv.reverse());
    }
    let mut out: Vec<String> = Vec::new();
    let mut j: usize = result.len();
    while j > 0
        invariant
            j <= result@.len(),
            strs(out@) == result@.map_values(|w: &str| w@).reverse().subrange(0, (result@.len() - j) as int),
        decreases j,
    {
        j = j - 1;
        let ghost before = strs(out@);
        let ghost rs = result@.map_values(|w: &str| w@).reverse();
        let ghost n = result@.len() - j - 1;
        proof {
            assert(rs[n] == result@[j as int]@);
            assert(rs.subrange(0, n + 1) =~= rs.subrange(0, n).push(rs[n]));
        }
        out.push(owned(result[j]));
        assert(strs(out@) =~= before.push(result@[j as int]@));
    }
    assert(result@.map_values(|w: &str| w@).reverse().subrange(0, result@.len() as int) =~= result@.map_values(|w: &str| w@).reverse());
    assert(out@.map_values(|s: String| s@) =~= strs(out@));
    join(out.as_slice(), " ")
}


/// The scanned classes from index `k` on, right to left: the groups claimed
/// so far and the indices flagged as conflicting (in visiting order). A
/// resolved class is flagged when its own conflict key was claimed by a later
/// class; every resolved class claims its groups, flagged or not.
pub open spec fn check_from(t: TableModel, ws: Seq<Seq<char>>, prefix: Option<Seq<char>>, k: int) -> (Set<Seq<char>>, Seq<int>)
    decreases ws.len() - k,
{
    if k < 0 || k >= ws.len() {
        (Set::empty(), Seq::empty())
    } else {
        let (acc, flagged) = check_from(t, ws, prefix, k + 1);
        let m = parse_class_model(ws[k], prefix);
        if m.is_external {
            (acc, flagged)
        } else {
            match key_of_spec(t, ws[k], prefix) {
                None => (acc, flagged),
                Some(key) => {
                    let mods = modifier_texts(m);
                    let hit = acc.contains(conflict_key_spec(mods, m.has_important, key.family));
                    (acc.union(claimed(t, mods, m.has_important, key.ids)), if hit { flagged.push(k) } else { flagged })
                },
            }
        }
    }
}

/// The indices of the scanned classes that a later class overrides, from
/// the last to the first (the `--check` report).
pub fn check_drops(table: &ConflictTable, classes: &[String], prefix: Option<&str>) -> (r: Vec<usize>)
    requires
        table.wf(),
    ensures
        r@.map_values(|i: usize| i as int) == check_from(table@, classes@.map_values(|c: String| c@), opt_text(prefix), 0).1,
{
    let ghost t = table@;
    let ghost pv = opt_text(prefix);
    let ghost ws = classes@.map_values(|c: String| c@);
    let mut seen: Vec<String> = Vec::new();
    let mut drops: Vec<usize> = Vec::new();
    let mut index: usize = classes.len();
    assert(strs(seen@).to_set() =~= Set::<Seq<char>>::empty());
    assert(drops@.map_values(|i: usize| i as int) =~= Seq::<int>::empty());
    while index > 0
        invariant
            table.wf(),
            t == table@,
            pv == opt_text(prefix),
            ws == classes@.map_values(|c: String| c@),
            index <= classes@.len(),
            strs(seen@).to_set() == check_from(t, ws, pv, index as int).0,
            drops@.map_values(|i: usize| i as int) == check_from(t, ws, pv, index as int).1,
        decreases index,
    {
        index = index - 1;
        let written = classes[index].as_str();
        assert(ws[index as int] == written@);
        let parsed = parse_class_name(written, prefix);
        proof {
            assert(pv == match prefix { Some(p) => Some(p@), None => None::<Seq<char>> });
        }
        if parsed.is_external {
            continue;
        }
        let key = match table.key_of(written, prefix) {
            Some(k) => k,
            None => {
                continue;
            },
        };
        let ghost mods = modifier_texts(parsed@);
        proof {
            assert forall|i: int| 0 <= i < mods.len() implies mods[i] == parsed.modifiers@[i]@ by {
                vstd::utf8::encode_utf8_decode_utf8(parsed.modifiers@[i]@);
            }
            assert(parsed.modifiers@.map_values(|s: String| s@) =~= mods);
        }
        let mk = conflict_key(parsed.modifiers.as_slice(), parsed.has_important, key.family.as_str());
        if contains_string(&seen, mk.as_str()) {
            let ghost before = drops@.map_values(|i: usize| i as int);
            drops.push(index);
            assert(drops@.map_values(|i: usize| i as int) =~= before.push(index as int));
        }
        let modifier_id = crate::conflict::variant(parsed.modifiers.as_slice());
        let scope = if parsed.has_important { concat(modifier_id.as_str(), "!") } else { modifier_id };
        proof {
            reveal_strlit("");
            assert(scope@ == variant_spec(mods) + (if parsed.has_important { "!"@ } else { Seq::<char>::empty() }));
        }
        let ghost acc0 = strs(seen@).to_set();
        let mut k: usize = 0;
        while k < key.conflict_ids.len()
            invariant
                table.wf(),
                t == table@,
                key_wf(key, t.family_names),
                0 <= k <= key.conflict_ids@.len(),
                scope@ == variant_spec(mods) + (if parsed.has_important { "!"@ } else { Seq::<char>::empty() }),
                strs(seen@).to_set() == acc0.union(claimed(t, mods, parsed.has_important, id_set(key.conflict_ids@.subrange(0, k as int)))),
            decreases key.conflict_ids@.len() - k,
        {
            let fid = key.conflict_ids[k];
            assert((fid as int) < t.family_names.len());
            let group = concat(scope.as_str(), table.family_names[fid as usize].as_str());
            let ghost before = strs(seen@);
            seen.push(group);
            proof {
                assert(strs(seen@) =~= before.push(group@));
                assert(group@ == conflict_key_spec(mods, parsed.has_important, t.family_names[fid as int]));
                let sub = key.conflict_ids@.subrange(0, k as int);
                assert(key.conflict_ids@.subrange(0, k + 1) =~= sub.push(fid));
                lemma_id_set_push(sub, fid);
                lemma_claim_push(t, mods, parsed.has_important, acc0, before, id_set(sub), fid);
            }
            k = k + 1;
        }
        assert(key.conflict_ids@.subrange(0, k as int) =~= key.conflict_ids@);
    }
    drops
}

/// Claiming one more id adds its group.
proof fn lemma_claim_push(t: TableModel, mods: Seq<Seq<char>>, imp: bool, acc0: Set<Seq<char>>, before: Seq<Seq<char>>, ids: Set<u16>, fid: u16)
    requires
        before.to_set() == acc0.union(claimed(t, mods, imp, ids)),
    ensures
        before.push(conflict_key_spec(mods, imp, t.family_names[fid as int])).to_set() == acc0.union(claimed(t, mods, imp, ids.insert(fid))),
{
    let g = conflict_key_spec(mods, imp, t.family_names[fid as int]);
    let after = before.push(g);
    assert forall|x: Seq<char>| after.to_set().contains(x) implies acc0.union(claimed(t, mods, imp, ids.insert(fid))).contains(x) by {
        let q = choose|q: int| 0 <= q < after.len() && after[q] == x;
        if q < before.len() {
            assert(before[q] == x);
            assert(before.to_set().contains(x));
            if claimed(t, mods, imp, ids).contains(x) {
                let id = choose|id: u16| ids.contains(id) && x == conflict_key_spec(mods, imp, #[trigger] t.family_names[id as int]);
                assert(ids.insert(fid).contains(id));
            }
        } else {
            assert(ids.insert(fid).contains(fid));
        }
    }
    assert forall|x: Seq<char>| acc0.union(claimed(t, mods, imp, ids.insert(fid))).contains(x) implies after.to_set().contains(x) by {
        if x == g {
            assert(after[before.len() as int] == x);
        } else {
            if acc0.contains(x) || claimed(t, mods, imp, ids).contains(x) {
                assert(before.to_set().contains(x));
                let q = choose|q: int| 0 <= q < before.len() && before[q] == x;
                assert(after[q] == x);
            } else {
                let id = choose|id: u16| ids.insert(fid).contains(id) && x == conflict_key_spec(mods, imp, #[trigger] t.family_names[id as int]);
                if id != fid {
                    assert(ids.contains(id));
                    assert(claimed(t, mods, imp, ids).contains(x));
                }
            }
        }
    }
    assert(after.to_set() =~= acc0.union(claimed(t, mods, imp, ids.insert(fid))));
}


// ---------------------------------------------------------------------------
// Laws of the merge
// ---------------------------------------------------------------------------

/// `a` is `b` with some elements left out, the rest in their order.
pub open spec fn is_subsequence(a: Seq<Seq<char>>, b: Seq<Seq<char>>) -> bool
    decreases b.len(),
{
    if a.len() == 0 {
        true
    } else if b.len() == 0 {
        false
    } else {
        (a[0] == b[0] && is_subsequence(a.drop_first(), b.drop_first())) || is_subsequence(a, b.drop_first())
    }
}

/// The conflict key of a class (variant scope, important marker and own
/// family), where the table gives the class a key.
pub open spec fn class_conflict_key(t: TableModel, w: Seq<char>, prefix: Option<Seq<char>>) -> Option<Seq<char>> {
    let m = parse_class_model(w, prefix);
    if m.is_external {
        None
    } else {
        match key_of_spec(t, w, prefix) {
            Some(key) => Some(conflict_key_spec(modifier_texts(m), m.has_important, key.family)),
            None => None,
        }
    }
}

/// A key conflicts with its own family, which its id names.
spec fn claims_own(names: Seq<Seq<char>>, k: KeyModel) -> bool {
    &&& k.ids.contains(id_in(names, k.family))
    &&& (id_in(names, k.family) as int) < names.len()
    &&& names[id_in(names, k.family) as int] == k.family
}

spec fn keys_claim_own(t: TableModel) -> bool {
    &&& forall|i: int| 0 <= i < t.entries.len() ==> claims_own(t.family_names, (#[trigger] t.entries[i]).1)
    &&& forall|i: int| 0 <= i < t.postfix_entries.len() ==> claims_own(t.family_names, (#[trigger] t.postfix_entries[i]).1)
    &&& forall|i: int| 0 <= i < t.arb_fallbacks.len() ==> claims_own(t.family_names, (#[trigger] t.arb_fallbacks[i]).1)
}

proof fn lemma_owns_claims(t: TableModel)
    requires
        table_owns(t),
        t.family_names.len() <= 65536,
    ensures
        keys_claim_own(t),
{
    let names = t.family_names;
    assert forall|k: KeyModel| key_owns(names, k) implies claims_own(names, k) by {
        lemma_name_index(names, k.family, 0);
        let i = name_index(names, k.family, 0)->0;
        assert(i % 65536 == i);
    }
    assert forall|i: int| 0 <= i < t.entries.len() implies claims_own(names, (#[trigger] t.entries[i]).1) by {
        assert(key_owns(names, t.entries[i].1));
    }
    assert forall|i: int| 0 <= i < t.postfix_entries.len() implies claims_own(names, (#[trigger] t.postfix_entries[i]).1) by {
        assert(key_owns(names, t.postfix_entries[i].1));
    }
    assert forall|i: int| 0 <= i < t.arb_fallbacks.len() implies claims_own(names, (#[trigger] t.arb_fallbacks[i]).1) by {
        assert(key_owns(names, t.arb_fallbacks[i].1));
    }
}

proof fn lemma_lookup_claims_own(names: Seq<Seq<char>>, v: Seq<(Seq<char>, KeyModel)>, k: Seq<char>, i: int)
    requires
        forall|j: int| 0 <= j < v.len() ==> claims_own(names, (#[trigger] v[j]).1),
        lookup_key(v, k, i) is Some,
    ensures
        claims_own(names, lookup_key(v, k, i)->0),
    decreases v.len() - i,
{
    if 0 <= i < v.len() && v[i].0 != k {
        lemma_lookup_claims_own(names, v, k, i + 1);
    }
}

proof fn lemma_key_claims_own(t: TableModel, w: Seq<char>, prefix: Option<Seq<char>>)
    requires
        keys_claim_own(t),
        key_of_spec(t, w, prefix) is Some,
    ensures
        claims_own(t.family_names, key_of_spec(t, w, prefix)->0),
{
    let m = parse_class_model(w, prefix);
    let base = crate::conflict::base_text(m);
    if m.postfix is Some && lookup_key(t.postfix_entries, base + "/"@, 0) is Some {
        lemma_lookup_claims_own(t.family_names, t.postfix_entries, base + "/"@, 0);
    } else if lookup_key(t.entries, base, 0) is Some {
        lemma_lookup_claims_own(t.family_names, t.entries, base, 0);
    } else {
        let p = crate::conflict::arb_prefix_spec(base)->0;
        lemma_lookup_claims_own(t.family_names, t.arb_fallbacks, p, 0);
    }
}

proof fn lemma_merge_subsequence(t: TableModel, ws: Seq<Seq<char>>, prefix: Option<Seq<char>>, k: int)
    requires
        0 <= k <= ws.len(),
    ensures
        is_subsequence(merge_from(t, ws, prefix, k).1, ws.subrange(k, ws.len() as int)),
    decreases ws.len() - k,
{
    if k < ws.len() {
        lemma_merge_subsequence(t, ws, prefix, k + 1);
        let b = ws.subrange(k, ws.len() as int);
        assert(b.drop_first() =~= ws.subrange(k + 1, ws.len() as int));
        let next = merge_from(t, ws, prefix, k + 1).1;
        let kept = merge_from(t, ws, prefix, k).1;
        if kept != next {
            assert(kept =~= seq![ws[k]] + next);
            assert(kept.drop_first() =~= next);
        }
    }
}

/// The merged classes are input classes in their input order: the merge
/// only leaves classes out.
pub proof fn law_merge_keeps_input_order(t: TableModel, class_list: Seq<char>, prefix: Option<Seq<char>>)
    ensures
        is_subsequence(merge_from(t, words(trimmed(class_list)), prefix, 0).1, words(trimmed(class_list))),
{
    let ws = words(trimmed(class_list));
    lemma_merge_subsequence(t, ws, prefix, 0);
    assert(ws.subrange(0, ws.len() as int) =~= ws);
}

proof fn lemma_merge_last(t: TableModel, ws: Seq<Seq<char>>, prefix: Option<Seq<char>>, k: int)
    requires
        0 <= k < ws.len(),
    ensures
        merge_from(t, ws, prefix, k).1.len() > 0,
        merge_from(t, ws, prefix, k).1.last() == ws.last(),
    decreases ws.len() - k,
{
    let next = merge_from(t, ws, prefix, k + 1);
    let kept = merge_from(t, ws, prefix, k).1;
    if k + 1 < ws.len() {
        lemma_merge_last(t, ws, prefix, k + 1);
        if kept != next.1 {
            assert(kept =~= seq![ws[k]] + next.1);
        }
    } else {
        assert(next.0 =~= Set::<Seq<char>>::empty());
        assert(next.1 =~= Seq::<Seq<char>>::empty());
        assert(kept =~= seq![ws[k]]);
    }
}

/// The last class of a list is always kept, as the last merged class.
pub proof fn law_merge_keeps_last_class(t: TableModel, class_list: Seq<char>, prefix: Option<Seq<char>>)
    requires
        words(trimmed(class_list)).len() > 0,
    ensures
        merge_from(t, words(trimmed(class_list)), prefix, 0).1.len() > 0,
        merge_from(t, words(trimmed(class_list)), prefix, 0).1.last() == words(trimmed(class_list)).last(),
{
    lemma_merge_last(t, words(trimmed(class_list)), prefix, 0);
}

proof fn lemma_merge_keeps_from(t: TableModel, ws: Seq<Seq<char>>, prefix: Option<Seq<char>>, j: int, k: int)
    requires
        0 <= j <= k < ws.len(),
        merge_from(t, ws, prefix, k).1.contains(ws[k]),
    ensures
        merge_from(t, ws, prefix, j).1.contains(ws[k]),
    decreases k - j,
{
    if j < k {
        lemma_merge_keeps_from(t, ws, prefix, j + 1, k);
        let next = merge_from(t, ws, prefix, j + 1).1;
        let kept = merge_from(t, ws, prefix, j).1;
        if kept != next {
            assert(kept =~= seq![ws[j]] + next);
            let q = choose|q: int| 0 <= q < next.len() && next[q] == ws[k];
            assert(kept[q + 1] == ws[k]);
        }
    }
}

/// A class that is external (it lacks the prefix) or that the table gives
/// no key passes through: it is in the merged list.
pub proof fn law_merge_keeps_external_and_unknown(t: TableModel, ws: Seq<Seq<char>>, prefix: Option<Seq<char>>, k: int)
    requires
        0 <= k < ws.len(),
        parse_class_model(ws[k], prefix).is_external || key_of_spec(t, ws[k], prefix) is None,
    ensures
        merge_from(t, ws, prefix, 0).1.contains(ws[k]),
{
    assert(merge_from(t, ws, prefix, k).1[0] == ws[k]);
    lemma_merge_keeps_from(t, ws, prefix, 0, k);
}

proof fn lemma_claims_grow(t: TableModel, ws: Seq<Seq<char>>, prefix: Option<Seq<char>>, i: int, j: int)
    requires
        0 <= i <= j,
    ensures
        merge_from(t, ws, prefix, j).0.subset_of(merge_from(t, ws, prefix, i).0),
    decreases j - i,
{
    if i < j {
        lemma_claims_grow(t, ws, prefix, i + 1, j);
    }
}

/// The last class wins: of two classes with the same conflict key, the
/// earlier one is left out, whether or not the later one is kept. This
/// holds in every table whose keys conflict with their own families (the
/// tables that `from_classes` and `apply_plugin_config` build: see
/// `law_built_table_keys_own_families` and
/// `law_plugin_config_keeps_keys_owning`), as long as the family ids fit in
/// a `u16`.
pub proof fn law_merge_later_class_wins(t: TableModel, ws: Seq<Seq<char>>, prefix: Option<Seq<char>>, i: int, j: int)
    requires
        table_owns(t),
        t.family_names.len() <= 65536,
        0 <= i < j < ws.len(),
        class_conflict_key(t, ws[j], prefix) is Some,
        class_conflict_key(t, ws[i], prefix) == class_conflict_key(t, ws[j], prefix),
    ensures
        merge_from(t, ws, prefix, i).1 == merge_from(t, ws, prefix, i + 1).1,
{
    let w = ws[j];
    let m = parse_class_model(w, prefix);
    let key = key_of_spec(t, w, prefix)->0;
    let ck = class_conflict_key(t, w, prefix)->0;
    let mods = modifier_texts(m);
    lemma_owns_claims(t);
    lemma_key_claims_own(t, w, prefix);
    let fid = id_in(t.family_names, key.family);
    assert(ck == conflict_key_spec(mods, m.has_important, t.family_names[fid as int]));
    assert(claimed(t, mods, m.has_important, key.ids).contains(ck));
    assert(merge_from(t, ws, prefix, j).0.contains(ck));
    lemma_claims_grow(t, ws, prefix, i + 1, j);
}

proof fn lemma_merge_shift(t: TableModel, w: Seq<char>, s: Seq<Seq<char>>, prefix: Option<Seq<char>>, i: int)
    requires
        0 <= i <= s.len(),
    ensures
        merge_from(t, seq![w] + s, prefix, i + 1) == merge_from(t, s, prefix, i),
    decreases s.len() - i,
{
    if i < s.len() {
        lemma_merge_shift(t, w, s, prefix, i + 1);
        assert((seq![w] + s)[i + 1] == s[i]);
    }
}

proof fn lemma_merge_stable(t: TableModel, ws: Seq<Seq<char>>, prefix: Option<Seq<char>>, k: int)
    requires
        0 <= k <= ws.len(),
    ensures
        merge_from(t, merge_from(t, ws, prefix, k).1, prefix, 0) == merge_from(t, ws, prefix, k),
    decreases ws.len() - k,
{
    if k < ws.len() {
        lemma_merge_stable(t, ws, prefix, k + 1);
        let next = merge_from(t, ws, prefix, k + 1);
        let cur = merge_from(t, ws, prefix, k);
        if cur.1 != next.1 || cur.0 != next.0 {
            if cur.1 =~= seq![ws[k]] + next.1 {
                lemma_merge_shift(t, ws[k], next.1, prefix, 0);
                assert((seq![ws[k]] + next.1)[0] == ws[k]);
            } else {
                assert(cur == next);
            }
        }
    }
}

/// Merging is idempotent on class lists: the merged classes, merged again
/// in the same table, stay as they are.
pub proof fn law_merge_idempotent(t: TableModel, ws: Seq<Seq<char>>, prefix: Option<Seq<char>>)
    ensures
        merge_from(t, merge_from(t, ws, prefix, 0).1, prefix, 0).1 == merge_from(t, ws, prefix, 0).1,
{
    lemma_merge_stable(t, ws, prefix, 0);
}

proof fn lemma_subsequence_words(a: Seq<Seq<char>>, b: Seq<Seq<char>>)
    requires
        is_subsequence(a, b),
        forall|i: int| 0 <= i < b.len() ==> is_word(#[trigger] b[i]),
    ensures
        forall|i: int| 0 <= i < a.len() ==> is_word(#[trigger] a[i]),
    decreases b.len(),
{
    if a.len() > 0 && b.len() > 0 {
        assert forall|i: int| 0 <= i < b.drop_first().len() implies is_word(#[trigger] b.drop_first()[i]) by {
            assert(b.drop_first()[i] == b[i + 1]);
        }
        if a[0] == b[0] && is_subsequence(a.drop_first(), b.drop_first()) {
            lemma_subsequence_words(a.drop_first(), b.drop_first());
            assert forall|i: int| 0 <= i < a.len() implies is_word(#[trigger] a[i]) by {
                if i > 0 {
                    assert(a[i] == a.drop_first()[i - 1]);
                } else {
                    assert(is_word(b[0]));
                }
            }
        } else {
            lemma_subsequence_words(a, b.drop_first());
        }
    }
}

/// Merging a merged class list again gives it back unchanged.
pub proof fn law_tw_merge_idempotent(t: TableModel, class_list: Seq<char>, prefix: Option<Seq<char>>)
    ensures
        tw_merge_spec(t, tw_merge_spec(t, class_list, prefix), prefix) == tw_merge_spec(t, class_list, prefix),
{
    let ws = words(trimmed(class_list));
    let kept = merge_from(t, ws, prefix, 0).1;
    lemma_words_are_words(trimmed(class_list));
    law_merge_keeps_input_order(t, class_list, prefix);
    lemma_subsequence_words(kept, ws);
    lemma_words_of_join(kept);
    law_merge_idempotent(t, ws, prefix);
}

} // verus!
