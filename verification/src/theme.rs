//! Theme storage: the custom properties of `@theme` blocks.

use vstd::prelude::*;
use crate::css::{CssProgram, pairs, key_index, assoc_insert, theme_insert};
use crate::text::{str_eq, concat, owned};

verus! {

/// Each key occurs once.
pub open spec fn unique_keys(v: Seq<(Seq<char>, Seq<char>)>) -> bool {
    forall|i: int, j: int| 0 <= i < j < v.len() ==> v[i].0 != v[j].0
}

/// The key is present.
pub open spec fn has_entry(v: Seq<(Seq<char>, Seq<char>)>, k: Seq<char>) -> bool {
    exists|i: int| 0 <= i < v.len() && v[i].0 == k
}

pub proof fn lemma_key_index(v: Seq<(Seq<char>, Seq<char>)>, k: Seq<char>, i: int)
    requires
        0 <= i <= v.len(),
    ensures
        key_index(v, k, i) matches Some(j) ==> i <= j < v.len() && v[j].0 == k
            && forall|m: int| i <= m < j ==> v[m].0 != k,
        key_index(v, k, i) is None ==> forall|m: int| i <= m < v.len() ==> v[m].0 != k,
    decreases v.len() - i,
{
    if i < v.len() && v[i].0 != k {
        lemma_key_index(v, k, i + 1);
    }
}

/// Inserting into an association list keeps each key once and makes the
/// key present.
pub proof fn lemma_assoc_insert(v: Seq<(Seq<char>, Seq<char>)>, k: Seq<char>, x: Seq<char>)
    ensures
        unique_keys(v) ==> unique_keys(assoc_insert(v, k, x)),
        has_entry(assoc_insert(v, k, x), k),
        forall|q: Seq<char>| has_entry(assoc_insert(v, k, x), q) <==> (q == k || has_entry(v, q)),
{
    lemma_key_index(v, k, 0);
    let r = assoc_insert(v, k, x);
    match key_index(v, k, 0) {
        Some(j) => {
            assert(r[j].0 == k);
            assert forall|q: Seq<char>| has_entry(r, q) <==> (q == k || has_entry(v, q)) by {
                if has_entry(v, q) {
                    let m = choose|m: int| 0 <= m < v.len() && v[m].0 == q;
                    assert(r[m].0 == q);
                }
                if has_entry(r, q) {
                    let m = choose|m: int| 0 <= m < r.len() && r[m].0 == q;
                    assert(m == j || v[m].0 == q);
                }
            }
        },
        None => {
            assert(r[v.len() as int].0 == k);
            assert forall|q: Seq<char>| has_entry(r, q) <==> (q == k || has_entry(v, q)) by {
                if has_entry(v, q) {
                    let m = choose|m: int| 0 <= m < v.len() && v[m].0 == q;
                    assert(r[m].0 == q);
                }
                if has_entry(r, q) {
                    let m = choose|m: int| 0 <= m < r.len() && r[m].0 == q;
                    assert(m == v.len() || v[m].0 == q);
                }
            }
        },
    }
}

/// The multipliers of the default spacing scale.
pub open spec fn spacing_scale() -> Seq<Seq<char>> {
    seq![
        "0"@, "px"@, "0.5"@, "1"@, "1.5"@, "2"@, "2.5"@, "3"@, "3.5"@, "4"@, "5"@, "6"@, "7"@, "8"@, "9"@,
        "10"@, "11"@, "12"@, "14"@, "16"@, "20"@, "24"@, "28"@, "32"@, "36"@, "40"@, "44"@, "48"@, "52"@,
        "56"@, "60"@, "64"@, "72"@, "80"@, "96"@,
    ]
}

/// `--spacing-{n}` for each multiplier `n` of `steps`, inserted in order.
pub open spec fn add_spacing(vars: Seq<(Seq<char>, Seq<char>)>, steps: Seq<Seq<char>>) -> Seq<(Seq<char>, Seq<char>)>
    decreases steps.len(),
{
    if steps.len() == 0 {
        vars
    } else {
        add_spacing(assoc_insert(vars, "--spacing-"@ + steps[0], "--spacing"@), steps.drop_first())
    }
}

/// The theme of a stylesheet's custom properties: where `--spacing` is set,
/// each step of the spacing scale gets a key of its own.
pub open spec fn theme_of(vars: Seq<(Seq<char>, Seq<char>)>) -> Seq<(Seq<char>, Seq<char>)> {
    if has_entry(vars, "--spacing"@) { add_spacing(vars, spacing_scale()) } else { vars }
}

/// `q` is the key of a step of `steps`.
pub open spec fn is_scale_key(steps: Seq<Seq<char>>, q: Seq<char>) -> bool {
    exists|i: int| 0 <= i < steps.len() && q == "--spacing-"@ + #[trigger] steps[i]
}

proof fn lemma_add_spacing_keys(vars: Seq<(Seq<char>, Seq<char>)>, steps: Seq<Seq<char>>)
    ensures
        forall|q: Seq<char>| has_entry(add_spacing(vars, steps), q) <==> (has_entry(vars, q) || is_scale_key(steps, q)),
    decreases steps.len(),
{
    if steps.len() > 0 {
        let k0 = "--spacing-"@ + steps[0];
        let v1 = assoc_insert(vars, k0, "--spacing"@);
        lemma_assoc_insert(vars, k0, "--spacing"@);
        lemma_add_spacing_keys(v1, steps.drop_first());
        assert forall|q: Seq<char>| is_scale_key(steps, q) <==> (q == k0 || is_scale_key(steps.drop_first(), q)) by {
            if is_scale_key(steps, q) {
                let i = choose|i: int| 0 <= i < steps.len() && q == "--spacing-"@ + #[trigger] steps[i];
                if i > 0 {
                    assert(steps.drop_first()[i - 1] == steps[i]);
                }
            }
            if is_scale_key(steps.drop_first(), q) {
                let i = choose|i: int| 0 <= i < steps.drop_first().len() && q == "--spacing-"@ + #[trigger] steps.drop_first()[i];
                assert(steps[i + 1] == steps.drop_first()[i]);
            }
            if q == k0 {
                assert(q == "--spacing-"@ + steps[0]);
            }
        }
    }
}

/// The theme has exactly the stylesheet's custom properties, plus, where
/// `--spacing` is set, one `--spacing-{n}` key per step of the spacing
/// scale.
pub proof fn law_theme_keys(vars: Seq<(Seq<char>, Seq<char>)>)
    ensures
        forall|q: Seq<char>| has_entry(theme_of(vars), q) <==> (has_entry(vars, q)
            || (has_entry(vars, "--spacing"@) && is_scale_key(spacing_scale(), q))),
{
    lemma_add_spacing_keys(vars, spacing_scale());
}

pub proof fn lemma_add_spacing_unique(vars: Seq<(Seq<char>, Seq<char>)>, steps: Seq<Seq<char>>)
    requires
        unique_keys(vars),
    ensures
        unique_keys(add_spacing(vars, steps)),
    decreases steps.len(),
{
    if steps.len() > 0 {
        lemma_assoc_insert(vars, "--spacing-"@ + steps[0], "--spacing"@);
        lemma_add_spacing_unique(assoc_insert(vars, "--spacing-"@ + steps[0], "--spacing"@), steps.drop_first());
    }
}

#[derive(Debug, Default, Clone)]
pub struct Theme {
    /// Custom property name and value, each name once.
    pub vars: Vec<(String, String)>,
}

impl View for Theme {
    type V = Seq<(Seq<char>, Seq<char>)>;

    open spec fn view(&self) -> Seq<(Seq<char>, Seq<char>)> {
        pairs(self.vars@)
    }
}

fn spacing_steps() -> (r: Vec<&'static str>)
    ensures
        r@.map_values(|s: &str| s@) == spacing_scale(),
{
    let r = vec![
        "0", "px", "0.5", "1", "1.5", "2", "2.5", "3", "3.5", "4", "5", "6", "7", "8", "9", "10", "11",
        "12", "14", "16", "20", "24", "28", "32", "36", "40", "44", "48", "52", "56", "60", "64", "72",
        "80", "96",
    ];
    assert(r@.map_values(|s: &str| s@) =~= spacing_scale());
    r
}

fn has_var(vars: &Vec<(String, String)>, key: &str) -> (r: bool)
    ensures
        r == has_entry(pairs(vars@), key@),
{
    let mut i: usize = 0;
    while i < vars.len()
        invariant
            0 <= i <= vars@.len(),
            forall|j: int| 0 <= j < i ==> vars@[j].0@ != key@,
        decreases vars@.len() - i,
    {
        if str_eq(vars[i].0.as_str(), key) {
            assert(pairs(vars@)[i as int].0 == key@);
            return true;
        }
        i = i + 1;
    }
    false
}

fn copy_vars(vars: &Vec<(String, String)>) -> (r: Vec<(String, String)>)
    ensures
        pairs(r@) == pairs(vars@),
{
    let mut r: Vec<(String, String)> = Vec::new();
    let mut i: usize = 0;
    while i < vars.len()
        invariant
            0 <= i <= vars@.len(),
            pairs(r@) == pairs(vars@).subrange(0, i as int),
        decreases vars@.len() - i,
    {
        let k = vars[i].0.clone();
        let v = vars[i].1.clone();
        let ghost before = pairs(r@);
        r.push((k, v));
        assert(pairs(r@) =~= before.push((k@, v@)));
        assert(pairs(vars@).subrange(0, i + 1) =~= pairs(vars@).subrange(0, i as int).push(pairs(vars@)[i as int]));
        i = i + 1;
    }
    assert(pairs(vars@).subrange(0, i as int) =~= pairs(vars@));
    r
}

impl Theme {
    /// The theme of a stylesheet: its custom properties, plus one key per
    /// spacing step (`--spacing-4`, ...) where `--spacing` is set.
    pub fn from_program(prog: &CssProgram) -> (r: Theme)
        ensures
            r@ == theme_of(pairs(prog.theme_vars@)),
            unique_keys(pairs(prog.theme_vars@)) ==> unique_keys(r@),
    {
        let mut vars = copy_vars(&prog.theme_vars);
        if has_var(&vars, "--spacing") {
            let steps = spacing_steps();
            let ghost all = steps@.map_values(|s: &str| s@);
            let ghost start = pairs(vars@);
            let mut i: usize = 0;
            assert(all.skip(0) =~= all);
            while i < steps.len()
                invariant
                    all == steps@.map_values(|s: &str| s@),
                    0 <= i <= steps@.len(),
                    add_spacing(start, all) == add_spacing(pairs(vars@), all.skip(i as int)),
                    unique_keys(start) ==> unique_keys(pairs(vars@)),
                decreases steps@.len() - i,
            {
                let key = concat("--spacing-", steps[i]);
                let ghost before = pairs(vars@);
                proof {
                    assert(all.skip(i as int)[0] == steps@[i as int]@);
                    assert(all.skip(i as int).drop_first() =~= all.skip(i + 1));
                    lemma_assoc_insert(before, key@, "--spacing"@);
                }
                theme_insert(&mut vars, key, owned("--spacing"));
                i = i + 1;
            }
            assert(all.skip(i as int) =~= Seq::<Seq<char>>::empty());
        }
        Theme { vars }
    }

    /// Is the custom property set?
    pub fn has_key(&self, key: &str) -> (r: bool)
        ensures
            r == has_entry(self@, key@),
    {
        has_var(&self.vars, key)
    }

    /// Is the custom property `prefix` + `value` set (e.g. `--text-` + `2xl`)?
    pub fn has_key_with_prefix(&self, prefix: &str, value: &str) -> (r: bool)
        ensures
            r == has_entry(self@, prefix@ + value@),
    {
        let key = concat(prefix, value);
        has_var(&self.vars, key.as_str())
    }
}

} // verus!
