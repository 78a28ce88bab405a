//! Prefix trie over the utility names of a design system: resolution walks
//! the candidate's bytes once instead of scanning every utility name.
//!
//! Each node stands for the byte string on its path from the root. A static
//! utility ends at the node of its whole name; a wildcard `{prefix}*` ends at
//! the node of its prefix. Utility names are unique, so at most one static
//! and one wildcard utility end at a node.

use vstd::prelude::*;
use std::collections::HashMap;
use crate::text::{enc, ends_with, lemma_enc_injective};
use crate::utility::{is_wildcard, wild_fits, static_index, best_wild, names_of, entries_view, Alternative};

verus! {

broadcast use {vstd::std_specs::hash::group_hash_axioms, vstd::utf8::encode_utf8_valid_utf8, vstd::utf8::encode_utf8_decode_utf8};

/// The key of the edge from node `i` along byte `b`.
pub open spec fn ekey(i: int, b: u8) -> u128 {
    (i * 256 + b as int) as u128
}

/// Nodes are numbered from the root (node 0); a node's slots name the
/// utilities, by their index in the catalog, that end there.
#[derive(Clone)]
pub struct Trie {
    /// `node * 256 + byte` -> child node.
    edges: HashMap<u128, usize>,
    /// Per node: the static utility whose name ends here.
    static_util: Vec<Option<usize>>,
    /// Per node: the wildcard utility whose prefix ends here.
    wildcard_util: Vec<Option<usize>>,
    /// Per node: the bytes on its path from the root.
    paths: Ghost<Seq<Seq<u8>>>,
}

/// Some node has path `q`.
pub open spec fn has_node(p: Seq<Seq<u8>>, q: Seq<u8>) -> bool {
    exists|i: int| 0 <= i < p.len() && #[trigger] p[i] == q
}

/// The node path at which a utility ends.
pub open spec fn end_path(name: Seq<char>) -> Seq<u8> {
    if is_wildcard(name) {
        enc(name).drop_last()
    } else {
        enc(name)
    }
}

impl Trie {
    /// The shape of the trie: node 0 is the root, node paths are distinct and
    /// closed under prefixes, an edge leads from a node to the node one byte
    /// longer, and every such pair of nodes is joined by an edge.
    pub closed spec fn shape(self) -> bool {
        let n = self.paths@.len();
        let p = self.paths@;
        let e = self.edges@;
        &&& n >= 1
        &&& n <= usize::MAX
        &&& self.static_util@.len() == n
        &&& self.wildcard_util@.len() == n
        &&& p[0] == Seq::<u8>::empty()
        &&& forall|i: int, b: u8| n <= i < 0x1_0000_0000_0000_0000 ==> !e.contains_key(#[trigger] ekey(i, b))
        &&& forall|i: int, j: int| 0 <= i < n && 0 <= j < n && #[trigger] p[i] == #[trigger] p[j] ==> i == j
        &&& forall|i: int, b: u8| 0 <= i < n && #[trigger] e.contains_key(ekey(i, b)) ==>
                (e[ekey(i, b)] as int) < n && p[e[ekey(i, b)] as int] == p[i].push(b)
        &&& forall|i: int, j: int| 0 <= i < n && 0 <= j < n && #[trigger] p[j].len() > 0 && p[j].drop_last() == #[trigger] p[i] ==>
                e.contains_key(ekey(i, p[j].last()))
        &&& forall|j: int, k: int| 0 <= j < n && 0 <= k <= p[j].len() ==> #[trigger] has_node(p, p[j].subrange(0, k))
    }

    /// The trie holds exactly the first `m` names: each ends at the node of
    /// its path, and every slot names one of them.
    pub closed spec fn holds(self, names: Seq<Seq<char>>, m: int) -> bool {
        let n = self.paths@.len();
        let p = self.paths@;
        &&& self.shape()
        &&& 0 <= m <= names.len()
        &&& forall|i: int| 0 <= i < n && (#[trigger] self.static_util@[i]) is Some ==> {
                let u = self.static_util@[i]->0 as int;
                &&& u < m
                &&& !is_wildcard(names[u])
                &&& enc(names[u]) == p[i]
            }
        &&& forall|i: int| 0 <= i < n && (#[trigger] self.wildcard_util@[i]) is Some ==> {
                let u = self.wildcard_util@[i]->0 as int;
                &&& u < m
                &&& is_wildcard(names[u])
                &&& enc(names[u]) == p[i].push(42u8)
            }
        &&& forall|u: int| 0 <= u < m ==> #[trigger] self.placed(names, u)
    }

    /// Utility `u` ends at the node of its path.
    pub closed spec fn placed(self, names: Seq<Seq<char>>, u: int) -> bool {
        exists|i: int| 0 <= i < self.paths@.len() && #[trigger] self.paths@[i] == end_path(names[u]) && (if is_wildcard(names[u]) {
            self.wildcard_util@[i] == Some(u as usize)
        } else {
            self.static_util@[i] == Some(u as usize)
        })
    }

    /// The trie of all the names.
    pub open spec fn wf(self, names: Seq<Seq<char>>) -> bool {
        self.holds(names, names.len() as int)
    }
}

/// The bytes of a wildcard name are its prefix's bytes and `*`.
proof fn lemma_star(name: Seq<char>)
    requires
        is_wildcard(name),
    ensures
        enc(name).len() >= 1,
        enc(name).last() == 42u8,
        enc(name) == end_path(name).push(42u8),
{
    reveal_strlit("*");
    vstd::utf8::is_ascii_chars_encode_utf8("*"@);
    let b = enc(name);
    let s = enc("*"@);
    assert(s.len() == 1 && s[0] == 42u8);
    assert(s.is_suffix_of(b));
    assert(b.subrange(b.len() - 1, b.len() as int) == s);
    assert(b[b.len() - 1] == s[0]);
    assert(b =~= b.drop_last().push(42u8));
}

/// Edge keys of distinct (node, byte) pairs differ.
proof fn lemma_ekey(i: int, b: u8, j: int, c: u8)
    requires
        0 <= i < 0x1_0000_0000_0000_0000,
        0 <= j < 0x1_0000_0000_0000_0000,
        ekey(i, b) == ekey(j, c),
    ensures
        i == j,
        b == c,
{
    assert(0 <= i * 256 + (b as int) < 0x1_0000_0000_0000_0000_0000_0000_0000_0000);
    assert(0 <= j * 256 + (c as int) < 0x1_0000_0000_0000_0000_0000_0000_0000_0000);
    assert(i * 256 + (b as int) == j * 256 + (c as int));
}

/// A new node one byte below `node` keeps the trie's shape and contents.
proof fn lemma_grow(t1: Trie, t2: Trie, node: int, b: u8, names: Seq<Seq<char>>, m: int)
    requires
        t1.holds(names, m),
        0 <= node < t1.paths@.len(),
        t1.paths@.len() + 1 <= usize::MAX,
        !t1.edges@.contains_key(ekey(node, b)),
        t2.paths@ == t1.paths@.push(t1.paths@[node].push(b)),
        t2.static_util@ == t1.static_util@.push(None),
        t2.wildcard_util@ == t1.wildcard_util@.push(None),
        t2.edges@ == t1.edges@.insert(ekey(node, b), t1.paths@.len() as usize),
    ensures
        t2.holds(names, m),
{
    let p1 = t1.paths@;
    let p2 = t2.paths@;
    let e1 = t1.edges@;
    let e2 = t2.edges@;
    let n1 = p1.len() as int;
    let n2 = p2.len() as int;
    let q = p1[node].push(b);
    assert(q.drop_last() =~= p1[node]);
    assert forall|x: int| 0 <= x < n1 implies p1[x] != q by {
        if p1[x] == q {
            assert(p1[x].drop_last() == p1[node]);
            assert(e1.contains_key(ekey(node, p1[x].last())));
        }
    }
    assert forall|i: int, j: int| 0 <= i < n2 && 0 <= j < n2 && #[trigger] p2[i] == #[trigger] p2[j] implies i == j by {
        if i < n1 && j < n1 {
            assert(p1[i] == p1[j]);
        }
    }
    assert forall|i: int, c: u8| n2 <= i < 0x1_0000_0000_0000_0000 implies !e2.contains_key(#[trigger] ekey(i, c)) by {
        if ekey(i, c) == ekey(node, b) {
            lemma_ekey(i, c, node, b);
        }
        assert(!e1.contains_key(ekey(i, c)));
    }
    assert forall|i: int, c: u8| 0 <= i < n2 && #[trigger] e2.contains_key(ekey(i, c)) implies
        (e2[ekey(i, c)] as int) < n2 && p2[e2[ekey(i, c)] as int] == p2[i].push(c) by {
        if ekey(i, c) == ekey(node, b) {
            lemma_ekey(i, c, node, b);
            assert(e2[ekey(i, c)] == n1 as usize);
            assert(p2[n1] == q);
            assert(p2[node] == p1[node]);
        } else {
            assert(e1.contains_key(ekey(i, c)));
            if i == n1 {
                assert(!e1.contains_key(ekey(n1, c)));
            }
            assert(e2[ekey(i, c)] == e1[ekey(i, c)]);
            assert(p2[i] == p1[i]);
            assert(p2[e1[ekey(i, c)] as int] == p1[e1[ekey(i, c)] as int]);
        }
    }
    assert forall|i: int, j: int| 0 <= i < n2 && 0 <= j < n2 && #[trigger] p2[j].len() > 0 && p2[j].drop_last() == #[trigger] p2[i] implies
        e2.contains_key(ekey(i, p2[j].last())) by {
        if j == n1 {
            if i == n1 {
                assert(q.drop_last().len() < q.len());
            }
            assert(p1[i] == p1[node]);
            assert(i == node);
        } else if i == n1 {
            assert(has_node(p1, p1[j].subrange(0, p1[j].len() - 1)));
            let x = choose|x: int| 0 <= x < n1 && #[trigger] p1[x] == p1[j].subrange(0, p1[j].len() - 1);
            assert(p1[j].subrange(0, p1[j].len() - 1) =~= p1[j].drop_last());
            assert(p1[x] == q);
        } else {
            assert(e1.contains_key(ekey(i, p1[j].last())));
        }
    }
    assert forall|j: int, k: int| 0 <= j < n2 && 0 <= k <= p2[j].len() implies #[trigger] has_node(p2, p2[j].subrange(0, k)) by {
        if j < n1 {
            assert(has_node(p1, p1[j].subrange(0, k)));
            let x = choose|x: int| 0 <= x < n1 && #[trigger] p1[x] == p1[j].subrange(0, k);
            assert(p2[x] == p2[j].subrange(0, k));
        } else if k == q.len() {
            assert(p2[n1] == p2[j].subrange(0, k));
        } else {
            assert(has_node(p1, p1[node].subrange(0, k)));
            let x = choose|x: int| 0 <= x < n1 && #[trigger] p1[x] == p1[node].subrange(0, k);
            assert(q.subrange(0, k) =~= p1[node].subrange(0, k));
            assert(p2[x] == p2[j].subrange(0, k));
        }
    }
    assert forall|i: int| 0 <= i < n2 && (#[trigger] t2.static_util@[i]) is Some implies {
        let u = t2.static_util@[i]->0 as int;
        &&& u < m
        &&& !is_wildcard(names[u])
        &&& enc(names[u]) == p2[i]
    } by {
        assert(i < n1 && t1.static_util@[i] is Some);
    }
    assert forall|i: int| 0 <= i < n2 && (#[trigger] t2.wildcard_util@[i]) is Some implies {
        let u = t2.wildcard_util@[i]->0 as int;
        &&& u < m
        &&& is_wildcard(names[u])
        &&& enc(names[u]) == p2[i].push(42u8)
    } by {
        assert(i < n1 && t1.wildcard_util@[i] is Some);
    }
    assert forall|u: int| 0 <= u < m implies #[trigger] t2.placed(names, u) by {
        assert(t1.placed(names, u));
        let x = choose|x: int| 0 <= x < n1 && #[trigger] p1[x] == end_path(names[u]) && (if is_wildcard(names[u]) {
            t1.wildcard_util@[x] == Some(u as usize)
        } else {
            t1.static_util@[x] == Some(u as usize)
        });
        assert(p2[x] == end_path(names[u]));
    }
}

/// Recording utility `u` at the node of its path adds it to the trie.
proof fn lemma_fill(t1: Trie, t2: Trie, node: int, names: Seq<Seq<char>>, u: int)
    requires
        t1.holds(names, u),
        0 <= u < names.len(),
        u <= usize::MAX,
        crate::conflict::distinct_names(names),
        0 <= node < t1.paths@.len(),
        t1.paths@[node] == end_path(names[u]),
        t2.paths@ == t1.paths@,
        t2.edges@ == t1.edges@,
        is_wildcard(names[u]) ==> t2.static_util@ == t1.static_util@ && t2.wildcard_util@ == t1.wildcard_util@.update(node, Some(u as usize)),
        !is_wildcard(names[u]) ==> t2.wildcard_util@ == t1.wildcard_util@ && t2.static_util@ == t1.static_util@.update(node, Some(u as usize)),
    ensures
        t2.holds(names, u + 1),
{
    let p = t1.paths@;
    let n = p.len() as int;
    let w = is_wildcard(names[u]);
    if w {
        lemma_star(names[u]);
        if t1.wildcard_util@[node] is Some {
            let v = t1.wildcard_util@[node]->0 as int;
            lemma_enc_injective(names[v], names[u]);
        }
    } else {
        if t1.static_util@[node] is Some {
            let v = t1.static_util@[node]->0 as int;
            lemma_enc_injective(names[v], names[u]);
        }
    }
    assert forall|i: int| 0 <= i < n && (#[trigger] t2.static_util@[i]) is Some implies {
        let v = t2.static_util@[i]->0 as int;
        &&& v < u + 1
        &&& !is_wildcard(names[v])
        &&& enc(names[v]) == p[i]
    } by {
        if i != node || w {
            assert(t1.static_util@[i] is Some);
        }
    }
    assert forall|i: int| 0 <= i < n && (#[trigger] t2.wildcard_util@[i]) is Some implies {
        let v = t2.wildcard_util@[i]->0 as int;
        &&& v < u + 1
        &&& is_wildcard(names[v])
        &&& enc(names[v]) == p[i].push(42u8)
    } by {
        if i != node || !w {
            assert(t1.wildcard_util@[i] is Some);
        }
    }
    assert forall|v: int| 0 <= v < u + 1 implies #[trigger] t2.placed(names, v) by {
        if v == u {
            assert(p[node] == end_path(names[u]));
        } else {
            assert(t1.placed(names, v));
            let x = choose|x: int| 0 <= x < n && #[trigger] p[x] == end_path(names[v]) && (if is_wildcard(names[v]) {
                t1.wildcard_util@[x] == Some(v as usize)
            } else {
                t1.static_util@[x] == Some(v as usize)
            });
            assert(t2.paths@[x] == end_path(names[v]));
        }
    }
}

impl Trie {
    /// The trie with the root alone.
    fn new(Ghost(names): Ghost<Seq<Seq<char>>>) -> (r: Trie)
        ensures
            r.holds(names, 0),
    {
        let mut st: Vec<Option<usize>> = Vec::new();
        st.push(None);
        let mut wd: Vec<Option<usize>> = Vec::new();
        wd.push(None);
        let gp: Ghost<Seq<Seq<u8>>> = Ghost(Seq::<Seq<u8>>::empty().push(Seq::<u8>::empty()));
        let r = Trie { edges: HashMap::new(), static_util: st, wildcard_util: wd, paths: gp };
        assert forall|j: int, k: int| 0 <= j < 1 && 0 <= k <= r.paths@[j].len() implies #[trigger] has_node(r.paths@, r.paths@[j].subrange(0, k)) by {
            assert(r.paths@[0] == r.paths@[j].subrange(0, k));
        }
        r
    }

    /// Add utility `u`, whose node path is the first `plen` bytes of `bytes`.
    fn insert(&mut self, bytes: &[u8], plen: usize, wildcard: bool, u: usize, Ghost(names): Ghost<Seq<Seq<char>>>)
        requires
            old(self).holds(names, u as int),
            u < names.len(),
            crate::conflict::distinct_names(names),
            plen <= bytes@.len(),
            bytes@.subrange(0, plen as int) == end_path(names[u as int]),
            wildcard == is_wildcard(names[u as int]),
        ensures
            final(self).holds(names, u + 1),
    {
        let mut node: usize = 0;
        let mut i: usize = 0;
        while i < plen
            invariant
                self.holds(names, u as int),
                u < names.len(),
                plen <= bytes@.len(),
                0 <= i <= plen,
                (node as int) < self.paths@.len(),
                self.paths@[node as int] == bytes@.subrange(0, i as int),
            decreases plen - i,
        {
            let b = bytes[i];
            let key: u128 = (node as u128) * 256 + (b as u128);
            assert(key == ekey(node as int, b));
            let next: usize = match self.edges.get(&key) {
                Some(nx) => *nx,
                None => {
                    let ghost t1 = *self;
                    let n = self.static_util.len();
                    self.static_util.push(None);
                    self.wildcard_util.push(None);
                    let _ = self.static_util.len();
                    let ghost q = self.paths@[node as int].push(b);
                    self.paths = Ghost(self.paths@.push(q));
                    self.edges.insert(key, n);
                    proof { lemma_grow(t1, *self, node as int, b, names, u as int); }
                    n
                },
            };
            proof {
                assert(self.edges@.contains_key(ekey(node as int, b)));
                assert(bytes@.subrange(0, i + 1) =~= bytes@.subrange(0, i as int).push(b));
            }
            node = next;
            i = i + 1;
        }
        let ghost t1 = *self;
        if wildcard {
            self.wildcard_util.set(node, Some(u));
        } else {
            self.static_util.set(node, Some(u));
        }
        proof { lemma_fill(t1, *self, node as int, names, u as int); }
    }

    /// The trie of the names of a utility list.
    pub(crate) fn build(utilities: &Vec<(String, Vec<Alternative>)>) -> (r: Trie)
        requires
            crate::conflict::distinct_names(names_of(entries_view(utilities@))),
        ensures
            r.wf(names_of(entries_view(utilities@))),
    {
        let ghost names = names_of(entries_view(utilities@));
        let mut t = Trie::new(Ghost(names));
        let mut k: usize = 0;
        while k < utilities.len()
            invariant
                names == names_of(entries_view(utilities@)),
                names.len() == utilities@.len(),
                crate::conflict::distinct_names(names),
                0 <= k <= utilities@.len(),
                t.holds(names, k as int),
            decreases utilities@.len() - k,
        {
            let name = utilities[k].0.as_str();
            let b = name.as_bytes();
            assert(names[k as int] == name@);
            let w = ends_with(name, "*");
            let plen = if w {
                proof { lemma_star(name@); }
                b.len() - 1
            } else {
                b.len()
            };
            proof {
                if w {
                    assert(b@.subrange(0, plen as int) =~= enc(name@).drop_last());
                } else {
                    assert(b@.subrange(0, plen as int) =~= enc(name@));
                }
            }
            t.insert(b, plen, w, k, Ghost(names));
            k = k + 1;
        }
        t
    }
}

/// The first static name equal to the candidate is the only one.
proof fn lemma_static_index(names: Seq<Seq<char>>, cand: Seq<char>, i: int)
    requires
        0 <= i <= names.len(),
    ensures
        static_index(names, cand, i) matches Some(k) ==> i <= k < names.len() && !is_wildcard(names[k]) && names[k] == cand,
        static_index(names, cand, i) is None ==> forall|k: int| i <= k < names.len() ==> is_wildcard(#[trigger] names[k]) || names[k] != cand,
        crate::conflict::distinct_names(names) ==> forall|k: int| i <= k < names.len() && !is_wildcard(#[trigger] names[k]) && names[k] == cand ==> static_index(names, cand, i) == Some(k),
    decreases names.len() - i,
{
    if i < names.len() {
        lemma_static_index(names, cand, i + 1);
    }
}

/// The wildcard chosen among the first `n` names fits and has the longest
/// prefix of those that fit; none is chosen when none fits.
proof fn lemma_best_wild_longest(names: Seq<Seq<char>>, cand: Seq<char>, n: int)
    requires
        0 <= n <= names.len(),
    ensures
        best_wild(names, cand, n) matches Some(j) ==> 0 <= j < n && wild_fits(names[j], cand)
            && forall|k: int| 0 <= k < n && #[trigger] wild_fits(names[k], cand) ==> enc(names[k]).len() <= enc(names[j]).len(),
        best_wild(names, cand, n) is None ==> forall|k: int| 0 <= k < n ==> !#[trigger] wild_fits(names[k], cand),
    decreases n,
{
    if n > 0 {
        lemma_best_wild_longest(names, cand, n - 1);
    }
}

/// Two fitting wildcards with prefixes of one length are one name.
proof fn lemma_fits_same(names: Seq<Seq<char>>, cand: Seq<char>, j: int, k: int)
    requires
        crate::conflict::distinct_names(names),
        0 <= j < names.len(),
        0 <= k < names.len(),
        wild_fits(names[j], cand),
        wild_fits(names[k], cand),
        enc(names[j]).len() == enc(names[k]).len(),
    ensures
        j == k,
{
    lemma_star(names[j]);
    lemma_star(names[k]);
    let a = enc(names[j]);
    let b = enc(names[k]);
    assert(a.drop_last() =~= a.subrange(0, a.len() - 1));
    assert(b.drop_last() =~= b.subrange(0, b.len() - 1));
    assert(a =~= b);
    lemma_enc_injective(names[j], names[k]);
}

/// No node lies below a missing edge.
proof fn lemma_no_deeper(t: Trie, node: int, c: u8, x: int)
    requires
        t.shape(),
        0 <= node < t.paths@.len(),
        0 <= x < t.paths@.len(),
        !t.edges@.contains_key(ekey(node, c)),
    ensures
        t.paths@[x].len() <= t.paths@[node].len() || t.paths@[x].subrange(0, t.paths@[node].len() as int + 1) != t.paths@[node].push(c),
{
    let p = t.paths@;
    let l = p[node].len() as int + 1;
    if p[x].len() > p[node].len() && p[x].subrange(0, l) == p[node].push(c) {
        assert(has_node(p, p[x].subrange(0, l)));
        let y = choose|y: int| 0 <= y < p.len() && #[trigger] p[y] == p[x].subrange(0, l);
        assert(p[y].drop_last() =~= p[node]);
        assert(p[y].last() == c);
    }
}

impl Trie {
    /// Match a candidate name: the exact static utility first, else the
    /// wildcard with the longest prefix that leaves a non-empty value, with
    /// the byte length of that prefix.
    pub(crate) fn lookup(&self, cand: &str, Ghost(names): Ghost<Seq<Seq<char>>>) -> (r: Option<(usize, Option<usize>)>)
        requires
            self.wf(names),
            crate::conflict::distinct_names(names),
        ensures
            r matches Some((u, _)) ==> (u as int) < names.len(),
            r matches Some((u, None)) ==> static_index(names, cand@, 0) == Some(u as int),
            r matches Some((u, Some(d))) ==> static_index(names, cand@, 0) is None
                && best_wild(names, cand@, names.len() as int) == Some(u as int) && d == enc(names[u as int]).len() - 1,
            r is None ==> static_index(names, cand@, 0) is None && best_wild(names, cand@, names.len() as int) is None,
    {
        let cb = cand.as_bytes();
        let ghost p = self.paths@;
        let mut node: usize = 0;
        let mut wildcard: Option<(usize, usize)> = None;
        let mut complete = true;
        let mut i: usize = 0;
        while i < cb.len() && complete
            invariant
                self.wf(names),
                p == self.paths@,
                cb@ == enc(cand@),
                0 <= i <= cb@.len(),
                (node as int) < p.len(),
                p[node as int] == cb@.subrange(0, i as int),
                !complete ==> i < cb@.len() && !self.edges@.contains_key(ekey(node as int, cb@[i as int])),
                wildcard matches Some((u, d)) ==> (u as int) < names.len() && wild_fits(names[u as int], cand@)
                    && d == enc(names[u as int]).len() - 1 && d <= i,
                forall|v: int| 0 <= v < names.len() && #[trigger] wild_fits(names[v], cand@) && enc(names[v]).len() - 1 <= i ==>
                    (wildcard matches Some((u, d)) && enc(names[v]).len() - 1 <= d),
            decreases cb@.len() - i + (if complete { 1int } else { 0int }),
        {
            let b = cb[i];
            let key: u128 = (node as u128) * 256 + (b as u128);
            assert(key == ekey(node as int, b));
            match self.edges.get(&key) {
                Some(nx) => {
                    let ghost old_node = node as int;
                    let ghost old_wild = wildcard;
                    node = *nx;
                    assert(cb@.subrange(0, i + 1) =~= cb@.subrange(0, i as int).push(b));
                    if i + 1 < cb.len() {
                        match self.wildcard_util[node] {
                            Some(u) => {
                                proof {
                                    let e = enc(names[u as int]);
                                    assert(e == p[node as int].push(42u8));
                                    assert(e.subrange(0, e.len() - 1) =~= cb@.subrange(0, i + 1));
                                }
                                wildcard = Some((u, i + 1));
                            },
                            None => {},
                        }
                    }
                    proof {
                        assert forall|v: int| 0 <= v < names.len() && #[trigger] wild_fits(names[v], cand@) && enc(names[v]).len() - 1 <= i + 1 implies
                            (wildcard matches Some((u, d)) && enc(names[v]).len() - 1 <= d) by {
                            if enc(names[v]).len() - 1 == i + 1 {
                                let e = enc(names[v]);
                                assert(self.placed(names, v));
                                lemma_star(names[v]);
                                let x = choose|x: int| 0 <= x < p.len() && #[trigger] p[x] == end_path(names[v]) && (if is_wildcard(names[v]) {
                                    self.wildcard_util@[x] == Some(v as usize)
                                } else {
                                    self.static_util@[x] == Some(v as usize)
                                });
                                assert(e.drop_last() =~= e.subrange(0, e.len() - 1));
                                assert(p[x] == p[node as int]);
                            }
                        }
                    }
                    i = i + 1;
                },
                None => {
                    complete = false;
                },
            }
        }
        proof {
            lemma_static_index(names, cand@, 0);
            lemma_best_wild_longest(names, cand@, names.len() as int);
            if !complete {
                assert forall|v: int| 0 <= v < names.len() && #[trigger] wild_fits(names[v], cand@) implies enc(names[v]).len() - 1 <= i by {
                    assert(self.placed(names, v));
                    lemma_star(names[v]);
                    let x = choose|x: int| 0 <= x < p.len() && #[trigger] p[x] == end_path(names[v]) && (if is_wildcard(names[v]) {
                        self.wildcard_util@[x] == Some(v as usize)
                    } else {
                        self.static_util@[x] == Some(v as usize)
                    });
                    lemma_no_deeper(*self, node as int, cb@[i as int], x);
                    let e = enc(names[v]);
                    assert(e.drop_last() =~= e.subrange(0, e.len() - 1));
                    if e.len() - 1 > i {
                        assert(p[x].subrange(0, i + 1) =~= cb@.subrange(0, i + 1));
                        assert(cb@.subrange(0, i + 1) =~= p[node as int].push(cb@[i as int]));
                    }
                }
                assert forall|k: int| 0 <= k < names.len() && !is_wildcard(#[trigger] names[k]) implies names[k] != cand@ by {
                    if names[k] == cand@ {
                        assert(self.placed(names, k));
                        let x = choose|x: int| 0 <= x < p.len() && #[trigger] p[x] == end_path(names[k]) && (if is_wildcard(names[k]) {
                            self.wildcard_util@[x] == Some(k as usize)
                        } else {
                            self.static_util@[x] == Some(k as usize)
                        });
                        lemma_no_deeper(*self, node as int, cb@[i as int], x);
                        assert(p[x].subrange(0, i + 1) =~= cb@.subrange(0, i + 1));
                        assert(cb@.subrange(0, i + 1) =~= p[node as int].push(cb@[i as int]));
                    }
                }
            } else {
                assert(cb@.subrange(0, i as int) =~= cb@);
            }
        }
        if complete {
            match self.static_util[node] {
                Some(u) => {
                    proof { lemma_enc_injective(names[u as int], cand@); }
                    return Some((u, None));
                },
                None => {
                    proof {
                        assert forall|k: int| 0 <= k < names.len() && !is_wildcard(#[trigger] names[k]) implies names[k] != cand@ by {
                            if names[k] == cand@ {
                                assert(self.placed(names, k));
                                let x = choose|x: int| 0 <= x < p.len() && #[trigger] p[x] == end_path(names[k]) && (if is_wildcard(names[k]) {
                                    self.wildcard_util@[x] == Some(k as usize)
                                } else {
                                    self.static_util@[x] == Some(k as usize)
                                });
                                assert(p[x] == p[node as int]);
                            }
                        }
                    }
                },
            }
        }
        match wildcard {
            Some((u, d)) => {
                proof {
                    let j = best_wild(names, cand@, names.len() as int)->0;
                    lemma_fits_same(names, cand@, j, u as int);
                }
                Some((u, Some(d)))
            },
            None => None,
        }
    }
}

} // verus!
