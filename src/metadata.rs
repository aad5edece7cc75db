//! String-to-string metadata with unique keys, kept in insertion order.
use vstd::prelude::*;
use crate::text::str_eq;

verus! {

/// Key/value pairs of strings; each key appears at most once.
#[derive(Debug)]
pub struct Metadata {
    entries: Vec<(String, String)>,
}

/// No key occurs twice in `e`.
pub open spec fn keys_unique(e: Seq<(String, String)>) -> bool {
    forall|i: int, j: int|
        0 <= i < e.len() && 0 <= j < e.len() && #[trigger] e[i].0@ == #[trigger] e[j].0@ ==> i == j
}

/// Whether key `k` occurs in `e`.
pub open spec fn has_key(e: Seq<(String, String)>, k: Seq<char>) -> bool {
    exists|i: int| 0 <= i < e.len() && #[trigger] e[i].0@ == k
}

/// The map that the pairs of `e` describe.
pub open spec fn pairs_map(e: Seq<(String, String)>) -> Map<Seq<char>, Seq<char>> {
    Map::new(
        |k: Seq<char>| has_key(e, k),
        |k: Seq<char>| e[choose|i: int| 0 <= i < e.len() && #[trigger] e[i].0@ == k].1@,
    )
}

proof fn lemma_pairs_map_at(e: Seq<(String, String)>, i: int)
    requires
        keys_unique(e),
        0 <= i < e.len(),
    ensures
        pairs_map(e).contains_key(e[i].0@),
        pairs_map(e)[e[i].0@] == e[i].1@,
{
    let k = e[i].0@;
    assert(has_key(e, k));
    let j = choose|j: int| 0 <= j < e.len() && #[trigger] e[j].0@ == k;
    assert(e[j].0@ == e[i].0@);
}

impl View for Metadata {
    type V = Map<Seq<char>, Seq<char>>;

    closed spec fn view(&self) -> Map<Seq<char>, Seq<char>> {
        pairs_map(self.entries@)
    }
}

impl Metadata {
    #[verifier::type_invariant]
    spec fn inv(&self) -> bool {
        keys_unique(self.entries@)
    }

    /// The pairs in insertion order.
    pub closed spec fn spec_entries(&self) -> Seq<(String, String)> {
        self.entries@
    }

    /// Empty metadata.
    pub fn new() -> (r: Self)
        ensures
            r@ == Map::<Seq<char>, Seq<char>>::empty(),
            r.spec_entries().len() == 0,
    {
        let r = Metadata { entries: Vec::new() };
        assert(r@ =~= Map::<Seq<char>, Seq<char>>::empty());
        r
    }

    /// Position of key `k`, if present.
    fn find(&self, k: &str) -> (r: Option<usize>)
        ensures
            r matches Some(i) ==> i < self.entries@.len() && self.entries@[i as int].0@ == k@,
            r is None ==> !has_key(self.entries@, k@),
    {
        let mut i: usize = 0;
        while i < self.entries.len()
            invariant
                i <= self.entries@.len(),
                forall|j: int| 0 <= j < i ==> self.entries@[j].0@ != k@,
            decreases self.entries@.len() - i,
        {
            if str_eq(self.entries[i].0.as_str(), k) {
                return Some(i);
            }
            i = i + 1;
        }
        None
    }

    /// Sets `key` to `value`; an existing key keeps its place, a new key goes last.
    pub fn insert(&mut self, key: String, value: String)
        ensures
            final(self)@ == old(self)@.insert(key@, value@),
    {
        proof { use_type_invariant(&*self); }
        let ghost old_e = self.entries@;
        let found = self.find(key.as_str());
        let mut e_vec: Vec<(String, String)> = Vec::new();
        std::mem::swap(&mut self.entries, &mut e_vec);
        assert(e_vec@ == old_e);
        match found {
            Some(i) => {
                e_vec.set(i, (key, value));
                let ghost e = e_vec@;
                assert(e == old_e.update(i as int, (key, value)));
                assert(keys_unique(e)) by {
                    assert forall|a: int, b: int|
                        0 <= a < e.len() && 0 <= b < e.len() && #[trigger] e[a].0@ == #[trigger] e[b].0@
                        implies a == b by {
                        if a != i as int && b != i as int {
                            assert(old_e[a].0@ == old_e[b].0@);
                        } else if a == i as int && b != i as int {
                            assert(old_e[b].0@ == old_e[a].0@);
                        } else if b == i as int && a != i as int {
                            assert(old_e[a].0@ == old_e[b].0@);
                        }
                    }
                }
                assert(pairs_map(e) =~= pairs_map(old_e).insert(key@, value@)) by {
                    assert forall|k: Seq<char>| #[trigger] pairs_map(e).contains_key(k)
                        == pairs_map(old_e).insert(key@, value@).contains_key(k) by {
                        if has_key(e, k) {
                            let j = choose|j: int| 0 <= j < e.len() && #[trigger] e[j].0@ == k;
                            if j != i as int { assert(old_e[j].0@ == k); }
                        }
                        if has_key(old_e, k) {
                            let j = choose|j: int| 0 <= j < old_e.len() && #[trigger] old_e[j].0@ == k;
                            if j != i as int { assert(e[j].0@ == k); } else { assert(e[i as int].0@ == k); }
                        }
                    }
                    assert forall|k: Seq<char>| #[trigger] pairs_map(e).contains_key(k)
                        implies pairs_map(e)[k] == pairs_map(old_e).insert(key@, value@)[k] by {
                        let j = choose|j: int| 0 <= j < e.len() && #[trigger] e[j].0@ == k;
                        lemma_pairs_map_at(e, j);
                        if j != i as int {
                            assert(old_e[j] == e[j]);
                            lemma_pairs_map_at(old_e, j);
                        }
                    }
                }
            }
            None => {
                e_vec.push((key, value));
                let ghost e = e_vec@;
                assert(e == old_e.push((key, value)));
                assert(keys_unique(e)) by {
                    assert forall|a: int, b: int|
                        0 <= a < e.len() && 0 <= b < e.len() && #[trigger] e[a].0@ == #[trigger] e[b].0@
                        implies a == b by {
                        if a < old_e.len() && b < old_e.len() {
                            assert(old_e[a].0@ == old_e[b].0@);
                        } else if a < old_e.len() {
                            assert(old_e[a].0@ == key@);
                        } else if b < old_e.len() {
                            assert(old_e[b].0@ == key@);
                        }
                    }
                }
                assert(pairs_map(e) =~= pairs_map(old_e).insert(key@, value@)) by {
                    assert forall|k: Seq<char>| #[trigger] pairs_map(e).contains_key(k)
                        == pairs_map(old_e).insert(key@, value@).contains_key(k) by {
                        if has_key(e, k) {
                            let j = choose|j: int| 0 <= j < e.len() && #[trigger] e[j].0@ == k;
                            if j < old_e.len() { assert(old_e[j].0@ == k); }
                        }
                        if has_key(old_e, k) {
                            let j = choose|j: int| 0 <= j < old_e.len() && #[trigger] old_e[j].0@ == k;
                            assert(e[j].0@ == k);
                        }
                        if k == key@ {
                            assert(e[old_e.len() as int].0@ == k);
                        }
                    }
                    assert forall|k: Seq<char>| #[trigger] pairs_map(e).contains_key(k)
                        implies pairs_map(e)[k] == pairs_map(old_e).insert(key@, value@)[k] by {
                        let j = choose|j: int| 0 <= j < e.len() && #[trigger] e[j].0@ == k;
                        lemma_pairs_map_at(e, j);
                        if j < old_e.len() {
                            assert(old_e[j] == e[j]);
                            lemma_pairs_map_at(old_e, j);
                        }
                    }
                }
            }
        }
        std::mem::swap(&mut self.entries, &mut e_vec);
    }

    /// The value of `key`, if present.
    pub fn get(&self, key: &str) -> (r: Option<&String>)
        ensures
            r matches Some(v) ==> self@.contains_key(key@) && self@[key@] == v@,
            r is None ==> !self@.contains_key(key@),
    {
        proof { use_type_invariant(self); }
        match self.find(key) {
            Some(i) => {
                proof { lemma_pairs_map_at(self.entries@, i as int); }
                Some(&self.entries[i].1)
            },
            None => None,
        }
    }

    /// Whether `key` is present.
    pub fn contains_key(&self, key: &str) -> (r: bool)
        ensures
            r == self@.contains_key(key@),
    {
        self.find(key).is_some()
    }

    /// Number of keys.
    pub fn len(&self) -> (r: usize)
        ensures
            r == self.spec_entries().len(),
            r == self@.dom().len(),
    {
        proof { use_type_invariant(self); lemma_dom_len(self.entries@); }
        self.entries.len()
    }

    /// Whether there are no keys.
    pub fn is_empty(&self) -> (r: bool)
        ensures
            r == (self@.dom().len() == 0),
    {
        self.len() == 0
    }

    /// The pairs in insertion order.
    pub fn entries(&self) -> (r: &Vec<(String, String)>)
        ensures
            r@ == self.spec_entries(),
            keys_unique(r@),
            pairs_map(r@) == self@,
    {
        proof { use_type_invariant(self); }
        &self.entries
    }
}

impl Clone for Metadata {
    fn clone(&self) -> (r: Self)
        ensures
            r@ == self@,
            r.spec_entries() == self.spec_entries(),
    {
        proof { use_type_invariant(self); }
        let mut e: Vec<(String, String)> = Vec::new();
        let mut i: usize = 0;
        while i < self.entries.len()
            invariant
                i <= self.entries@.len(),
                keys_unique(self.entries@),
                e@ == self.entries@.subrange(0, i as int),
            decreases self.entries@.len() - i,
        {
            let k = self.entries[i].0.clone();
            let v = self.entries[i].1.clone();
            e.push((k, v));
            i = i + 1;
            assert(e@ =~= self.entries@.subrange(0, i as int));
        }
        assert(e@ =~= self.entries@);
        Metadata { entries: e }
    }
}

proof fn lemma_dom_len(e: Seq<(String, String)>)
    requires
        keys_unique(e),
    ensures
        pairs_map(e).dom().finite(),
        pairs_map(e).dom().len() == e.len(),
    decreases e.len(),
{
    let d = pairs_map(e).dom();
    if e.len() == 0 {
        assert(d =~= Set::<Seq<char>>::empty());
    } else {
        let p = e.drop_last();
        let k = e.last().0@;
        assert(keys_unique(p)) by {
            assert forall|a: int, b: int|
                0 <= a < p.len() && 0 <= b < p.len() && #[trigger] p[a].0@ == #[trigger] p[b].0@
                implies a == b by {
                assert(e[a].0@ == e[b].0@);
            }
        }
        lemma_dom_len(p);
        assert(!pairs_map(p).dom().contains(k)) by {
            if has_key(p, k) {
                let j = choose|j: int| 0 <= j < p.len() && #[trigger] p[j].0@ == k;
                assert(e[j].0@ == e[e.len() - 1].0@);
            }
        }
        assert(d =~= pairs_map(p).dom().insert(k)) by {
            assert forall|x: Seq<char>| d.contains(x) == pairs_map(p).dom().insert(k).contains(x) by {
                if has_key(e, x) {
                    let j = choose|j: int| 0 <= j < e.len() && #[trigger] e[j].0@ == x;
                    if j < p.len() { assert(p[j].0@ == x); }
                }
                if has_key(p, x) {
                    let j = choose|j: int| 0 <= j < p.len() && #[trigger] p[j].0@ == x;
                    assert(e[j].0@ == x);
                }
                if x == k { assert(e[e.len() - 1].0@ == x); }
            }
        }
    }
}

} // verus!
