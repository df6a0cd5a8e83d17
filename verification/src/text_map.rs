//! `TextMap`: a map keyed by strings that keeps its entries ascending by key,
//! as a `BTreeMap<String, V>` does, and is read as a `Map` in contracts.
use vstd::prelude::*;

use crate::order::{
    ascending, has_key, key_map, key_position, lemma_insert_new, lemma_key_map_at, lemma_replace,
    lemma_text_order, locate, text_less,
};

verus! {

/// The identity on values.
pub open spec fn same<V>() -> spec_fn(V) -> V {
    |v: V| v
}

/// The texts ascend strictly.
pub open spec fn ascending_texts(s: Seq<Seq<char>>) -> bool {
    forall|i: int, j: int| 0 <= i < j < s.len() ==> text_less(#[trigger] s[i], #[trigger] s[j])
}

/// `s` lists the set `keys` in ascending order, each key once.
pub open spec fn lists(s: Seq<Seq<char>>, keys: Set<Seq<char>>) -> bool {
    &&& ascending_texts(s)
    &&& s.to_set() == keys
}

proof fn lemma_listing_drop_first(s: Seq<Seq<char>>, keys: Set<Seq<char>>)
    requires
        lists(s, keys),
        s.len() > 0,
    ensures
        lists(s.drop_first(), keys.remove(s[0])),
        forall|k: Seq<char>| #[trigger] keys.contains(k) && k != s[0] ==> text_less(s[0], k),
{
    let d = s.drop_first();
    assert forall|i: int, j: int| 0 <= i < j < d.len() implies text_less(#[trigger] d[i], #[trigger] d[j]) by {
        assert(d[i] == s[i + 1] && d[j] == s[j + 1]);
    }
    assert forall|k: Seq<char>| d.to_set().contains(k) <==> keys.remove(s[0]).contains(k) by {
        if d.to_set().contains(k) {
            let i = choose|i: int| 0 <= i < d.len() && d[i] == k;
            assert(s[i + 1] == k);
            assert(s.to_set().contains(k));
            assert(text_less(s[0], s[i + 1]));
            lemma_text_order(k, k, k);
        }
        if keys.remove(s[0]).contains(k) {
            assert(s.to_set().contains(k));
            let i = choose|i: int| 0 <= i < s.len() && s[i] == k;
            assert(i != 0);
            assert(d[i - 1] == k);
        }
    }
    assert(d.to_set() =~= keys.remove(s[0]));
    assert forall|k: Seq<char>| #[trigger] keys.contains(k) && k != s[0] implies text_less(s[0], k) by {
        assert(s.to_set().contains(k));
        let i = choose|i: int| 0 <= i < s.len() && s[i] == k;
        assert(i != 0);
    }
}

/// Law: a set of texts has one ascending listing — two sequences that both
/// list `keys` ascending, each key once, are the same sequence.
pub proof fn law_listing_determined(s1: Seq<Seq<char>>, s2: Seq<Seq<char>>, keys: Set<Seq<char>>)
    requires
        lists(s1, keys),
        lists(s2, keys),
    ensures
        s1 == s2,
    decreases s1.len(),
{
    if s1.len() == 0 {
        if s2.len() > 0 {
            assert(s2.to_set().contains(s2[0]));
            assert(s1.to_set().contains(s2[0]));
        }
        assert(s1 =~= s2);
    } else {
        assert(s1.to_set().contains(s1[0]));
        assert(s2.to_set().contains(s1[0]));
        assert(s2.len() > 0);
        lemma_listing_drop_first(s1, keys);
        lemma_listing_drop_first(s2, keys);
        if s1[0] != s2[0] {
            assert(s2.to_set().contains(s2[0]));
            assert(text_less(s1[0], s2[0]));
            assert(text_less(s2[0], s1[0]));
            lemma_text_order(s1[0], s2[0], s1[0]);
        }
        law_listing_determined(s1.drop_first(), s2.drop_first(), keys.remove(s1[0]));
        assert(s1 =~= s2) by {
            assert forall|i: int| 0 <= i < s1.len() implies s1[i] == s2[i] by {
                if i > 0 {
                    assert(s1[i] == s1.drop_first()[i - 1]);
                    assert(s2[i] == s2.drop_first()[i - 1]);
                }
            }
        }
    }
}

/// A listing of the empty set is empty.
pub proof fn lemma_listing_empty(s: Seq<Seq<char>>, keys: Set<Seq<char>>)
    requires
        lists(s, keys),
        keys == Set::<Seq<char>>::empty(),
    ensures
        s.len() == 0,
{
    if s.len() > 0 {
        assert(s.to_set().contains(s[0]));
    }
}

/// A listing holds each key once, and holds exactly the keys of its set.
pub proof fn lemma_listing_facts(s: Seq<Seq<char>>, keys: Set<Seq<char>>)
    requires
        lists(s, keys),
    ensures
        s.no_duplicates(),
        forall|k: Seq<char>| #[trigger] s.contains(k) <==> keys.contains(k),
{
    assert forall|i: int, j: int| 0 <= i < s.len() && 0 <= j < s.len() && i != j implies s[i] != s[j] by {
        lemma_text_order(s[i], s[i], s[i]);
        if i < j {
            assert(text_less(s[i], s[j]));
        } else {
            assert(text_less(s[j], s[i]));
        }
    }
    assert forall|k: Seq<char>| #[trigger] s.contains(k) <==> keys.contains(k) by {
        assert(s.to_set().contains(k) <==> s.contains(k));
    }
}

/// A map from strings to `V` whose entries are kept ascending by key.
#[derive(Debug)]
pub struct TextMap<V> {
    entries: Vec<(String, V)>,
}

impl<V> View for TextMap<V> {
    type V = Map<Seq<char>, V>;

    closed spec fn view(&self) -> Map<Seq<char>, V> {
        key_map(self.entries@, same())
    }
}

impl<V> TextMap<V> {
    #[verifier::type_invariant]
    spec fn keys_ascend(self) -> bool {
        ascending(self.entries@)
    }

    /// The keys, ascending.
    pub closed spec fn key_list(&self) -> Seq<Seq<char>> {
        self.entries@.map_values(|e: (String, V)| e.0@)
    }

    /// The key list lists the keys of the map, ascending, each once (which
    /// every map built by these operations satisfies; see [`TextMap::len`]).
    pub open spec fn listed(&self) -> bool {
        lists(self.key_list(), self@.dom())
    }

    proof fn lemma_key_list(&self)
        requires
            ascending(self.entries@),
        ensures
            lists(self.key_list(), self@.dom()),
            self.key_list().len() == self@.dom().len(),
            self@.dom().finite(),
            forall|i: int| 0 <= i < self.key_list().len() ==> self@.contains_key(#[trigger] self.key_list()[i]),
    {
        let ks = self.key_list();
        let v = self.entries@;
        assert forall|i: int, j: int| 0 <= i < j < ks.len() implies text_less(#[trigger] ks[i], #[trigger] ks[j]) by {
            assert(ks[i] == v[i].0@ && ks[j] == v[j].0@);
        }
        assert forall|k: Seq<char>| ks.to_set().contains(k) <==> self@.dom().contains(k) by {
            if ks.to_set().contains(k) {
                let i = choose|i: int| 0 <= i < ks.len() && ks[i] == k;
                assert(v[i].0@ == k);
            }
            if self@.dom().contains(k) {
                let i = choose|i: int| 0 <= i < v.len() && #[trigger] v[i].0@ == k;
                assert(ks[i] == k);
            }
        }
        assert(ks.to_set() =~= self@.dom());
        assert forall|i: int, j: int| 0 <= i < ks.len() && 0 <= j < ks.len() && i != j implies ks[i] != ks[j] by {
            lemma_text_order(ks[i], ks[j], ks[j]);
            if i < j {
                assert(text_less(ks[i], ks[j]));
            } else {
                assert(text_less(ks[j], ks[i]));
            }
        }
        assert(ks.no_duplicates());
        ks.unique_seq_to_set();
        assert forall|i: int| 0 <= i < ks.len() implies self@.contains_key(#[trigger] ks[i]) by {
            assert(v[i].0@ == ks[i]);
        }
    }

    /// An empty map.
    pub fn new() -> (r: Self)
        ensures
            r@ == Map::<Seq<char>, V>::empty(),
    {
        let r = TextMap { entries: Vec::new() };
        assert(r@ =~= Map::<Seq<char>, V>::empty());
        r
    }

    /// Sets `key` to `val`, replacing any earlier value.
    pub fn insert(&mut self, key: String, val: V)
        ensures
            final(self)@ == old(self)@.insert(key@, val),
    {
        proof {
            use_type_invariant(&*self);
        }
        let mut entries: Vec<(String, V)> = Vec::new();
        std::mem::swap(&mut entries, &mut self.entries);
        let ghost before = entries@;
        let (found, p) = locate(&entries, key.as_str());
        if found {
            proof {
                lemma_replace(before, p as int, key, val, same());
            }
            entries.set(p, (key, val));
        } else {
            proof {
                lemma_insert_new(before, p as int, key, val, same());
            }
            entries.insert(p, (key, val));
        }
        self.entries = entries;
    }

    /// The value at `key`, if any.
    pub fn get(&self, key: &str) -> (r: Option<&V>)
        ensures
            match r {
                Some(v) => self@.contains_key(key@) && self@[key@] == *v,
                None => !self@.contains_key(key@),
            },
    {
        proof {
            use_type_invariant(self);
        }
        let (found, p) = locate(&self.entries, key);
        if found {
            proof {
                lemma_key_map_at(self.entries@, same(), p as int);
            }
            Some(&self.entries[p].1)
        } else {
            None
        }
    }

    /// Whether the map is empty.
    pub fn is_empty(&self) -> (r: bool)
        ensures
            r == (self@.dom() == Set::<Seq<char>>::empty()),
    {
        proof {
            use_type_invariant(self);
        }
        if self.entries.len() == 0 {
            assert(self@.dom() =~= Set::<Seq<char>>::empty());
            true
        } else {
            proof {
                lemma_key_map_at(self.entries@, same(), 0);
            }
            assert(self@.dom().contains(self.entries@[0].0@));
            false
        }
    }

    /// The number of keys; the key list lists them once each, ascending.
    pub fn len(&self) -> (r: usize)
        ensures
            r == self.key_list().len(),
            r == self@.dom().len(),
            lists(self.key_list(), self@.dom()),
            self@.dom().finite(),
            forall|i: int| 0 <= i < self.key_list().len() ==> self@.contains_key(#[trigger] self.key_list()[i]),
    {
        proof {
            use_type_invariant(self);
            self.lemma_key_list();
        }
        self.entries.len()
    }

    /// The key at position `i` of the ascending key list, and its value.
    pub fn entry(&self, i: usize) -> (r: (&String, &V))
        requires
            i < self.key_list().len(),
        ensures
            r.0@ == self.key_list()[i as int],
            self@.contains_key(r.0@),
            self@[r.0@] == *r.1,
    {
        proof {
            use_type_invariant(self);
            lemma_key_map_at(self.entries@, same(), i as int);
        }
        (&self.entries[i].0, &self.entries[i].1)
    }
}

} // verus!
