//! The order of strings (bytewise on their UTF-8 encoding, as `String`'s
//! `Ord` compares them) and association lists kept ascending by key, which
//! stand for `BTreeMap`s keyed by strings.
use vstd::prelude::*;
use vstd::utf8::{encode_utf8, encode_utf8_decode_utf8};

verus! {

/// Lexicographic order of byte sequences: a proper prefix comes first.
pub open spec fn bytes_less(x: Seq<u8>, y: Seq<u8>) -> bool
    decreases x.len(),
{
    if y.len() == 0 {
        false
    } else if x.len() == 0 {
        true
    } else if x[0] != y[0] {
        x[0] < y[0]
    } else {
        bytes_less(x.drop_first(), y.drop_first())
    }
}

/// `a` sorts before `b`: their UTF-8 encodings compare bytewise.
pub open spec fn text_less(a: Seq<char>, b: Seq<char>) -> bool {
    bytes_less(encode_utf8(a), encode_utf8(b))
}

proof fn lemma_bytes_irreflexive(x: Seq<u8>)
    ensures
        !bytes_less(x, x),
    decreases x.len(),
{
    if x.len() > 0 {
        lemma_bytes_irreflexive(x.drop_first());
    }
}

proof fn lemma_bytes_transitive(x: Seq<u8>, y: Seq<u8>, z: Seq<u8>)
    requires
        bytes_less(x, y),
        bytes_less(y, z),
    ensures
        bytes_less(x, z),
    decreases x.len(),
{
    if x.len() > 0 && y.len() > 0 && z.len() > 0 && x[0] == y[0] && y[0] == z[0] {
        lemma_bytes_transitive(x.drop_first(), y.drop_first(), z.drop_first());
    }
}

proof fn lemma_bytes_total(x: Seq<u8>, y: Seq<u8>)
    ensures
        x =~= y || bytes_less(x, y) || bytes_less(y, x),
    decreases x.len(),
{
    if x.len() > 0 && y.len() > 0 && x[0] == y[0] {
        lemma_bytes_total(x.drop_first(), y.drop_first());
        if x.drop_first() =~= y.drop_first() {
            assert(x =~= seq![x[0]] + x.drop_first());
            assert(y =~= seq![y[0]] + y.drop_first());
        }
    }
}

/// `text_less` is a strict total order.
pub proof fn lemma_text_order(a: Seq<char>, b: Seq<char>, c: Seq<char>)
    ensures
        !text_less(a, a),
        text_less(a, b) && text_less(b, c) ==> text_less(a, c),
        a == b || text_less(a, b) || text_less(b, a),
{
    lemma_bytes_irreflexive(encode_utf8(a));
    if text_less(a, b) && text_less(b, c) {
        lemma_bytes_transitive(encode_utf8(a), encode_utf8(b), encode_utf8(c));
    }
    lemma_bytes_total(encode_utf8(a), encode_utf8(b));
    encode_utf8_decode_utf8(a);
    encode_utf8_decode_utf8(b);
}

/// Whether `a` sorts before `b`.
pub fn text_lt(a: &str, b: &str) -> (r: bool)
    ensures
        r == text_less(a@, b@),
{
    let x = a.as_bytes();
    let y = b.as_bytes();
    let n = x.len();
    let m = y.len();
    let mut i: usize = 0;
    assert(x@.skip(0) =~= x@);
    assert(y@.skip(0) =~= y@);
    while i < n && i < m
        invariant
            n == x@.len(),
            m == y@.len(),
            0 <= i <= n,
            i <= m,
            x@ == encode_utf8(a@),
            y@ == encode_utf8(b@),
            text_less(a@, b@) == bytes_less(x@.skip(i as int), y@.skip(i as int)),
        decreases n - i,
    {
        assert(x@.skip(i as int)[0] == x@[i as int]);
        assert(y@.skip(i as int)[0] == y@[i as int]);
        if x[i] != y[i] {
            return x[i] < y[i];
        }
        assert(x@.skip(i as int).drop_first() =~= x@.skip(i + 1));
        assert(y@.skip(i as int).drop_first() =~= y@.skip(i + 1));
        i = i + 1;
    }
    i < m
}

/// The keys of `v` ascend strictly.
pub open spec fn ascending<V>(v: Seq<(String, V)>) -> bool {
    forall|i: int, j: int| 0 <= i < j < v.len() ==> text_less(#[trigger] v[i].0@, #[trigger] v[j].0@)
}

/// `k` is one of the keys of `v`.
pub open spec fn has_key<V>(v: Seq<(String, V)>, k: Seq<char>) -> bool {
    exists|i: int| 0 <= i < v.len() && #[trigger] v[i].0@ == k
}

/// A position of `v` holding the key `k`, when there is one.
pub open spec fn key_position<V>(v: Seq<(String, V)>, k: Seq<char>) -> int {
    choose|i: int| 0 <= i < v.len() && #[trigger] v[i].0@ == k
}

/// The map that an association list stands for, with values seen through `f`.
pub open spec fn key_map<V, W>(v: Seq<(String, V)>, f: spec_fn(V) -> W) -> Map<Seq<char>, W> {
    Map::new(|k: Seq<char>| has_key(v, k), |k: Seq<char>| f(v[key_position(v, k)].1))
}

/// In an ascending list each key is at one position only.
pub proof fn lemma_ascending_unique<V>(v: Seq<(String, V)>, i: int, j: int)
    requires
        ascending(v),
        0 <= i < v.len(),
        0 <= j < v.len(),
        v[i].0@ == v[j].0@,
    ensures
        i == j,
{
    lemma_text_order(v[i].0@, v[j].0@, v[j].0@);
    if i < j {
        assert(text_less(v[i].0@, v[j].0@));
    } else if j < i {
        assert(text_less(v[j].0@, v[i].0@));
    }
}

/// The map of an ascending list gives each key its own value.
pub proof fn lemma_key_map_at<V, W>(v: Seq<(String, V)>, f: spec_fn(V) -> W, i: int)
    requires
        ascending(v),
        0 <= i < v.len(),
    ensures
        key_map(v, f).contains_key(v[i].0@),
        key_map(v, f)[v[i].0@] == f(v[i].1),
{
    let k = v[i].0@;
    assert(has_key(v, k));
    let j = key_position(v, k);
    lemma_ascending_unique(v, i, j);
}

/// Inserting a new key at the position where it belongs keeps the list
/// ascending and adds the key to its map.
pub proof fn lemma_insert_new<V, W>(v: Seq<(String, V)>, p: int, k: String, x: V, f: spec_fn(V) -> W)
    requires
        ascending(v),
        0 <= p <= v.len(),
        forall|j: int| 0 <= j < p ==> text_less(#[trigger] v[j].0@, k@),
        p < v.len() ==> text_less(k@, v[p].0@),
    ensures
        ascending(v.insert(p, (k, x))),
        key_map(v.insert(p, (k, x)), f) == key_map(v, f).insert(k@, f(x)),
{
    let w = v.insert(p, (k, x));
    assert forall|i: int, j: int| 0 <= i < j < w.len() implies text_less(
        #[trigger] w[i].0@,
        #[trigger] w[j].0@,
    ) by {
        if i < p && j == p {
        } else if i == p && j > p {
            if j > p + 1 {
                lemma_text_order(k@, v[p].0@, v[j - 1].0@);
            }
        } else if i < p && j > p {
            lemma_text_order(v[i].0@, k@, w[j].0@);
            if j > p + 1 {
                lemma_text_order(k@, v[p].0@, v[j - 1].0@);
            }
        } else if i > p {
            assert(w[i] == v[i - 1] && w[j] == v[j - 1]);
        } else {
            assert(w[i] == v[i] && w[j] == v[j]);
        }
    }
    let m1 = key_map(w, f);
    let m2 = key_map(v, f).insert(k@, f(x));
    assert forall|kk: Seq<char>| m1.contains_key(kk) <==> m2.contains_key(kk) by {
        if has_key(w, kk) {
            let i = choose|i: int| 0 <= i < w.len() && #[trigger] w[i].0@ == kk;
            if i < p {
                assert(v[i].0@ == kk);
            } else if i > p {
                assert(v[i - 1].0@ == kk);
            }
        }
        if has_key(v, kk) {
            let i = choose|i: int| 0 <= i < v.len() && #[trigger] v[i].0@ == kk;
            if i < p {
                assert(w[i].0@ == kk);
            } else {
                assert(w[i + 1].0@ == kk);
            }
        }
        if kk == k@ {
            assert(w[p].0@ == kk);
        }
    }
    assert forall|kk: Seq<char>| #[trigger] m1.contains_key(kk) implies m1[kk] == m2[kk] by {
        let i = choose|i: int| 0 <= i < w.len() && #[trigger] w[i].0@ == kk;
        lemma_key_map_at(w, f, i);
        if i == p {
        } else if i < p {
            lemma_key_map_at(v, f, i);
            lemma_text_order(kk, k@, k@);
        } else {
            assert(w[i] == v[i - 1]);
            lemma_key_map_at(v, f, i - 1);
            lemma_text_order(k@, kk, kk);
            if i - 1 > p {
                lemma_text_order(k@, v[p].0@, kk);
            }
        }
    }
    assert(m1 =~= m2);
}

/// Replacing the value at a key keeps the list ascending and updates its map.
pub proof fn lemma_replace<V, W>(v: Seq<(String, V)>, p: int, k: String, x: V, f: spec_fn(V) -> W)
    requires
        ascending(v),
        0 <= p < v.len(),
        v[p].0@ == k@,
    ensures
        ascending(v.update(p, (k, x))),
        key_map(v.update(p, (k, x)), f) == key_map(v, f).insert(k@, f(x)),
{
    let w = v.update(p, (k, x));
    assert forall|i: int, j: int| 0 <= i < j < w.len() implies text_less(
        #[trigger] w[i].0@,
        #[trigger] w[j].0@,
    ) by {
        assert(w[i].0@ == v[i].0@ && w[j].0@ == v[j].0@);
    }
    let m1 = key_map(w, f);
    let m2 = key_map(v, f).insert(k@, f(x));
    assert forall|kk: Seq<char>| m1.contains_key(kk) <==> m2.contains_key(kk) by {
        if has_key(w, kk) {
            let i = choose|i: int| 0 <= i < w.len() && #[trigger] w[i].0@ == kk;
            assert(v[i].0@ == kk);
        }
        if has_key(v, kk) {
            let i = choose|i: int| 0 <= i < v.len() && #[trigger] v[i].0@ == kk;
            assert(w[i].0@ == kk);
        }
    }
    assert forall|kk: Seq<char>| #[trigger] m1.contains_key(kk) implies m1[kk] == m2[kk] by {
        let i = choose|i: int| 0 <= i < w.len() && #[trigger] w[i].0@ == kk;
        lemma_key_map_at(w, f, i);
        if i != p {
            assert(w[i] == v[i]);
            lemma_key_map_at(v, f, i);
            if kk == k@ {
                lemma_ascending_unique(w, i, p);
            }
        }
    }
    assert(m1 =~= m2);
}

proof fn lemma_key_map_drop_first<V, W>(v: Seq<(String, V)>, f: spec_fn(V) -> W)
    requires
        ascending(v),
        v.len() > 0,
    ensures
        ascending(v.drop_first()),
        key_map(v.drop_first(), f) == key_map(v, f).remove(v[0].0@),
{
    let d = v.drop_first();
    assert forall|i: int, j: int| 0 <= i < j < d.len() implies text_less(
        #[trigger] d[i].0@,
        #[trigger] d[j].0@,
    ) by {
        assert(d[i] == v[i + 1] && d[j] == v[j + 1]);
    }
    let m1 = key_map(d, f);
    let m2 = key_map(v, f).remove(v[0].0@);
    assert forall|k: Seq<char>| m1.contains_key(k) <==> m2.contains_key(k) by {
        if has_key(d, k) {
            let i = choose|i: int| 0 <= i < d.len() && #[trigger] d[i].0@ == k;
            assert(v[i + 1].0@ == k);
            if k == v[0].0@ {
                lemma_ascending_unique(v, 0, i + 1);
            }
        }
        if has_key(v, k) && k != v[0].0@ {
            let i = choose|i: int| 0 <= i < v.len() && #[trigger] v[i].0@ == k;
            assert(d[i - 1].0@ == k);
        }
    }
    assert forall|k: Seq<char>| #[trigger] m1.contains_key(k) implies m1[k] == m2[k] by {
        let i = choose|i: int| 0 <= i < d.len() && #[trigger] d[i].0@ == k;
        lemma_key_map_at(d, f, i);
        assert(d[i] == v[i + 1]);
        lemma_key_map_at(v, f, i + 1);
    }
    assert(m1 =~= m2);
}

/// Law: an ascending list is determined by the map it stands for — two
/// ascending lists with the same map hold the same keys, in the same order,
/// with the same values.
pub proof fn law_ascending_determined<V, W>(s1: Seq<(String, V)>, s2: Seq<(String, V)>, f: spec_fn(V) -> W)
    requires
        ascending(s1),
        ascending(s2),
        key_map(s1, f) == key_map(s2, f),
    ensures
        s1.len() == s2.len(),
        forall|i: int| 0 <= i < s1.len() ==> #[trigger] s1[i].0@ == s2[i].0@ && f(s1[i].1) == f(s2[i].1),
    decreases s1.len(),
{
    if s1.len() == 0 {
        if s2.len() > 0 {
            lemma_key_map_at(s2, f, 0);
            let i = choose|i: int| 0 <= i < s1.len() && #[trigger] s1[i].0@ == s2[0].0@;
        }
    } else {
        lemma_key_map_at(s1, f, 0);
        let k1 = s1[0].0@;
        assert(has_key(s2, k1));
        let j = choose|j: int| 0 <= j < s2.len() && #[trigger] s2[j].0@ == k1;
        lemma_key_map_at(s2, f, 0);
        let k2 = s2[0].0@;
        assert(has_key(s1, k2));
        let i = choose|i: int| 0 <= i < s1.len() && #[trigger] s1[i].0@ == k2;
        if j != 0 {
            if i == 0 {
                lemma_ascending_unique(s2, 0, j);
            } else {
                assert(text_less(k1, k2));
                assert(text_less(k2, k1));
                lemma_text_order(k1, k2, k1);
            }
        }
        assert(j == 0);
        lemma_key_map_at(s2, f, j);
        lemma_key_map_drop_first(s1, f);
        lemma_key_map_drop_first(s2, f);
        law_ascending_determined(s1.drop_first(), s2.drop_first(), f);
        assert forall|i: int| 0 <= i < s1.len() implies #[trigger] s1[i].0@ == s2[i].0@ && f(s1[i].1) == f(
            s2[i].1,
        ) by {
            if i > 0 {
                assert(s1[i] == s1.drop_first()[i - 1]);
                assert(s2[i] == s2.drop_first()[i - 1]);
            }
        }
    }
}

/// Where `key` belongs in the ascending list `v`: the first position whose
/// key does not sort before `key`, and whether `key` is already there.
pub fn locate<V>(v: &Vec<(String, V)>, key: &str) -> (r: (bool, usize))
    requires
        ascending(v@),
    ensures
        r.1 <= v@.len(),
        forall|j: int| 0 <= j < r.1 ==> text_less(#[trigger] v@[j].0@, key@),
        r.0 ==> r.1 < v@.len() && v@[r.1 as int].0@ == key@,
        !r.0 ==> (r.1 < v@.len() ==> text_less(key@, v@[r.1 as int].0@)),
        r.0 == has_key(v@, key@),
{
    let n = v.len();
    let mut i: usize = 0;
    while i < n
        invariant
            n == v@.len(),
            0 <= i <= n,
            ascending(v@),
            forall|j: int| 0 <= j < i ==> text_less(#[trigger] v@[j].0@, key@),
        decreases n - i,
    {
        if !text_lt(v[i].0.as_str(), key) {
            proof {
                lemma_text_order(v@[i as int].0@, key@, key@);
            }
            let same = crate::text::str_eq(v[i].0.as_str(), key);
            proof {
                if !same {
                    assert(text_less(key@, v@[i as int].0@));
                    assert forall|j: int| 0 <= j < n implies #[trigger] v@[j].0@ != key@ by {
                        lemma_text_order(key@, key@, key@);
                        if j < i {
                        } else if j > i {
                            lemma_text_order(key@, v@[i as int].0@, v@[j].0@);
                        }
                    }
                } else {
                    assert(v@[i as int].0@ == key@);
                }
            }
            return (same, i);
        }
        i = i + 1;
    }
    proof {
        assert forall|j: int| 0 <= j < n implies #[trigger] v@[j].0@ != key@ by {
            lemma_text_order(key@, key@, key@);
        }
    }
    (false, n)
}

} // verus!
