//! Advanced tools: structural diff, batch render, style preview, placement
//! hints, pattern suggestion and similarity ranking — the parts that read
//! and compare what the CLI parsed.
use vstd::prelude::*;

use vstd::utf8::encode_utf8;

use crate::error::{is_user_message_of, CliError};
use crate::json::{json_array, json_get, json_str, member, Json};
use crate::text::{decimal, push_decimal, str_eq};
use crate::tools::base64::{base64_encode, base64_text};
use crate::tools::command::{argv, opt_text, option_args, push_arg, push_option};
use crate::tools::output::{
    content_view, contents_view, error_text, shows_svg, svg_result, ContentView, ToolContent, ToolOutput,
};
use crate::tools::render::{render_field, render_text, theme_arg, theme_text};
use crate::order::{lemma_text_order, text_less};
use crate::text_map::{
    ascending_texts, law_listing_determined, lemma_listing_empty, lemma_listing_facts, lists, TextMap,
};
use crate::text::{
    ascii_lower_text, chars_of, contains_chars, contains_text, is_ascii_text, join_text, join_with,
    law_join_split, lemma_split_nonempty, lemma_texts_push, lowercase, lowercase_text, occurs_at, owned,
    push_str, split_on, split_text, texts, words, words_of,
};
use crate::tools::doc_text::{circuit_patterns, circuit_patterns_text};

verus! {

/// The first module of a parse result: `data.modules[0]`.
pub open spec fn first_module(data: Json) -> Option<Json> {
    match json_get(data, "modules"@) {
        Some(m) => match json_array(m) {
            Some(ms) => if ms.len() > 0 {
                Some(ms[0])
            } else {
                None
            },
            None => None,
        },
        None => None,
    }
}

/// The array `field` of the first module, when there is one.
pub open spec fn module_items(data: Json, field: Seq<char>) -> Option<Seq<Json>> {
    match first_module(data) {
        Some(m) => match json_get(m, field) {
            Some(x) => json_array(x),
            None => None,
        },
        None => None,
    }
}

/// The instances of the first module (none when the shape is missing).
pub open spec fn instance_items(data: Json) -> Seq<Json> {
    match module_items(data, "instances"@) {
        Some(s) => s,
        None => Seq::empty(),
    }
}

/// The name and part type of an instance, when both are strings.
pub open spec fn named_instance(item: Json) -> Option<(Seq<char>, Seq<char>)> {
    match (json_get(item, "name"@), json_get(item, "type_name"@)) {
        (Some(n), Some(t)) => match (json_str(n), json_str(t)) {
            (Some(ns), Some(ts)) => Some((ns, ts)),
            _ => None,
        },
        _ => None,
    }
}

/// The `(name, type)` pairs of the instances that have both, in order.
pub open spec fn named_pairs(items: Seq<Json>) -> Seq<(Seq<char>, Seq<char>)>
    decreases items.len(),
{
    if items.len() == 0 {
        Seq::empty()
    } else {
        let rest = named_pairs(items.drop_last());
        match named_instance(items.last()) {
            Some(p) => rest.push(p),
            None => rest,
        }
    }
}

/// The map built by assigning each pair in order, a later pair with the same
/// name replacing an earlier one.
pub open spec fn assigned(pairs: Seq<(Seq<char>, Seq<char>)>) -> Map<Seq<char>, Seq<char>>
    decreases pairs.len(),
{
    if pairs.len() == 0 {
        Map::empty()
    } else {
        assigned(pairs.drop_last()).insert(pairs.last().0, pairs.last().1)
    }
}

/// The name-to-type map of the first module's instances.
pub open spec fn name_types(data: Json) -> Map<Seq<char>, Seq<char>> {
    assigned(named_pairs(instance_items(data)))
}

/// The texts of a map's string values.
pub open spec fn texts_of(m: Map<Seq<char>, String>) -> Map<Seq<char>, Seq<char>> {
    m.map_values(|s: String| s@)
}

/// The array of the first module named `field`.
fn module_array<'a>(data: &'a Json, field: &str) -> (r: Option<&'a Vec<Json>>)
    ensures
        match r {
            Some(v) => module_items(*data, field@) == Some(v@),
            None => module_items(*data, field@) is None,
        },
{
    match data.get("modules") {
        Some(m) => match m.as_array() {
            Some(ms) => {
                if ms.len() > 0 {
                    match ms[0].get(field) {
                        Some(x) => x.as_array(),
                        None => None,
                    }
                } else {
                    None
                }
            },
            None => None,
        },
        None => None,
    }
}

fn instance_pair(item: &Json) -> (r: Option<(String, String)>)
    ensures
        match r {
            Some(p) => named_instance(*item) == Some((p.0@, p.1@)),
            None => named_instance(*item) is None,
        },
{
    match (item.get("name"), item.get("type_name")) {
        (Some(n), Some(t)) => match (n.as_str(), t.as_str()) {
            (Some(ns), Some(ts)) => Some((ns.clone(), ts.clone())),
            _ => None,
        },
        _ => None,
    }
}

/// Collect the `name -> type_name` map of the first module's instances; a
/// later instance with the same name wins.
pub fn instance_types(data: &Json) -> (r: TextMap<String>)
    ensures
        texts_of(r@) == name_types(*data),
{
    let mut map: TextMap<String> = TextMap::new();
    assert(texts_of(map@) =~= Map::<Seq<char>, Seq<char>>::empty());
    if let Some(items) = module_array(data, "instances") {
        let n = items.len();
        let mut i: usize = 0;
        while i < n
            invariant
                n == items@.len(),
                0 <= i <= n,
                module_items(*data, "instances"@) == Some(items@),
                texts_of(map@) == assigned(named_pairs(items@.take(i as int))),
            decreases n - i,
        {
            let ghost t = items@.take(i + 1);
            let ghost prev = named_pairs(items@.take(i as int));
            assert(t.drop_last() =~= items@.take(i as int));
            assert(t.last() == items@[i as int]);
            if let Some((name, ty)) = instance_pair(&items[i]) {
                assert(named_pairs(t) == prev.push((name@, ty@)));
                assert(prev.push((name@, ty@)).drop_last() =~= prev);
                let ghost m0 = map@;
                map.insert(name, ty);
                assert(texts_of(map@) =~= texts_of(m0).insert(name@, ty@));
            } else {
                assert(named_pairs(t) == prev);
            }
            i = i + 1;
        }
        assert(items@.take(n as int) =~= items@);
    } else {
        assert(instance_items(*data) =~= Seq::<Json>::empty());
    }
    map
}

/// The names among `names` whose type in `m` is `t`.
pub open spec fn names_of_type(names: Set<Seq<char>>, m: Map<Seq<char>, Seq<char>>, t: Seq<char>) -> Set<
    Seq<char>,
> {
    names.filter(|n: Seq<char>| m[n] == t)
}

/// The types that the names among `names` have in `m`.
pub open spec fn types_among(names: Set<Seq<char>>, m: Map<Seq<char>, Seq<char>>) -> Set<Seq<char>> {
    Set::new(|t: Seq<char>| exists|n: Seq<char>| names.contains(n) && #[trigger] m[n] == t)
}

/// `sig` is the topology signature of the name-to-type map `m`: each type
/// that occurs, with the number of names that have it.
pub open spec fn is_signature(m: Map<Seq<char>, Seq<char>>, sig: Map<Seq<char>, usize>) -> bool {
    &&& sig.dom() == types_among(m.dom(), m)
    &&& forall|t: Seq<char>| #[trigger] sig.contains_key(t) ==> sig[t] as nat == names_of_type(
        m.dom(),
        m,
        t,
    ).len()
}

/// Build a topology signature: the multiset of part types of the first
/// module's instances, as a map from type to count.
pub fn topology_signature(data: &Json) -> (r: TextMap<usize>)
    ensures
        is_signature(name_types(*data), r@),
{
    let types = instance_types(data);
    let n = types.len();
    let ghost ks = types.key_list();
    let ghost m = texts_of(types@);
    let mut sig: TextMap<usize> = TextMap::new();
    let mut i: usize = 0;
    assert(ks.take(0).to_set() =~= Set::<Seq<char>>::empty());
    assert(sig@.dom() =~= types_among(Set::<Seq<char>>::empty(), m));
    while i < n
        invariant
            n == ks.len(),
            ks == types.key_list(),
            m == texts_of(types@),
            m == name_types(*data),
            lists(ks, types@.dom()),
            forall|j: int| 0 <= j < ks.len() ==> types@.contains_key(#[trigger] ks[j]),
            0 <= i <= n,
            sig@.dom() == types_among(ks.take(i as int).to_set(), m),
            forall|t: Seq<char>| #[trigger] sig@.contains_key(t) ==> sig@[t] as nat == names_of_type(
                ks.take(i as int).to_set(),
                m,
                t,
            ).len() && sig@[t] <= i,
        decreases n - i,
    {
        let (name, ty) = types.entry(i);
        let ghost before = ks.take(i as int).to_set();
        let ghost after = ks.take(i + 1).to_set();
        let ghost k = ks[i as int];
        assert(name@ == k);
        assert(m[k] == ty@);
        assert(ks.take(i + 1) =~= ks.take(i as int).push(k));
        assert(after =~= before.insert(k)) by {
            let sq = ks.take(i + 1);
            assert forall|x: Seq<char>| after.contains(x) <==> before.insert(k).contains(x) by {
                if after.contains(x) {
                    let j = choose|j: int| 0 <= j < sq.len() && sq[j] == x;
                    if j < i {
                        assert(ks.take(i as int)[j] == x);
                    }
                }
                if before.contains(x) {
                    let j = choose|j: int| 0 <= j < i && ks.take(i as int)[j] == x;
                    assert(sq[j] == x);
                }
                if x == k {
                    assert(sq[i as int] == x);
                }
            }
        }
        assert(!before.contains(k)) by {
            if before.contains(k) {
                let j = choose|j: int| 0 <= j < i && ks.take(i as int)[j] == k;
                assert(text_less(ks[j], ks[i as int]));
                lemma_text_order(k, k, k);
            }
        }
        let c: usize = match sig.get(ty.as_str()) {
            Some(c) => *c,
            None => 0,
        };
        let ghost s0 = sig@;
        sig.insert(ty.clone(), c + 1);
        proof {
            assert(sig@.dom() =~= types_among(after, m)) by {
                assert forall|t: Seq<char>| sig@.contains_key(t) <==> types_among(after, m).contains(t) by {
                    if types_among(after, m).contains(t) {
                        let x = choose|x: Seq<char>| after.contains(x) && #[trigger] m[x] == t;
                        if x != k {
                            assert(before.contains(x));
                            assert(types_among(before, m).contains(t));
                        }
                    }
                    if s0.contains_key(t) {
                        let x = choose|x: Seq<char>| before.contains(x) && #[trigger] m[x] == t;
                        assert(after.contains(x));
                    }
                    if t == ty@ {
                        assert(after.contains(k));
                    }
                }
            }
            assert forall|t: Seq<char>| #[trigger] sig@.contains_key(t) implies sig@[t] as nat == names_of_type(
                after,
                m,
                t,
            ).len() && sig@[t] <= i + 1 by {
                let fb = names_of_type(before, m, t);
                let fa = names_of_type(after, m, t);
                before.lemma_len_filter(|x: Seq<char>| m[x] == t);
                if t == ty@ {
                    assert(fa =~= fb.insert(k));
                    assert(!fb.contains(k));
                    if !s0.contains_key(t) {
                        assert(fb =~= Set::<Seq<char>>::empty()) by {
                            if exists|x: Seq<char>| fb.contains(x) {
                                let x = choose|x: Seq<char>| fb.contains(x);
                                assert(types_among(before, m).contains(t));
                            }
                        }
                    }
                } else {
                    assert(fa =~= fb);
                }
            }
        }
        i = i + 1;
    }
    assert(ks.take(n as int) =~= ks);
    assert(m.dom() =~= types@.dom());
    sig
}

/// The count of `k` in `m`, zero when absent.
pub open spec fn count_or_zero(m: Map<Seq<char>, usize>, k: Seq<char>) -> nat {
    if m.contains_key(k) {
        m[k] as nat
    } else {
        0
    }
}

/// `Σ min(a[k], b[k])` over the keys `ks`.
pub open spec fn sum_min(ks: Seq<Seq<char>>, a: Map<Seq<char>, usize>, b: Map<Seq<char>, usize>) -> nat
    decreases ks.len(),
{
    if ks.len() == 0 {
        0
    } else {
        let k = ks.last();
        let x = count_or_zero(a, k);
        let y = count_or_zero(b, k);
        sum_min(ks.drop_last(), a, b) + if x <= y {
            x
        } else {
            y
        }
    }
}

/// `Σ max(a[k], b[k])` over the keys `ks`.
pub open spec fn sum_max(ks: Seq<Seq<char>>, a: Map<Seq<char>, usize>, b: Map<Seq<char>, usize>) -> nat
    decreases ks.len(),
{
    if ks.len() == 0 {
        0
    } else {
        let k = ks.last();
        let x = count_or_zero(a, k);
        let y = count_or_zero(b, k);
        sum_max(ks.drop_last(), a, b) + if x >= y {
            x
        } else {
            y
        }
    }
}

/// `Σ b[k]` over the keys `ks` that `a` lacks.
pub open spec fn sum_absent(ks: Seq<Seq<char>>, b: Map<Seq<char>, usize>, a: Map<Seq<char>, usize>) -> nat
    decreases ks.len(),
{
    if ks.len() == 0 {
        0
    } else {
        let k = ks.last();
        sum_absent(ks.drop_last(), b, a) + if a.contains_key(k) {
            0
        } else {
            count_or_zero(b, k)
        }
    }
}

/// The multiset overlap of two part-count maps: `shared` is `Σ min` and
/// `total` is `Σ max` of the counts over every part type of either map. The
/// Jaccard similarity is `shared / total`, or 1 when `total` is zero.
#[derive(Debug, Clone, Copy)]
pub struct Similarity {
    pub shared: usize,
    pub total: usize,
}

/// The overlap sums of `a` and `b`, over the keys of `a` and then the keys
/// that only `b` has.
pub open spec fn overlap_shared(a: TextMap<usize>, b: TextMap<usize>) -> nat {
    sum_min(a.key_list(), a@, b@)
}

/// See [`overlap_shared`].
pub open spec fn overlap_total(a: TextMap<usize>, b: TextMap<usize>) -> nat {
    sum_max(a.key_list(), a@, b@) + sum_absent(b.key_list(), b@, a@)
}

proof fn lemma_prefix_sums(ks: Seq<Seq<char>>, a: Map<Seq<char>, usize>, b: Map<Seq<char>, usize>, i: int)
    requires
        0 <= i <= ks.len(),
    ensures
        sum_max(ks.take(i), a, b) <= sum_max(ks, a, b),
        sum_absent(ks.take(i), a, b) <= sum_absent(ks, a, b),
        sum_min(ks.take(i), a, b) <= sum_max(ks.take(i), a, b),
    decreases ks.len(),
{
    if i < ks.len() {
        assert(ks.drop_last().take(i) =~= ks.take(i));
        lemma_prefix_sums(ks.drop_last(), a, b, i);
    } else {
        assert(ks.take(i) =~= ks);
        lemma_min_le_max(ks, a, b);
    }
}

proof fn lemma_min_le_max(ks: Seq<Seq<char>>, a: Map<Seq<char>, usize>, b: Map<Seq<char>, usize>)
    ensures
        sum_min(ks, a, b) <= sum_max(ks, a, b),
    decreases ks.len(),
{
    if ks.len() > 0 {
        lemma_min_le_max(ks.drop_last(), a, b);
    }
}

/// The multiset overlap of two part-count maps (see [`Similarity`]).
pub fn jaccard(a: &TextMap<usize>, b: &TextMap<usize>) -> (r: Similarity)
    requires
        overlap_total(*a, *b) <= usize::MAX,
    ensures
        r.shared == overlap_shared(*a, *b),
        r.total == overlap_total(*a, *b),
{
    let n = a.len();
    let ghost ka = a.key_list();
    let mut shared: usize = 0;
    let mut total: usize = 0;
    let mut i: usize = 0;
    while i < n
        invariant
            n == ka.len(),
            ka == a.key_list(),
            overlap_total(*a, *b) <= usize::MAX,
            0 <= i <= n,
            shared == sum_min(ka.take(i as int), a@, b@),
            total == sum_max(ka.take(i as int), a@, b@),
        decreases n - i,
    {
        let (k, ca) = a.entry(i);
        let cb: usize = match b.get(k.as_str()) {
            Some(c) => *c,
            None => 0,
        };
        proof {
            assert(ka.take(i + 1).drop_last() =~= ka.take(i as int));
            assert(ka.take(i + 1).last() == k@);
            lemma_prefix_sums(ka, a@, b@, i + 1);
        }
        if *ca <= cb {
            shared = shared + *ca;
            total = total + cb;
        } else {
            shared = shared + cb;
            total = total + *ca;
        }
        i = i + 1;
    }
    assert(ka.take(n as int) =~= ka);
    let m = b.len();
    let ghost kb = b.key_list();
    let mut j: usize = 0;
    let ghost head = total as nat;
    assert(kb.take(0) =~= Seq::<Seq<char>>::empty());
    while j < m
        invariant
            m == kb.len(),
            kb == b.key_list(),
            head == sum_max(a.key_list(), a@, b@),
            overlap_total(*a, *b) <= usize::MAX,
            0 <= j <= m,
            total == head + sum_absent(kb.take(j as int), b@, a@),
        decreases m - j,
    {
        let (k, cb) = b.entry(j);
        proof {
            assert(kb.take(j + 1).drop_last() =~= kb.take(j as int));
            assert(kb.take(j + 1).last() == k@);
            lemma_prefix_sums(kb, b@, a@, j + 1);
        }
        match a.get(k.as_str()) {
            Some(_) => {},
            None => {
                total = total + *cb;
            },
        }
        j = j + 1;
    }
    assert(kb.take(m as int) =~= kb);
    Similarity { shared, total }
}

/// The numerator of a similarity's score: `shared`, or 1 when `total` is zero.
pub open spec fn score_num(x: Similarity) -> nat {
    if x.total == 0 {
        1
    } else {
        x.shared as nat
    }
}

/// The denominator of a similarity's score: `total`, or 1 when it is zero.
pub open spec fn score_den(x: Similarity) -> nat {
    if x.total == 0 {
        1
    } else {
        x.total as nat
    }
}

/// The score of `x` is strictly above the score of `y`.
pub open spec fn scores_above(x: Similarity, y: Similarity) -> bool {
    score_num(x) * score_den(y) > score_num(y) * score_den(x)
}

proof fn lemma_scores(x: Similarity, y: Similarity, z: Similarity)
    ensures
        !scores_above(x, x),
        scores_above(x, y) ==> !scores_above(y, x),
        scores_above(x, y) && !scores_above(z, y) ==> scores_above(x, z),
        !scores_above(y, x) && scores_above(y, z) ==> scores_above(x, z),
        !scores_above(x, y) && !scores_above(y, z) ==> !scores_above(x, z),
{
    let (a, b) = (score_num(x), score_den(x));
    let (c, d) = (score_num(y), score_den(y));
    let (e, f) = (score_num(z), score_den(z));
    assert(b > 0 && d > 0 && f > 0);
    lemma_ratio_order(a, b, c, d, e, f);
}

proof fn lemma_ratio_order(a: nat, b: nat, c: nat, d: nat, e: nat, f: nat)
    requires
        b > 0,
        d > 0,
        f > 0,
    ensures
        a * d > c * b && e * d <= c * f ==> a * f > e * b,
        a * d >= c * b && c * f > e * d ==> a * f > e * b,
        a * d <= c * b && c * f <= e * d ==> a * f <= e * b,
{
    if a * d > c * b && e * d <= c * f {
        assert(a * d * f > c * b * f) by (nonlinear_arith)
            requires
                a * d > c * b,
                f > 0,
        ;
        assert(e * d * b <= c * f * b) by (nonlinear_arith)
            requires
                e * d <= c * f,
        ;
        assert(a * f * d > e * b * d) by (nonlinear_arith)
            requires
                a * d * f > c * b * f,
                e * d * b <= c * f * b,
        ;
        assert(a * f > e * b) by (nonlinear_arith)
            requires
                a * f * d > e * b * d,
                d > 0,
        ;
    }
    if a * d >= c * b && c * f > e * d {
        assert(a * d * f >= c * b * f) by (nonlinear_arith)
            requires
                a * d >= c * b,
        ;
        assert(c * f * b > e * d * b) by (nonlinear_arith)
            requires
                c * f > e * d,
                b > 0,
        ;
        assert(a * f * d > e * b * d) by (nonlinear_arith)
            requires
                a * d * f >= c * b * f,
                c * f * b > e * d * b,
        ;
        assert(a * f > e * b) by (nonlinear_arith)
            requires
                a * f * d > e * b * d,
                d > 0,
        ;
    }
    if a * d <= c * b && c * f <= e * d {
        assert(a * d * f <= c * b * f) by (nonlinear_arith)
            requires
                a * d <= c * b,
        ;
        assert(c * f * b <= e * d * b) by (nonlinear_arith)
            requires
                c * f <= e * d,
        ;
        assert(a * f * d <= e * b * d) by (nonlinear_arith)
            requires
                a * d * f <= c * b * f,
                c * f * b <= e * d * b,
        ;
        assert(a * f <= e * b) by (nonlinear_arith)
            requires
                a * f * d <= e * b * d,
                d > 0,
        ;
    }
}

proof fn lemma_sums_self(ks: Seq<Seq<char>>, m: Map<Seq<char>, usize>)
    requires
        forall|i: int| 0 <= i < ks.len() ==> m.contains_key(#[trigger] ks[i]),
    ensures
        sum_min(ks, m, m) == sum_max(ks, m, m),
        sum_absent(ks, m, m) == 0,
    decreases ks.len(),
{
    if ks.len() > 0 {
        assert(m.contains_key(ks[ks.len() - 1]));
        lemma_sums_self(ks.drop_last(), m);
    }
}

proof fn lemma_sum_min_absent(ks: Seq<Seq<char>>, a: Map<Seq<char>, usize>, b: Map<Seq<char>, usize>)
    requires
        forall|i: int| 0 <= i < ks.len() ==> !b.contains_key(#[trigger] ks[i]),
    ensures
        sum_min(ks, a, b) == 0,
    decreases ks.len(),
{
    if ks.len() > 0 {
        assert(!b.contains_key(ks[ks.len() - 1]));
        lemma_sum_min_absent(ks.drop_last(), a, b);
    }
}

/// Law: a part-count map overlaps itself fully — shared equals total, so
/// its similarity to itself is 1.
pub proof fn law_overlap_self(a: TextMap<usize>)
    requires
        a.listed(),
    ensures
        overlap_shared(a, a) == overlap_total(a, a),
{
    let ks = a.key_list();
    assert forall|i: int| 0 <= i < ks.len() implies a@.contains_key(#[trigger] ks[i]) by {
        assert(ks.to_set().contains(ks[i]));
    }
    lemma_sums_self(ks, a@);
}

/// Law: the shared count never exceeds the total, so a similarity lies
/// between 0 and 1.
pub proof fn law_overlap_bounded(a: TextMap<usize>, b: TextMap<usize>)
    ensures
        overlap_shared(a, b) <= overlap_total(a, b),
{
    lemma_min_le_max(a.key_list(), a@, b@);
}

/// Law: two empty part-count maps have total zero, so their similarity is 1.
pub proof fn law_overlap_empty(a: TextMap<usize>, b: TextMap<usize>)
    requires
        a.listed(),
        b.listed(),
        a@.dom() == Set::<Seq<char>>::empty(),
        b@.dom() == Set::<Seq<char>>::empty(),
    ensures
        overlap_total(a, b) == 0,
{
    lemma_listing_empty(a.key_list(), a@.dom());
    lemma_listing_empty(b.key_list(), b@.dom());
}

/// `Σ f(k)` over the keys `ks`.
pub open spec fn sum_of(ks: Seq<Seq<char>>, f: spec_fn(Seq<char>) -> nat) -> nat
    decreases ks.len(),
{
    if ks.len() == 0 {
        0
    } else {
        sum_of(ks.drop_last(), f) + f(ks.last())
    }
}

/// `min(a[k], b[k])`, absent counts being zero.
pub open spec fn min_count(a: Map<Seq<char>, usize>, b: Map<Seq<char>, usize>) -> spec_fn(Seq<char>) -> nat {
    |k: Seq<char>|
        if count_or_zero(a, k) <= count_or_zero(b, k) {
            count_or_zero(a, k)
        } else {
            count_or_zero(b, k)
        }
}

/// `max(a[k], b[k])`, absent counts being zero.
pub open spec fn max_count(a: Map<Seq<char>, usize>, b: Map<Seq<char>, usize>) -> spec_fn(Seq<char>) -> nat {
    |k: Seq<char>|
        if count_or_zero(a, k) >= count_or_zero(b, k) {
            count_or_zero(a, k)
        } else {
            count_or_zero(b, k)
        }
}

/// `b[k]` when `a` lacks `k`, else zero.
pub open spec fn absent_count(b: Map<Seq<char>, usize>, a: Map<Seq<char>, usize>) -> spec_fn(Seq<char>) -> nat {
    |k: Seq<char>|
        if a.contains_key(k) {
            0
        } else {
            count_or_zero(b, k)
        }
}

/// `max(a[k], b[k])` when both hold `k`, else zero.
pub open spec fn common_count(a: Map<Seq<char>, usize>, b: Map<Seq<char>, usize>) -> spec_fn(Seq<char>) -> nat {
    |k: Seq<char>|
        if a.contains_key(k) && b.contains_key(k) {
            max_count(a, b)(k)
        } else {
            0
        }
}

proof fn lemma_sums_as_sum_of(ks: Seq<Seq<char>>, a: Map<Seq<char>, usize>, b: Map<Seq<char>, usize>)
    ensures
        sum_min(ks, a, b) == sum_of(ks, min_count(a, b)),
        sum_max(ks, a, b) == sum_of(ks, max_count(a, b)),
        sum_absent(ks, a, b) == sum_of(ks, absent_count(a, b)),
    decreases ks.len(),
{
    if ks.len() > 0 {
        lemma_sums_as_sum_of(ks.drop_last(), a, b);
    }
}

proof fn lemma_sum_remove(ks: Seq<Seq<char>>, f: spec_fn(Seq<char>) -> nat, j: int)
    requires
        0 <= j < ks.len(),
    ensures
        sum_of(ks, f) == sum_of(ks.remove(j), f) + f(ks[j]),
    decreases ks.len(),
{
    if j == ks.len() - 1 {
        assert(ks.remove(j) =~= ks.drop_last());
    } else {
        lemma_sum_remove(ks.drop_last(), f, j);
        assert(ks.remove(j).drop_last() =~= ks.drop_last().remove(j));
        assert(ks.remove(j).last() == ks.last());
    }
}

proof fn lemma_sum_zero(ks: Seq<Seq<char>>, f: spec_fn(Seq<char>) -> nat)
    requires
        forall|i: int| 0 <= i < ks.len() ==> f(#[trigger] ks[i]) == 0,
    ensures
        sum_of(ks, f) == 0,
    decreases ks.len(),
{
    if ks.len() > 0 {
        assert(f(ks[ks.len() - 1]) == 0);
        lemma_sum_zero(ks.drop_last(), f);
    }
}

/// Two duplicate-free key lists that agree on every key that `f` counts
/// give the same sum.
proof fn lemma_sum_same_support(ks1: Seq<Seq<char>>, ks2: Seq<Seq<char>>, f: spec_fn(Seq<char>) -> nat)
    requires
        ks1.no_duplicates(),
        ks2.no_duplicates(),
        forall|k: Seq<char>| f(k) != 0 ==> (ks1.contains(k) <==> ks2.contains(k)),
    ensures
        sum_of(ks1, f) == sum_of(ks2, f),
    decreases ks1.len(),
{
    if ks1.len() == 0 {
        assert forall|i: int| 0 <= i < ks2.len() implies f(#[trigger] ks2[i]) == 0 by {
            assert(ks2.contains(ks2[i]));
        }
        lemma_sum_zero(ks2, f);
    } else {
        let x = ks1.last();
        let d1 = ks1.drop_last();
        assert(ks1.contains(x));
        assert(!d1.contains(x)) by {
            if d1.contains(x) {
                let i = choose|i: int| 0 <= i < d1.len() && d1[i] == x;
                assert(ks1[i] == ks1[ks1.len() - 1]);
            }
        }
        assert forall|k: Seq<char>| d1.contains(k) && k != x <==> ks1.contains(k) && k != x by {
            if ks1.contains(k) && k != x {
                let i = choose|i: int| 0 <= i < ks1.len() && ks1[i] == k;
                assert(d1[i] == k);
            }
        }
        if ks2.contains(x) {
            let j = choose|j: int| 0 <= j < ks2.len() && ks2[j] == x;
            let d2 = ks2.remove(j);
            assert(!d2.contains(x)) by {
                if d2.contains(x) {
                    let i = choose|i: int| 0 <= i < d2.len() && d2[i] == x;
                    if i < j {
                        assert(ks2[i] == x);
                    } else {
                        assert(ks2[i + 1] == x);
                    }
                }
            }
            assert forall|k: Seq<char>| d2.contains(k) && k != x <==> ks2.contains(k) && k != x by {
                if ks2.contains(k) && k != x {
                    let i = choose|i: int| 0 <= i < ks2.len() && ks2[i] == k;
                    if i < j {
                        assert(d2[i] == k);
                    } else {
                        assert(d2[i - 1] == k);
                    }
                }
                if d2.contains(k) {
                    let i = choose|i: int| 0 <= i < d2.len() && d2[i] == k;
                    if i < j {
                        assert(ks2[i] == k);
                    } else {
                        assert(ks2[i + 1] == k);
                    }
                }
            }
            assert(d2.no_duplicates()) by {
                assert forall|p: int, q: int| 0 <= p < d2.len() && 0 <= q < d2.len() && p != q implies d2[p]
                    != d2[q] by {
                    let pp = if p < j {
                        p
                    } else {
                        p + 1
                    };
                    let qq = if q < j {
                        q
                    } else {
                        q + 1
                    };
                    assert(d2[p] == ks2[pp] && d2[q] == ks2[qq]);
                }
            }
            assert(d1.no_duplicates()) by {
                assert forall|p: int, q: int| 0 <= p < d1.len() && 0 <= q < d1.len() && p != q implies d1[p]
                    != d1[q] by {
                    assert(d1[p] == ks1[p] && d1[q] == ks1[q]);
                }
            }
            lemma_sum_same_support(d1, d2, f);
            lemma_sum_remove(ks2, f, j);
        } else {
            assert(f(x) == 0);
            assert(d1.no_duplicates()) by {
                assert forall|p: int, q: int| 0 <= p < d1.len() && 0 <= q < d1.len() && p != q implies d1[p]
                    != d1[q] by {
                    assert(d1[p] == ks1[p] && d1[q] == ks1[q]);
                }
            }
            lemma_sum_same_support(d1, ks2, f);
        }
    }
}

proof fn lemma_sum_split(
    ks: Seq<Seq<char>>,
    f: spec_fn(Seq<char>) -> nat,
    g: spec_fn(Seq<char>) -> nat,
    h: spec_fn(Seq<char>) -> nat,
)
    requires
        forall|i: int| 0 <= i < ks.len() ==> f(#[trigger] ks[i]) == g(ks[i]) + h(ks[i]),
    ensures
        sum_of(ks, f) == sum_of(ks, g) + sum_of(ks, h),
    decreases ks.len(),
{
    if ks.len() > 0 {
        assert(f(ks[ks.len() - 1]) == g(ks[ks.len() - 1]) + h(ks[ks.len() - 1]));
        lemma_sum_split(ks.drop_last(), f, g, h);
    }
}

/// Law: the overlap of two part-count maps does not depend on their order —
/// shared and total are the same either way round, so the similarity is
/// symmetric.
pub proof fn law_overlap_symmetric(a: TextMap<usize>, b: TextMap<usize>)
    requires
        a.listed(),
        b.listed(),
    ensures
        overlap_shared(a, b) == overlap_shared(b, a),
        overlap_total(a, b) == overlap_total(b, a),
{
    let ka = a.key_list();
    let kb = b.key_list();
    lemma_listing_facts(ka, a@.dom());
    lemma_listing_facts(kb, b@.dom());
    lemma_sums_as_sum_of(ka, a@, b@);
    lemma_sums_as_sum_of(kb, b@, a@);
    lemma_sums_as_sum_of(ka, b@, a@);
    lemma_sums_as_sum_of(kb, a@, b@);
    // shared
    assert(min_count(a@, b@) =~= min_count(b@, a@));
    assert forall|k: Seq<char>| min_count(a@, b@)(k) != 0 implies (ka.contains(k) <==> kb.contains(k)) by {
        assert(a@.contains_key(k) && b@.contains_key(k));
    }
    lemma_sum_same_support(ka, kb, min_count(a@, b@));
    // total
    let m = max_count(a@, b@);
    assert(m =~= max_count(b@, a@));
    let c = common_count(a@, b@);
    assert(c =~= common_count(b@, a@));
    assert forall|i: int| 0 <= i < ka.len() implies m(#[trigger] ka[i]) == c(ka[i]) + absent_count(a@, b@)(ka[i]) by {
        assert(a@.contains_key(ka[i]));
    }
    lemma_sum_split(ka, m, c, absent_count(a@, b@));
    assert forall|i: int| 0 <= i < kb.len() implies m(#[trigger] kb[i]) == c(kb[i]) + absent_count(b@, a@)(kb[i]) by {
        assert(b@.contains_key(kb[i]));
    }
    lemma_sum_split(kb, m, c, absent_count(b@, a@));
    assert forall|k: Seq<char>| c(k) != 0 implies (ka.contains(k) <==> kb.contains(k)) by {
        assert(a@.contains_key(k) && b@.contains_key(k));
    }
    lemma_sum_same_support(ka, kb, c);
}

proof fn lemma_sum_at_least(ks: Seq<Seq<char>>, f: spec_fn(Seq<char>) -> nat, i: int)
    requires
        0 <= i < ks.len(),
    ensures
        sum_of(ks, f) >= f(ks[i]),
    decreases ks.len(),
{
    if i < ks.len() - 1 {
        lemma_sum_at_least(ks.drop_last(), f, i);
    }
}

/// `max(a[k], b[k]) - min(a[k], b[k])`.
pub open spec fn count_gap(a: Map<Seq<char>, usize>, b: Map<Seq<char>, usize>) -> spec_fn(Seq<char>) -> nat {
    |k: Seq<char>| (max_count(a, b)(k) - min_count(a, b)(k)) as nat
}

/// Law: the overlap is full (shared equals total, so the similarity is 1)
/// exactly when every part type has the same count in both maps, an absent
/// type counting zero.
pub proof fn law_overlap_full(a: TextMap<usize>, b: TextMap<usize>)
    requires
        a.listed(),
        b.listed(),
    ensures
        (overlap_shared(a, b) == overlap_total(a, b)) <==> (forall|k: Seq<char>|
            count_or_zero(a@, k) == count_or_zero(b@, k)),
{
    let ka = a.key_list();
    let kb = b.key_list();
    lemma_listing_facts(ka, a@.dom());
    lemma_listing_facts(kb, b@.dom());
    lemma_sums_as_sum_of(ka, a@, b@);
    lemma_sums_as_sum_of(kb, b@, a@);
    let mx = max_count(a@, b@);
    let mn = min_count(a@, b@);
    let gap = count_gap(a@, b@);
    let ab = absent_count(b@, a@);
    assert forall|i: int| 0 <= i < ka.len() implies mx(#[trigger] ka[i]) == mn(ka[i]) + gap(ka[i]) by {}
    lemma_sum_split(ka, mx, mn, gap);
    if forall|k: Seq<char>| count_or_zero(a@, k) == count_or_zero(b@, k) {
        assert forall|i: int| 0 <= i < ka.len() implies gap(#[trigger] ka[i]) == 0 by {
            assert(count_or_zero(a@, ka[i]) == count_or_zero(b@, ka[i]));
        }
        lemma_sum_zero(ka, gap);
        assert forall|i: int| 0 <= i < kb.len() implies ab(#[trigger] kb[i]) == 0 by {
            assert(count_or_zero(a@, kb[i]) == count_or_zero(b@, kb[i]));
        }
        lemma_sum_zero(kb, ab);
    }
    if overlap_shared(a, b) == overlap_total(a, b) {
        assert forall|k: Seq<char>| count_or_zero(a@, k) == count_or_zero(b@, k) by {
            if a@.contains_key(k) {
                assert(ka.contains(k));
                let i = choose|i: int| 0 <= i < ka.len() && ka[i] == k;
                lemma_sum_at_least(ka, gap, i);
            } else if b@.contains_key(k) {
                assert(kb.contains(k));
                let i = choose|i: int| 0 <= i < kb.len() && kb[i] == k;
                lemma_sum_at_least(kb, ab, i);
            }
        }
    }
}

/// Law: when no part type has a positive count in both maps they share
/// nothing, and when some count is positive the total is positive, so the
/// similarity is 0.
pub proof fn law_overlap_disjoint(a: TextMap<usize>, b: TextMap<usize>)
    requires
        a.listed(),
        b.listed(),
        forall|k: Seq<char>| count_or_zero(a@, k) == 0 || count_or_zero(b@, k) == 0,
    ensures
        overlap_shared(a, b) == 0,
        (exists|k: Seq<char>| count_or_zero(a@, k) > 0 || count_or_zero(b@, k) > 0) ==> overlap_total(a, b)
            > 0,
{
    let ka = a.key_list();
    let kb = b.key_list();
    lemma_listing_facts(ka, a@.dom());
    lemma_listing_facts(kb, b@.dom());
    lemma_sums_as_sum_of(ka, a@, b@);
    lemma_sums_as_sum_of(kb, b@, a@);
    let mn = min_count(a@, b@);
    assert forall|i: int| 0 <= i < ka.len() implies mn(#[trigger] ka[i]) == 0 by {
        assert(count_or_zero(a@, ka[i]) == 0 || count_or_zero(b@, ka[i]) == 0);
    }
    lemma_sum_zero(ka, mn);
    if exists|k: Seq<char>| count_or_zero(a@, k) > 0 || count_or_zero(b@, k) > 0 {
        let k = choose|k: Seq<char>| count_or_zero(a@, k) > 0 || count_or_zero(b@, k) > 0;
        if a@.contains_key(k) {
            assert(ka.contains(k));
            let i = choose|i: int| 0 <= i < ka.len() && ka[i] == k;
            lemma_sum_at_least(ka, max_count(a@, b@), i);
        } else {
            assert(b@.contains_key(k));
            assert(kb.contains(k));
            let i = choose|i: int| 0 <= i < kb.len() && kb[i] == k;
            lemma_sum_at_least(kb, absent_count(b@, a@), i);
        }
    }
}

/// Whether the score of `x` is strictly above the score of `y`.
pub fn score_above(x: Similarity, y: Similarity) -> (r: bool)
    ensures
        r == scores_above(x, y),
        r == ((if x.total == 0 { 1 } else { x.shared as int }) * (if y.total == 0 { 1 } else { y.total as int })
            > (if y.total == 0 { 1 } else { y.shared as int }) * (if x.total == 0 { 1 } else { x.total as int })),
{
    let (a, b): (u64, u64) = if x.total == 0 {
        (1, 1)
    } else {
        (x.shared as u64, x.total as u64)
    };
    let (c, d): (u64, u64) = if y.total == 0 {
        (1, 1)
    } else {
        (y.shared as u64, y.total as u64)
    };
    assert((a as u128) * (d as u128) <= u128::MAX && (c as u128) * (b as u128) <= u128::MAX) by (
    nonlinear_arith)
        requires
            a <= u64::MAX,
            b <= u64::MAX,
            c <= u64::MAX,
            d <= u64::MAX,
    ;
    (a as u128) * (d as u128) > (c as u128) * (b as u128)
}

/// A candidate circuit with its similarity to the reference.
#[derive(Debug)]
pub struct RankedCandidate {
    /// The candidate's position in the list of candidates.
    pub index: usize,
    /// Its overlap with the reference.
    pub similarity: Similarity,
    /// Its topology signature.
    pub parts: TextMap<usize>,
}

/// Law: the ranking is by Jaccard ratio, best first — of two ranked
/// candidates the earlier one never has the strictly smaller ratio
/// `shared / total` (a ratio of 1 when `total` is 0), and of two with the same
/// ratio the earlier one comes first among the candidates.
pub proof fn law_ranking_by_ratio(base: TextMap<usize>, cands: Seq<Option<TextMap<usize>>>, r: Seq<RankedCandidate>)
    requires
        is_ranking(base, cands, r),
    ensures
        forall|k: int, l: int|
            0 <= k < l < r.len() ==> {
                let x = (#[trigger] r[k]).similarity;
                let y = (#[trigger] r[l]).similarity;
                let xn: int = if x.total == 0 { 1 } else { x.shared as int };
                let xd: int = if x.total == 0 { 1 } else { x.total as int };
                let yn: int = if y.total == 0 { 1 } else { y.shared as int };
                let yd: int = if y.total == 0 { 1 } else { y.total as int };
                &&& xn * yd >= yn * xd
                &&& xn * yd == yn * xd ==> r[k].index < r[l].index
            },
{
    assert forall|k: int, l: int| 0 <= k < l < r.len() implies {
        let x = (#[trigger] r[k]).similarity;
        let y = (#[trigger] r[l]).similarity;
        let xn: int = if x.total == 0 { 1 } else { x.shared as int };
        let xd: int = if x.total == 0 { 1 } else { x.total as int };
        let yn: int = if y.total == 0 { 1 } else { y.shared as int };
        let yd: int = if y.total == 0 { 1 } else { y.total as int };
        &&& xn * yd >= yn * xd
        &&& xn * yd == yn * xd ==> r[k].index < r[l].index
    } by {
        assert(ranks_before(r[k], r[l]));
        lemma_scores(r[k].similarity, r[l].similarity, r[l].similarity);
    }
}

/// `x` ranks before `y`: a higher score, or the same score and an earlier
/// position.
pub open spec fn ranks_before(x: RankedCandidate, y: RankedCandidate) -> bool {
    ||| scores_above(x.similarity, y.similarity)
    ||| !scores_above(y.similarity, x.similarity) && x.index < y.index
}

/// Candidate `i` takes part in the ranking: it parsed, and its overlap with
/// the reference can be counted.
pub open spec fn is_ranked(base: TextMap<usize>, cands: Seq<Option<TextMap<usize>>>, i: int) -> bool {
    &&& 0 <= i < cands.len()
    &&& cands[i] is Some
    &&& overlap_total(base, cands[i]->Some_0) <= usize::MAX
}

/// The ranking of `cands` against `base`: each candidate that takes part,
/// once, with its overlap, best score first, ties in candidate order.
pub open spec fn is_ranking(
    base: TextMap<usize>,
    cands: Seq<Option<TextMap<usize>>>,
    r: Seq<RankedCandidate>,
) -> bool {
    &&& forall|k: int|
        0 <= k < r.len() ==> {
            &&& is_ranked(base, cands, #[trigger] r[k].index as int)
            &&& r[k].parts == cands[r[k].index as int]->Some_0
            &&& r[k].similarity.shared == overlap_shared(base, r[k].parts)
            &&& r[k].similarity.total == overlap_total(base, r[k].parts)
        }
    &&& forall|i: int| is_ranked(base, cands, i) ==> exists|k: int| 0 <= k < r.len() && #[trigger] r[k].index == i
    &&& forall|k: int, l: int| 0 <= k < l < r.len() ==> ranks_before(#[trigger] r[k], #[trigger] r[l])
}

/// Whether the overlap of `a` and `b` can be counted in a `usize`.
pub fn overlap_fits(a: &TextMap<usize>, b: &TextMap<usize>) -> (r: bool)
    ensures
        r == (overlap_total(*a, *b) <= usize::MAX),
{
    let n = a.len();
    let ghost ka = a.key_list();
    let mut total: usize = 0;
    let mut i: usize = 0;
    while i < n
        invariant
            n == ka.len(),
            ka == a.key_list(),
            0 <= i <= n,
            total == sum_max(ka.take(i as int), a@, b@),
        decreases n - i,
    {
        let (k, ca) = a.entry(i);
        let cb: usize = match b.get(k.as_str()) {
            Some(c) => *c,
            None => 0,
        };
        proof {
            assert(ka.take(i + 1).drop_last() =~= ka.take(i as int));
            assert(ka.take(i + 1).last() == k@);
            lemma_prefix_sums(ka, a@, b@, i + 1);
            lemma_absent_nonneg(b.key_list(), b@, a@);
        }
        let top = if *ca >= cb {
            *ca
        } else {
            cb
        };
        match total.checked_add(top) {
            Some(t) => {
                total = t;
            },
            None => {
                return false;
            },
        }
        i = i + 1;
    }
    assert(ka.take(n as int) =~= ka);
    let m = b.len();
    let ghost kb = b.key_list();
    let mut j: usize = 0;
    let ghost head = total as nat;
    assert(kb.take(0) =~= Seq::<Seq<char>>::empty());
    while j < m
        invariant
            m == kb.len(),
            kb == b.key_list(),
            head == sum_max(a.key_list(), a@, b@),
            0 <= j <= m,
            total == head + sum_absent(kb.take(j as int), b@, a@),
        decreases m - j,
    {
        let (k, cb) = b.entry(j);
        proof {
            assert(kb.take(j + 1).drop_last() =~= kb.take(j as int));
            assert(kb.take(j + 1).last() == k@);
            lemma_prefix_sums(kb, b@, a@, j + 1);
        }
        match a.get(k.as_str()) {
            Some(_) => {},
            None => {
                match total.checked_add(*cb) {
                    Some(t) => {
                        total = t;
                    },
                    None => {
                        return false;
                    },
                }
            },
        }
        j = j + 1;
    }
    assert(kb.take(m as int) =~= kb);
    true
}

proof fn lemma_absent_nonneg(ks: Seq<Seq<char>>, b: Map<Seq<char>, usize>, a: Map<Seq<char>, usize>)
    ensures
        sum_absent(ks, b, a) >= 0,
{
}

/// Rank candidate signatures by their similarity to `base`, best first and,
/// among equal scores, in candidate order. A candidate that did not parse
/// (`None`) is left out, as is one whose counts would overflow.
pub fn rank_similar(base: &TextMap<usize>, candidates: Vec<Option<TextMap<usize>>>) -> (r: Vec<
    RankedCandidate,
>)
    ensures
        is_ranking(*base, candidates@, r@),
        forall|k: int, l: int|
            0 <= k < l < r@.len() ==> {
                let x = (#[trigger] r@[k]).similarity;
                let y = (#[trigger] r@[l]).similarity;
                let xn: int = if x.total == 0 { 1 } else { x.shared as int };
                let xd: int = if x.total == 0 { 1 } else { x.total as int };
                let yn: int = if y.total == 0 { 1 } else { y.shared as int };
                let yd: int = if y.total == 0 { 1 } else { y.total as int };
                &&& xn * yd >= yn * xd
                &&& xn * yd == yn * xd ==> r@[k].index < r@[l].index
            },
{
    let ghost cands = candidates@;
    let n = candidates.len();
    let mut source = candidates;
    let mut rev: Vec<Option<TextMap<usize>>> = Vec::new();
    while source.len() > 0
        invariant
            n == cands.len(),
            source@.len() + rev@.len() == n,
            forall|k: int| 0 <= k < source@.len() ==> #[trigger] source@[k] == cands[k],
            forall|k: int| 0 <= k < rev@.len() ==> #[trigger] rev@[k] == cands[n - 1 - k],
        decreases source@.len(),
    {
        match source.pop() {
            Some(x) => {
                rev.push(x);
            },
            None => {},
        }
    }
    let mut ranked: Vec<RankedCandidate> = Vec::new();
    let mut i: usize = 0;
    while i < n
        invariant
            n == cands.len(),
            0 <= i <= n,
            rev@.len() == n - i,
            forall|k: int| 0 <= k < rev@.len() ==> #[trigger] rev@[k] == cands[n - 1 - k],
            forall|k: int|
                0 <= k < ranked@.len() ==> {
                    &&& is_ranked(*base, cands, #[trigger] ranked@[k].index as int)
                    &&& ranked@[k].index < i
                    &&& ranked@[k].parts == cands[ranked@[k].index as int]->Some_0
                    &&& ranked@[k].similarity.shared == overlap_shared(*base, ranked@[k].parts)
                    &&& ranked@[k].similarity.total == overlap_total(*base, ranked@[k].parts)
                },
            forall|j: int|
                0 <= j < i && is_ranked(*base, cands, j) ==> exists|k: int|
                    0 <= k < ranked@.len() && #[trigger] ranked@[k].index == j,
            forall|k: int, l: int|
                0 <= k < l < ranked@.len() ==> ranks_before(#[trigger] ranked@[k], #[trigger] ranked@[l]),
        decreases n - i,
    {
        let ghost last = rev@.len() - 1;
        assert(rev@[last] == cands[i as int]);
        let item = rev.pop();
        let ghost old_ranked = ranked@;
        match item {
            Some(Some(sig)) => {
                if overlap_fits(base, &sig) {
                    let sim = jaccard(base, &sig);
                    let mut p: usize = 0;
                    let len = ranked.len();
                    while p < len
                        invariant
                            len == ranked@.len(),
                            0 <= p <= len,
                            forall|q: int| 0 <= q < p ==> !scores_above(sim, #[trigger] ranked@[q].similarity),
                        ensures
                            0 <= p <= len,
                            forall|q: int| 0 <= q < p ==> !scores_above(sim, #[trigger] ranked@[q].similarity),
                            p < len ==> scores_above(sim, ranked@[p as int].similarity),
                        decreases len - p,
                    {
                        if score_above(sim, ranked[p].similarity) {
                            break;
                        }
                        p = p + 1;
                    }
                    let cand = RankedCandidate { index: i, similarity: sim, parts: sig };
                    let ghost c = cand;
                    ranked.insert(p, cand);
                    proof {
                        assert(p < len ==> scores_above(sim, old_ranked[p as int].similarity));
                        assert forall|k: int, l: int| 0 <= k < l < ranked@.len() implies ranks_before(
                            #[trigger] ranked@[k],
                            #[trigger] ranked@[l],
                        ) by {
                            if l < p {
                                assert(ranked@[k] == old_ranked[k] && ranked@[l] == old_ranked[l]);
                            } else if l == p {
                                assert(ranked@[k] == old_ranked[k]);
                                assert(ranked@[l] == c);
                            } else if k == p {
                                let y = old_ranked[l - 1];
                                assert(ranked@[l] == y);
                                if l - 1 > p {
                                    assert(ranks_before(old_ranked[p as int], y));
                                    lemma_scores(old_ranked[p as int].similarity, y.similarity, y.similarity);
                                    lemma_scores(sim, old_ranked[p as int].similarity, y.similarity);
                                }
                            } else if k < p {
                                assert(ranked@[k] == old_ranked[k] && ranked@[l] == old_ranked[l - 1]);
                            } else {
                                assert(ranked@[k] == old_ranked[k - 1] && ranked@[l] == old_ranked[l - 1]);
                            }
                        }
                        assert forall|j: int|
                            0 <= j < i + 1 && is_ranked(*base, cands, j) implies exists|k: int|
                            0 <= k < ranked@.len() && #[trigger] ranked@[k].index == j by {
                            if j == i {
                                assert(ranked@[p as int].index == j);
                            } else {
                                let k = choose|k: int| 0 <= k < old_ranked.len() && #[trigger] old_ranked[k].index == j;
                                if k < p {
                                    assert(ranked@[k] == old_ranked[k]);
                                } else {
                                    assert(ranked@[k + 1] == old_ranked[k]);
                                }
                            }
                        }
                        assert forall|k: int| 0 <= k < ranked@.len() implies {
                            &&& is_ranked(*base, cands, #[trigger] ranked@[k].index as int)
                            &&& ranked@[k].index < i + 1
                            &&& ranked@[k].parts == cands[ranked@[k].index as int]->Some_0
                            &&& ranked@[k].similarity.shared == overlap_shared(*base, ranked@[k].parts)
                            &&& ranked@[k].similarity.total == overlap_total(*base, ranked@[k].parts)
                        } by {
                            if k < p {
                                assert(ranked@[k] == old_ranked[k]);
                            } else if k > p {
                                assert(ranked@[k] == old_ranked[k - 1]);
                            }
                        }
                    }
                }
            },
            _ => {},
        }
        i = i + 1;
    }
    proof {
        law_ranking_by_ratio(*base, cands, ranked@);
    }
    ranked
}

/// The keys of `from` that `other` lacks, ascending.
pub fn missing_keys<V, W>(from: &TextMap<V>, other: &TextMap<W>) -> (r: Vec<String>)
    ensures
        lists(texts(r@), from@.dom().difference(other@.dom())),
{
    let n = from.len();
    let ghost ks = from.key_list();
    let mut out: Vec<String> = Vec::new();
    let mut i: usize = 0;
    assert(ks.take(0).to_set() =~= Set::<Seq<char>>::empty());
    assert(texts(out@).to_set() =~= Set::<Seq<char>>::empty());
    while i < n
        invariant
            n == ks.len(),
            ks == from.key_list(),
            lists(ks, from@.dom()),
            0 <= i <= n,
            ascending_texts(texts(out@)),
            i < n ==> forall|k: int| 0 <= k < out@.len() ==> text_less(#[trigger] texts(out@)[k], ks[i as int]),
            texts(out@).to_set() == ks.take(i as int).to_set().filter(|k: Seq<char>| !other@.contains_key(k)),
        decreases n - i,
    {
        let (k, _) = from.entry(i);
        let ghost before = texts(out@);
        assert(ks.take(i + 1) =~= ks.take(i as int).push(ks[i as int]));
        proof {
            ks.take(i as int).lemma_push_to_set_commute(ks[i as int]);
        }
        match other.get(k.as_str()) {
            Some(_) => {
                assert(ks.take(i + 1).to_set().filter(|x: Seq<char>| !other@.contains_key(x)) =~= ks.take(
                    i as int,
                ).to_set().filter(|x: Seq<char>| !other@.contains_key(x)));
            },
            None => {
                out.push(k.clone());
                assert(texts(out@) =~= before.push(k@));
                proof {
                    before.lemma_push_to_set_commute(k@);
                }
                assert(ks.take(i + 1).to_set().filter(|x: Seq<char>| !other@.contains_key(x)) =~= ks.take(
                    i as int,
                ).to_set().filter(|x: Seq<char>| !other@.contains_key(x)).insert(k@));
            },
        }
        proof {
            if i + 1 < n {
                assert(text_less(ks[i as int], ks[i + 1]));
                assert forall|j: int| 0 <= j < out@.len() implies text_less(#[trigger] texts(out@)[j], ks[i + 1]) by {
                    if j < before.len() {
                        lemma_text_order(before[j], ks[i as int], ks[i + 1]);
                    }
                }
            }
        }
        i = i + 1;
    }
    assert(ks.take(n as int) =~= ks);
    assert(from@.dom().filter(|k: Seq<char>| !other@.contains_key(k)) =~= from@.dom().difference(other@.dom()));
    out
}

/// An instance whose part type differs between two versions.
#[derive(Debug)]
pub struct InstanceChange {
    pub instance: String,
    pub from: String,
    pub to: String,
}

/// The instance names of a list of changes.
pub open spec fn change_names(v: Seq<InstanceChange>) -> Seq<Seq<char>> {
    v.map_values(|c: InstanceChange| c.instance@)
}

/// The names that both maps hold, with different types.
pub open spec fn retyped(a: Map<Seq<char>, String>, b: Map<Seq<char>, String>) -> Set<Seq<char>> {
    a.dom().filter(|k: Seq<char>| b.contains_key(k) && a[k]@ != b[k]@)
}

/// The names that both maps hold with different types, ascending, each with
/// its type before and after.
pub fn changed_entries(a: &TextMap<String>, b: &TextMap<String>) -> (r: Vec<InstanceChange>)
    ensures
        lists(change_names(r@), retyped(a@, b@)),
        forall|k: int|
            0 <= k < r@.len() ==> (#[trigger] r@[k]).from@ == a@[r@[k].instance@]@ && r@[k].to@
                == b@[r@[k].instance@]@,
{
    let n = a.len();
    let ghost ks = a.key_list();
    let mut out: Vec<InstanceChange> = Vec::new();
    let mut i: usize = 0;
    assert(ks.take(0).to_set() =~= Set::<Seq<char>>::empty());
    assert(change_names(out@).to_set() =~= Set::<Seq<char>>::empty());
    while i < n
        invariant
            n == ks.len(),
            ks == a.key_list(),
            lists(ks, a@.dom()),
            forall|j: int| 0 <= j < ks.len() ==> a@.contains_key(#[trigger] ks[j]),
            0 <= i <= n,
            ascending_texts(change_names(out@)),
            i < n ==> forall|k: int| 0 <= k < out@.len() ==> text_less(#[trigger] change_names(out@)[k], ks[i as int]),
            change_names(out@).to_set() == ks.take(i as int).to_set().filter(
                |k: Seq<char>| b@.contains_key(k) && a@[k]@ != b@[k]@,
            ),
            forall|k: int|
                0 <= k < out@.len() ==> (#[trigger] out@[k]).from@ == a@[out@[k].instance@]@ && out@[k].to@
                    == b@[out@[k].instance@]@,
        decreases n - i,
    {
        let (k, ta) = a.entry(i);
        let ghost before = change_names(out@);
        assert(ks.take(i + 1) =~= ks.take(i as int).push(ks[i as int]));
        proof {
            ks.take(i as int).lemma_push_to_set_commute(ks[i as int]);
        }
        let mut differs = false;
        match b.get(k.as_str()) {
            Some(tb) => {
                if !crate::text::str_eq(ta.as_str(), tb.as_str()) {
                    differs = true;
                    let ghost o0 = out@;
                    out.push(InstanceChange { instance: k.clone(), from: ta.clone(), to: tb.clone() });
                    assert(change_names(out@) =~= before.push(k@));
                    proof {
                        before.lemma_push_to_set_commute(k@);
                    }
                    assert forall|j: int|
                        0 <= j < out@.len() implies (#[trigger] out@[j]).from@ == a@[out@[j].instance@]@
                        && out@[j].to@ == b@[out@[j].instance@]@ by {
                        if j < o0.len() {
                            assert(out@[j] == o0[j]);
                        }
                    }
                }
            },
            None => {},
        }
        if differs {
            assert(ks.take(i + 1).to_set().filter(|x: Seq<char>| b@.contains_key(x) && a@[x]@ != b@[x]@)
                =~= ks.take(i as int).to_set().filter(|x: Seq<char>| b@.contains_key(x) && a@[x]@ != b@[x]@).insert(
                k@,
            ));
        } else {
            assert(ks.take(i + 1).to_set().filter(|x: Seq<char>| b@.contains_key(x) && a@[x]@ != b@[x]@)
                =~= ks.take(i as int).to_set().filter(|x: Seq<char>| b@.contains_key(x) && a@[x]@ != b@[x]@));
        }
        proof {
            if i + 1 < n {
                assert(text_less(ks[i as int], ks[i + 1]));
                assert forall|j: int| 0 <= j < out@.len() implies text_less(#[trigger] change_names(out@)[j], ks[i + 1]) by {
                    if j < before.len() {
                        lemma_text_order(before[j], ks[i as int], ks[i + 1]);
                    }
                }
            }
        }
        i = i + 1;
    }
    assert(ks.take(n as int) =~= ks);
    out
}

/// A structural diff between two versions of a circuit.
#[derive(Debug)]
pub struct CircuitDiff {
    /// Instances only the later version has, ascending.
    pub added_instances: Vec<String>,
    /// Instances only the earlier version has, ascending.
    pub removed_instances: Vec<String>,
    /// Instances both have with different part types, ascending.
    pub changed_instances: Vec<InstanceChange>,
    /// Connections in the earlier version's first module.
    pub connection_count_before: usize,
    /// Connections in the later version's first module.
    pub connection_count_after: usize,
}

/// The number of connections of the first module.
pub open spec fn connections_of(data: Json) -> nat {
    match module_items(data, "connections"@) {
        Some(s) => s.len(),
        None => 0,
    }
}

/// `d` is the structural diff from the parse result `a` to `b`.
pub open spec fn is_diff(a: Json, b: Json, d: CircuitDiff) -> bool {
    let ta = name_types(a);
    let tb = name_types(b);
    &&& lists(texts(d.added_instances@), tb.dom().difference(ta.dom()))
    &&& lists(texts(d.removed_instances@), ta.dom().difference(tb.dom()))
    &&& lists(
        change_names(d.changed_instances@),
        ta.dom().filter(|k: Seq<char>| tb.contains_key(k) && ta[k] != tb[k]),
    )
    &&& forall|k: int|
        0 <= k < d.changed_instances@.len() ==> (#[trigger] d.changed_instances@[k]).from@
            == ta[d.changed_instances@[k].instance@] && d.changed_instances@[k].to@
            == tb[d.changed_instances@[k].instance@]
    &&& d.connection_count_before == connections_of(a)
    &&& d.connection_count_after == connections_of(b)
}

/// `diff_circuits`: the structural diff between two parsed versions of a
/// circuit — added, removed and re-typed instances of the first module, and
/// its connection counts.
pub fn circuit_diff(before: &Json, after: &Json) -> (d: CircuitDiff)
    ensures
        is_diff(*before, *after, d),
{
    let a = instance_types(before);
    let b = instance_types(after);
    let added = missing_keys(&b, &a);
    let removed = missing_keys(&a, &b);
    let changed = changed_entries(&a, &b);
    let d = CircuitDiff {
        added_instances: added,
        removed_instances: removed,
        changed_instances: changed,
        connection_count_before: connection_count(before),
        connection_count_after: connection_count(after),
    };
    proof {
        let ta = name_types(*before);
        let tb = name_types(*after);
        assert(a@.dom() =~= ta.dom());
        assert(b@.dom() =~= tb.dom());
        assert(forall|k: Seq<char>| #[trigger] ta.contains_key(k) ==> ta[k] == a@[k]@);
        assert(forall|k: Seq<char>| #[trigger] tb.contains_key(k) ==> tb[k] == b@[k]@);
        assert(retyped(a@, b@) =~= ta.dom().filter(|k: Seq<char>| tb.contains_key(k) && ta[k] != tb[k]));
        assert(lists(texts(d.added_instances@), tb.dom().difference(ta.dom())));
        assert(lists(texts(d.removed_instances@), ta.dom().difference(tb.dom())));
        assert forall|k: int|
            0 <= k < d.changed_instances@.len() implies (#[trigger] d.changed_instances@[k]).from@
                == ta[d.changed_instances@[k].instance@] && d.changed_instances@[k].to@
                == tb[d.changed_instances@[k].instance@] by {
            let nm = d.changed_instances@[k].instance@;
            assert(change_names(d.changed_instances@)[k] == nm);
            assert(change_names(d.changed_instances@).to_set().contains(nm));
            assert(retyped(a@, b@).contains(nm));
        }
    }
    d
}

/// Law: a circuit compared with itself has no added, removed or re-typed
/// instances, and the same connection count before and after.
pub proof fn law_diff_self(a: Json, d: CircuitDiff)
    requires
        is_diff(a, a, d),
    ensures
        d.added_instances@.len() == 0,
        d.removed_instances@.len() == 0,
        d.changed_instances@.len() == 0,
        d.connection_count_before == d.connection_count_after,
{
    let t = name_types(a);
    assert(t.dom().difference(t.dom()) =~= Set::<Seq<char>>::empty());
    assert(t.dom().filter(|k: Seq<char>| t.contains_key(k) && t[k] != t[k]) =~= Set::<Seq<char>>::empty());
    lemma_listing_empty(texts(d.added_instances@), t.dom().difference(t.dom()));
    lemma_listing_empty(texts(d.removed_instances@), t.dom().difference(t.dom()));
    lemma_listing_empty(
        change_names(d.changed_instances@),
        t.dom().filter(|k: Seq<char>| t.contains_key(k) && t[k] != t[k]),
    );
}

/// Law: diffing two versions the other way round swaps the added and the
/// removed instances, names the same re-typed instances with their types
/// swapped, and swaps the connection counts.
pub proof fn law_diff_reversed(a: Json, b: Json, d1: CircuitDiff, d2: CircuitDiff)
    requires
        is_diff(a, b, d1),
        is_diff(b, a, d2),
    ensures
        texts(d1.added_instances@) == texts(d2.removed_instances@),
        texts(d1.removed_instances@) == texts(d2.added_instances@),
        change_names(d1.changed_instances@) == change_names(d2.changed_instances@),
        forall|k: int|
            0 <= k < d1.changed_instances@.len() ==> (#[trigger] d1.changed_instances@[k]).from@
                == d2.changed_instances@[k].to@ && d1.changed_instances@[k].to@
                == d2.changed_instances@[k].from@,
        d1.connection_count_before == d2.connection_count_after,
        d1.connection_count_after == d2.connection_count_before,
{
    let ta = name_types(a);
    let tb = name_types(b);
    law_listing_determined(
        texts(d1.added_instances@),
        texts(d2.removed_instances@),
        tb.dom().difference(ta.dom()),
    );
    law_listing_determined(
        texts(d1.removed_instances@),
        texts(d2.added_instances@),
        ta.dom().difference(tb.dom()),
    );
    let s1 = ta.dom().filter(|k: Seq<char>| tb.contains_key(k) && ta[k] != tb[k]);
    let s2 = tb.dom().filter(|k: Seq<char>| ta.contains_key(k) && tb[k] != ta[k]);
    assert(s1 =~= s2);
    law_listing_determined(change_names(d1.changed_instances@), change_names(d2.changed_instances@), s1);
    assert forall|k: int| 0 <= k < d1.changed_instances@.len() implies (#[trigger] d1.changed_instances@[
        k
    ]).from@ == d2.changed_instances@[k].to@ && d1.changed_instances@[k].to@
        == d2.changed_instances@[k].from@ by {
        assert(change_names(d1.changed_instances@)[k] == change_names(d2.changed_instances@)[k]);
    }
}

/// The instance has an explicit, non-null `placement`.
pub open spec fn has_placement(item: Json) -> bool {
    match json_get(item, "placement"@) {
        Some(p) => !(p is Null),
        None => false,
    }
}

/// The names of the instances without an explicit placement, in order (an
/// instance without a string name is counted but not named).
pub open spec fn unplaced_names(items: Seq<Json>) -> Seq<Seq<char>>
    decreases items.len(),
{
    if items.len() == 0 {
        Seq::empty()
    } else {
        let rest = unplaced_names(items.drop_last());
        let it = items.last();
        if !has_placement(it) {
            match json_get(it, "name"@) {
                Some(n) => match json_str(n) {
                    Some(s) => rest.push(s),
                    None => rest,
                },
                None => rest,
            }
        } else {
            rest
        }
    }
}

/// The instance `x` has no placement (none, or `null`) and has the string
/// name `n`.
pub open spec fn lacks_placement_named(x: Json, n: Seq<char>) -> bool {
    &&& match json_get(x, "placement"@) {
        Some(p) => p is Null,
        None => true,
    }
    &&& json_get(x, "name"@) matches Some(Json::Str(s)) && s@ == n
}

/// Law: the unplaced names are exactly the names of the instances that lack
/// a placement — every such instance, at any position, is named, and every
/// name reported is that of such an instance.
pub proof fn law_unplaced_reported(items: Seq<Json>)
    ensures
        forall|i: int, n: Seq<char>|
            0 <= i < items.len() && #[trigger] lacks_placement_named(items[i], n) ==> unplaced_names(
                items,
            ).contains(n),
        forall|k: int|
            0 <= k < unplaced_names(items).len() ==> exists|i: int|
                0 <= i < items.len() && lacks_placement_named(items[i], #[trigger] unplaced_names(items)[k]),
        unplaced_names(items).len() <= items.len(),
    decreases items.len(),
{
    if items.len() > 0 {
        let d = items.drop_last();
        let rest = unplaced_names(d);
        law_unplaced_reported(d);
        let u = unplaced_names(items);
        let last = items.len() - 1;
        assert forall|i: int, n: Seq<char>|
            0 <= i < items.len() && #[trigger] lacks_placement_named(items[i], n) implies u.contains(n) by {
            if i < last {
                assert(d[i] == items[i]);
                assert(rest.contains(n));
                let k = choose|k: int| 0 <= k < rest.len() && rest[k] == n;
                assert(u[k] == n);
            } else {
                assert(u[u.len() - 1] == n);
            }
        }
        assert forall|k: int| #![trigger u[k]] 0 <= k < u.len() implies exists|i: int|
            0 <= i < items.len() && lacks_placement_named(#[trigger] items[i], u[k]) by {
            if k < rest.len() {
                assert(u[k] == rest[k]);
                let i = choose|i: int| 0 <= i < d.len() && lacks_placement_named(#[trigger] d[i], rest[k]);
                assert(items[i] == d[i]);
            } else {
                assert(lacks_placement_named(items[last], u[k]));
            }
        }
    }
}

/// The advice that goes with a list of unplaced instances.
pub open spec fn placement_advice(names: Seq<Seq<char>>) -> Seq<char> {
    if names.len() == 0 {
        "All instances have explicit placement."@
    } else {
        "Anchor the first instance with `place: (0, 0)`, then place the rest pin-relative. Instances missing placement: "@
            + join_text(names, ", "@)
    }
}

/// The answer of `suggest_placement`.
#[derive(Debug)]
pub struct PlacementReport {
    /// Instances of the first module.
    pub total_instances: usize,
    /// Names of those without an explicit placement, in order.
    pub instances_without_placement: Vec<String>,
    /// What to do about them.
    pub suggestion: String,
}

/// `suggest_placement`: list the instances of the first module that lack an
/// explicit placement, so the author can anchor them (Aelm does not rely on
/// auto-layout).
pub fn placement_report(data: &Json) -> (r: PlacementReport)
    ensures
        r.total_instances == instance_items(*data).len(),
        texts(r.instances_without_placement@) == unplaced_names(instance_items(*data)),
        r.suggestion@ == placement_advice(unplaced_names(instance_items(*data))),
        forall|i: int, n: Seq<char>|
            0 <= i < instance_items(*data).len() && #[trigger] lacks_placement_named(instance_items(*data)[i], n)
                ==> texts(r.instances_without_placement@).contains(n),
        forall|k: int|
            #![trigger r.instances_without_placement@[k]]
            0 <= k < r.instances_without_placement@.len() ==> exists|i: int|
                0 <= i < instance_items(*data).len() && lacks_placement_named(
                    #[trigger] instance_items(*data)[i],
                    r.instances_without_placement@[k]@,
                ),
{
    proof {
        law_unplaced_reported(instance_items(*data));
    }
    let mut names: Vec<String> = Vec::new();
    let mut total: usize = 0;
    if let Some(items) = module_array(data, "instances") {
        let n = items.len();
        let mut i: usize = 0;
        while i < n
            invariant
                n == items@.len(),
                0 <= i <= n,
                module_items(*data, "instances"@) == Some(items@),
                total == i,
                texts(names@) == unplaced_names(items@.take(i as int)),
            decreases n - i,
        {
            let ghost t = items@.take(i + 1);
            assert(t.drop_last() =~= items@.take(i as int));
            assert(t.last() == items@[i as int]);
            let ghost before = names@;
            total = total + 1;
            let item = &items[i];
            let placed = match item.get("placement") {
                Some(p) => !p.is_null(),
                None => false,
            };
            if !placed {
                match item.get("name") {
                    Some(nm) => match nm.as_str() {
                        Some(s) => {
                            names.push(s.clone());
                            proof {
                                crate::text::lemma_texts_push(before, *s);
                            }
                        },
                        None => {},
                    },
                    None => {},
                }
            }
            i = i + 1;
        }
        assert(items@.take(n as int) =~= items@);
    } else {
        assert(texts(names@) =~= Seq::<Seq<char>>::empty());
    }
    let suggestion = if names.len() == 0 {
        owned("All instances have explicit placement.")
    } else {
        let mut m = owned(
            "Anchor the first instance with `place: (0, 0)`, then place the rest pin-relative. Instances missing placement: ",
        );
        let joined = join_with(&names, ", ");
        push_str(&mut m, joined.as_str());
        m
    };
    proof {
        let items = instance_items(*data);
        let u = unplaced_names(items);
        assert forall|k: int| #![trigger names@[k]] 0 <= k < names@.len() implies exists|i: int|
            0 <= i < items.len() && lacks_placement_named(#[trigger] items[i], names@[k]@) by {
            assert(texts(names@)[k] == names@[k]@);
            assert(u[k] == names@[k]@);
        }
    }
    PlacementReport { total_instances: total, instances_without_placement: names, suggestion }
}

/// The sections of the circuit-patterns document: the text between its
/// `"\n## "` headings.
pub open spec fn pattern_sections() -> Seq<Seq<char>> {
    split_text(circuit_patterns_text(), "\n## "@)
}

/// The sections (in order) whose lowercase text, `lows` at the same
/// position, holds `q`.
pub open spec fn sections_with(secs: Seq<Seq<char>>, lows: Seq<Seq<char>>, q: Seq<char>) -> Seq<Seq<char>>
    decreases secs.len(),
{
    if secs.len() == 0 {
        Seq::empty()
    } else {
        let rest = sections_with(secs.drop_last(), lows, q);
        if contains_text(lows[secs.len() - 1], q) {
            rest.push(secs.last())
        } else {
            rest
        }
    }
}

/// The text `low` holds one of the `terms`.
pub open spec fn holds_a_term(low: Seq<char>, terms: Seq<Seq<char>>) -> bool {
    exists|i: int| 0 <= i < terms.len() && contains_text(low, #[trigger] terms[i])
}

/// The sections (in order) whose lowercase text, `lows` at the same
/// position, holds one of the `terms`.
pub open spec fn sections_with_a_term(secs: Seq<Seq<char>>, lows: Seq<Seq<char>>, terms: Seq<Seq<char>>) -> Seq<
    Seq<char>,
>
    decreases secs.len(),
{
    if secs.len() == 0 {
        Seq::empty()
    } else {
        let rest = sections_with_a_term(secs.drop_last(), lows, terms);
        if holds_a_term(lows[secs.len() - 1], terms) {
            rest.push(secs.last())
        } else {
            rest
        }
    }
}

/// The sections that answer the lowercase query `q`, given the lowercase
/// text of each section: those that hold `q`; failing any, those that hold
/// one of its words.
pub open spec fn section_hits(secs: Seq<Seq<char>>, lows: Seq<Seq<char>>, q: Seq<char>) -> Seq<Seq<char>> {
    let direct = sections_with(secs, lows, q);
    if direct.len() > 0 {
        direct
    } else {
        sections_with_a_term(secs, lows, words(q))
    }
}

proof fn lemma_sections_with(secs: Seq<Seq<char>>, lows: Seq<Seq<char>>, q: Seq<char>)
    ensures
        forall|i: int|
            0 <= i < secs.len() && #[trigger] contains_text(lows[i], q) ==> sections_with(secs, lows, q).contains(
                secs[i],
            ),
        (forall|i: int| 0 <= i < secs.len() ==> !#[trigger] contains_text(lows[i], q)) ==> sections_with(
            secs,
            lows,
            q,
        ).len() == 0,
    decreases secs.len(),
{
    if secs.len() > 0 {
        let d = secs.drop_last();
        let n = secs.len() - 1;
        lemma_sections_with(d, lows, q);
        let h = sections_with(secs, lows, q);
        let hd = sections_with(d, lows, q);
        assert forall|i: int| 0 <= i < secs.len() && #[trigger] contains_text(lows[i], q) implies h.contains(
            secs[i],
        ) by {
            if i < n {
                assert(d[i] == secs[i]);
                let k = choose|k: int| 0 <= k < hd.len() && hd[k] == secs[i];
                assert(h[k] == secs[i]);
            } else {
                assert(h[h.len() - 1] == secs[i]);
            }
        }
        if forall|i: int| 0 <= i < secs.len() ==> !#[trigger] contains_text(lows[i], q) {
            assert forall|i: int| 0 <= i < d.len() implies !#[trigger] contains_text(lows[i], q) by {}
            assert(!contains_text(lows[n], q));
        }
    }
}

proof fn lemma_sections_with_a_term(secs: Seq<Seq<char>>, lows: Seq<Seq<char>>, terms: Seq<Seq<char>>)
    ensures
        forall|i: int, j: int|
            0 <= i < secs.len() && 0 <= j < terms.len() && #[trigger] contains_text(lows[i], terms[j])
                ==> sections_with_a_term(secs, lows, terms).contains(secs[i]),
    decreases secs.len(),
{
    if secs.len() > 0 {
        let d = secs.drop_last();
        let n = secs.len() - 1;
        lemma_sections_with_a_term(d, lows, terms);
        let h = sections_with_a_term(secs, lows, terms);
        let hd = sections_with_a_term(d, lows, terms);
        assert forall|i: int, j: int|
            0 <= i < secs.len() && 0 <= j < terms.len() && #[trigger] contains_text(lows[i], terms[j]) implies h.contains(
            secs[i],
        ) by {
            if i < n {
                assert(d[i] == secs[i]);
                let k = choose|k: int| 0 <= k < hd.len() && hd[k] == secs[i];
                assert(h[k] == secs[i]);
            } else {
                assert(holds_a_term(lows[n], terms));
                assert(h[h.len() - 1] == secs[i]);
            }
        }
    }
}

/// Law: the pattern search keeps every section whose lowercase text holds
/// the query; when none does, it keeps every section whose lowercase text
/// holds any one of the query's words (whichever word it is).
pub proof fn law_section_hits(secs: Seq<Seq<char>>, lows: Seq<Seq<char>>, q: Seq<char>)
    ensures
        forall|i: int|
            0 <= i < secs.len() && #[trigger] contains_text(lows[i], q) ==> section_hits(secs, lows, q).contains(
                secs[i],
            ),
        (forall|i: int| 0 <= i < secs.len() ==> !#[trigger] contains_text(lows[i], q)) ==> forall|i: int, j: int|
            0 <= i < secs.len() && 0 <= j < words(q).len() && #[trigger] contains_text(lows[i], words(q)[j])
                ==> section_hits(secs, lows, q).contains(secs[i]),
{
    lemma_sections_with(secs, lows, q);
    lemma_sections_with_a_term(secs, lows, words(q));
    let h = section_hits(secs, lows, q);
    let direct = sections_with(secs, lows, q);
    if direct.len() == 0 {
        assert forall|i: int| 0 <= i < secs.len() && #[trigger] contains_text(lows[i], q) implies h.contains(
            secs[i],
        ) by {
            assert(direct.contains(secs[i]));
        }
    } else {
        assert forall|i: int, j: int|
            0 <= i < secs.len() && 0 <= j < words(q).len() && (forall|i2: int|
                0 <= i2 < secs.len() ==> !#[trigger] contains_text(lows[i2], q)) && #[trigger] contains_text(
                lows[i],
                words(q)[j],
            ) implies h.contains(secs[i]) by {}
    }
}

/// The sections of the patterns document that answer a query, matched
/// case-insensitively.
pub open spec fn pattern_hits(query: Seq<char>) -> Seq<Seq<char>> {
    section_hits(
        pattern_sections(),
        pattern_sections().map_values(|t: Seq<char>| lowercase_text(t)),
        lowercase_text(query),
    )
}

/// The sections of the patterns document that answer the lowercase query
/// `q`, each section matched by its lowercase text.
pub open spec fn search_hits(q: Seq<char>) -> Seq<Seq<char>> {
    section_hits(pattern_sections(), pattern_sections().map_values(|t: Seq<char>| lowercase_text(t)), q)
}

/// Law: two ASCII queries that differ only in the case of their letters get
/// the same answer from the pattern search.
pub proof fn law_pattern_search_ignores_case(q1: Seq<char>, q2: Seq<char>)
    requires
        ascii_lower_text(q1) == ascii_lower_text(q2),
    ensures
        search_hits(ascii_lower_text(q1)) == search_hits(ascii_lower_text(q2)),
{
}

/// The answer of `suggest_circuit_pattern`.
#[derive(Debug)]
pub enum PatternSuggestion {
    /// The matching sections, joined back with their heading markers.
    Sections(String),
    /// No section matches.
    NoMatch,
}

proof fn lemma_all_sections_hold_empty(secs: Seq<Seq<char>>, lows: Seq<Seq<char>>)
    requires
        secs.len() <= lows.len(),
    ensures
        sections_with(secs, lows, Seq::empty()) == secs,
    decreases secs.len(),
{
    if secs.len() > 0 {
        lemma_all_sections_hold_empty(secs.drop_last(), lows);
        let low = lows[secs.len() - 1];
        assert(low.subrange(0, 0) =~= Seq::<char>::empty());
        assert(occurs_at(low, Seq::empty(), 0));
        assert(secs.drop_last().push(secs.last()) =~= secs);
    }
}

fn holds_term(low: &Vec<char>, terms: &Vec<Vec<char>>) -> (r: bool)
    ensures
        r == holds_a_term(low@, terms@.map_values(|t: Vec<char>| t@)),
{
    let ghost ts = terms@.map_values(|t: Vec<char>| t@);
    let n = terms.len();
    let mut i: usize = 0;
    while i < n
        invariant
            n == terms@.len(),
            ts == terms@.map_values(|t: Vec<char>| t@),
            0 <= i <= n,
            forall|j: int| 0 <= j < i ==> !contains_text(low@, #[trigger] ts[j]),
        decreases n - i,
    {
        if contains_chars(low.as_slice(), terms[i].as_slice()) {
            assert(ts[i as int] == terms@[i as int]@);
            return true;
        }
        i = i + 1;
    }
    false
}

/// The answer to the lowercase query `q` among `sections`, whose lowercase
/// texts are `lowered`: the sections that hold `q`, or failing any those that
/// hold one of its words, joined with their heading markers.
pub fn select_sections(sections: &Vec<String>, lowered: &Vec<String>, q: &str) -> (r: PatternSuggestion)
    requires
        lowered@.len() == sections@.len(),
    ensures
        section_hits(texts(sections@), texts(lowered@), q@).len() == 0 ==> r is NoMatch,
        section_hits(texts(sections@), texts(lowered@), q@).len() > 0 ==> (r matches PatternSuggestion::Sections(
            s,
        ) && s@ == join_text(section_hits(texts(sections@), texts(lowered@), q@), "\n## "@)),
{
    let ghost secs = texts(sections@);
    let ghost lows = texts(lowered@);
    let qc = chars_of(q);
    let n = sections.len();
    let mut lowc: Vec<Vec<char>> = Vec::new();
    let mut k: usize = 0;
    while k < n
        invariant
            n == sections@.len(),
            n == lowered@.len(),
            lows == texts(lowered@),
            0 <= k <= n,
            lowc@.len() == k,
            forall|j: int| 0 <= j < k ==> (#[trigger] lowc@[j])@ == lows[j],
        decreases n - k,
    {
        lowc.push(chars_of(lowered[k].as_str()));
        k = k + 1;
    }
    let mut hits: Vec<String> = Vec::new();
    let mut i: usize = 0;
    while i < n
        invariant
            n == sections@.len(),
            secs == texts(sections@),
            lowc@.len() == n,
            forall|j: int| 0 <= j < n ==> (#[trigger] lowc@[j])@ == lows[j],
            0 <= i <= n,
            texts(hits@) == sections_with(secs.take(i as int), lows, qc@),
        decreases n - i,
    {
        assert(secs.take(i + 1).drop_last() =~= secs.take(i as int));
        assert(secs.take(i + 1).last() == sections@[i as int]@);
        assert(lowc@[i as int]@ == lows[i as int]);
        if contains_chars(lowc[i].as_slice(), qc.as_slice()) {
            let ghost before = hits@;
            hits.push(sections[i].clone());
            proof {
                lemma_texts_push(before, sections@[i as int]);
            }
        }
        i = i + 1;
    }
    assert(secs.take(n as int) =~= secs);
    if hits.len() == 0 {
        let ws = words_of(q);
        let mut terms: Vec<Vec<char>> = Vec::new();
        let m = ws.len();
        let mut j: usize = 0;
        while j < m
            invariant
                m == ws@.len(),
                0 <= j <= m,
                terms@.len() == j,
                forall|k: int| 0 <= k < j ==> (#[trigger] terms@[k])@ == ws@[k]@,
            decreases m - j,
        {
            terms.push(chars_of(ws[j].as_str()));
            j = j + 1;
        }
        assert(terms@.map_values(|t: Vec<char>| t@) =~= texts(ws@));
        let mut i2: usize = 0;
        while i2 < n
            invariant
                n == sections@.len(),
                secs == texts(sections@),
                lowc@.len() == n,
                forall|j: int| 0 <= j < n ==> (#[trigger] lowc@[j])@ == lows[j],
                terms@.map_values(|t: Vec<char>| t@) == words(q@),
                0 <= i2 <= n,
                texts(hits@) == sections_with_a_term(secs.take(i2 as int), lows, words(q@)),
            decreases n - i2,
        {
            assert(secs.take(i2 + 1).drop_last() =~= secs.take(i2 as int));
            assert(secs.take(i2 + 1).last() == sections@[i2 as int]@);
            assert(lowc@[i2 as int]@ == lows[i2 as int]);
            if holds_term(&lowc[i2], &terms) {
                let ghost before = hits@;
                hits.push(sections[i2].clone());
                proof {
                    lemma_texts_push(before, sections@[i2 as int]);
                }
            }
            i2 = i2 + 1;
        }
        assert(secs.take(n as int) =~= secs);
    }
    if hits.len() == 0 {
        PatternSuggestion::NoMatch
    } else {
        PatternSuggestion::Sections(join_with(&hits, "\n## "))
    }
}

/// `suggest_circuit_pattern`: search the embedded circuit-patterns reference
/// for the sections that mention a query (case-insensitively), falling back
/// to sections that mention any of its words.
pub fn suggest_circuit_pattern(query: &str) -> (r: PatternSuggestion)
    ensures
        pattern_hits(query@).len() == 0 ==> r is NoMatch,
        pattern_hits(query@).len() > 0 ==> (r matches PatternSuggestion::Sections(s) && s@ == join_text(
            pattern_hits(query@),
            "\n## "@,
        )),
        query@.len() == 0 ==> (r matches PatternSuggestion::Sections(s) && s@ == circuit_patterns_text()),
        is_ascii_text(query@) ==> pattern_hits(query@) == search_hits(ascii_lower_text(query@)),
{
    let body = circuit_patterns();
    proof {
        reveal_strlit("\n## ");
    }
    let sections = split_on(body.as_str(), "\n## ");
    let ghost secs = texts(sections@);
    let n = sections.len();
    let mut lowered: Vec<String> = Vec::new();
    let mut i: usize = 0;
    while i < n
        invariant
            n == sections@.len(),
            secs == texts(sections@),
            0 <= i <= n,
            texts(lowered@) == secs.take(i as int).map_values(|t: Seq<char>| lowercase_text(t)),
        decreases n - i,
    {
        let ghost before = lowered@;
        let low = lowercase(sections[i].as_str());
        lowered.push(low);
        proof {
            lemma_texts_push(before, low);
        }
        assert(secs.take(i + 1).map_values(|t: Seq<char>| lowercase_text(t)) =~= secs.take(
            i as int,
        ).map_values(|t: Seq<char>| lowercase_text(t)).push(lowercase_text(secs[i as int])));
        i = i + 1;
    }
    assert(secs.take(n as int) =~= secs);
    let q = lowercase(query);
    proof {
        if is_ascii_text(query@) {
            assert(pattern_sections().map_values(|t: Seq<char>| lowercase_text(t)) =~= texts(lowered@));
        }
        if query@.len() == 0 {
            assert(q@ =~= Seq::<char>::empty());
            lemma_all_sections_hold_empty(secs, texts(lowered@));
            lemma_split_nonempty(circuit_patterns_text(), "\n## "@);
            law_join_split(circuit_patterns_text(), "\n## "@);
        }
    }
    select_sections(&sections, &lowered, q.as_str())
}

// ── parse results and rendering ─────────────────────────────────────────────

/// The `data` member of an envelope, or the envelope itself when it has none.
pub open spec fn data_of(env: Json) -> Json {
    match json_get(env, "data"@) {
        Some(d) => d,
        None => env,
    }
}

/// The parse result carried by an envelope: its `data` member, or the whole
/// envelope when it has none.
pub fn envelope_data(env: Json) -> (r: Json)
    ensures
        r == data_of(env),
{
    match env {
        Json::Object(members) => {
            let n = members.len();
            let mut i: usize = 0;
            let ghost whole = Json::Object(members);
            assert(whole == env);
            assert(members@.skip(0) =~= members@);
            while i < n
                invariant
                    n == members@.len(),
                    0 <= i <= n,
                    whole == Json::Object(members),
                    whole == env,
                    member(members@, "data"@) == member(members@.skip(i as int), "data"@),
                decreases n - i,
            {
                assert(members@.skip(i as int).drop_first() =~= members@.skip(i + 1));
                assert(members@.skip(i as int)[0] == members@[i as int]);
                if str_eq(members[i].0.as_str(), "data") {
                    assert(member(members@.skip(i as int), "data"@) == Some(members@[i as int].1));
                    let mut ms = members;
                    let (_, d) = ms.swap_remove(i);
                    return d;
                }
                i = i + 1;
            }
            assert(members@.skip(n as int) =~= Seq::<(String, Json)>::empty());
            Json::Object(members)
        },
        other => other,
    }
}

/// `aelm pipeline --stdin --stages render --render-format svg --json`, with
/// the theme when one is given.
pub fn pipeline_svg_args(theme: Option<&str>) -> (r: Vec<String>)
    ensures
        texts(r@) == seq!["pipeline"@, "--stdin"@, "--stages"@, "render"@, "--render-format"@, "svg"@]
            + option_args("--theme"@, opt_text(theme)) + seq!["--json"@],
{
    let mut r = argv(&["pipeline", "--stdin", "--stages", "render", "--render-format", "svg"]);
    push_option(&mut r, "--theme", theme);
    push_arg(&mut r, "--json");
    r
}

/// `aelm pipeline --stdin --stages render --render-format svg`, the theme
/// when one is given, and `--json`.
pub open spec fn pipeline_svg(theme: Option<Seq<char>>) -> Seq<Seq<char>> {
    seq!["pipeline"@, "--stdin"@, "--stages"@, "render"@, "--render-format"@, "svg"@] + option_args(
        "--theme"@,
        theme,
    ) + seq!["--json"@]
}

/// The two renders of `preview_style`: the baseline in the requested theme
/// (`dark` when asked for, `light` otherwise) and the variant in the other
/// theme, so that one image is light and one dark.
pub fn preview_render_args(theme: Option<&str>) -> (r: (Vec<String>, Vec<String>))
    ensures
        texts(r.0@) == pipeline_svg(Some(theme_text(opt_text(theme)))),
        texts(r.1@) == pipeline_svg(Some(variant_theme_of(theme_text(opt_text(theme))))),
        theme_text(opt_text(theme)) != variant_theme_of(theme_text(opt_text(theme))),
{
    let base = theme_arg(theme);
    let other: &str = if str_eq(base, "dark") {
        "light"
    } else {
        "dark"
    };
    proof {
        reveal_strlit("dark");
        reveal_strlit("light");
        assert("dark"@ != "light"@) by {
            assert("dark"@.len() != "light"@.len());
        }
    }
    assert(opt_text(theme) == match theme {
        Some(t) => Some(t@),
        None => None::<Seq<char>>,
    });
    (pipeline_svg_args(Some(base)), pipeline_svg_args(Some(other)))
}

/// What rendering one circuit gave: its SVG, or the message why not.
pub open spec fn rendered(run: Result<Json, CliError>, r: Result<String, String>) -> bool {
    match run {
        Ok(env) => match render_text(env, "image_base64"@) {
            Some(svg) => r matches Ok(x) && x@ == svg,
            None => r matches Err(m) && m@ == "no image produced"@,
        },
        Err(e) => r matches Err(m) && is_user_message_of(e, m@),
    }
}

/// The outcome of rendering one circuit to SVG: the raw XML from the
/// envelope, or an error message.
pub fn render_outcome(run: &Result<Json, CliError>) -> (r: Result<String, String>)
    ensures
        rendered(*run, r),
{
    match run {
        Ok(env) => match render_field(env, "image_base64") {
            Some(svg) => Ok(svg.clone()),
            None => Err(owned("no image produced")),
        },
        Err(e) => Err(e.user_message()),
    }
}

/// What `render_batch` shows for the `i`-th result.
pub open spec fn batch_block(i: nat, r: Result<String, String>) -> Seq<ContentView> {
    match r {
        Ok(svg) => seq![
            ContentView::Text("circuit "@ + decimal(i) + ": rendered"@),
            ContentView::Image(base64_text(encode_utf8(svg@)), "image/svg+xml"@),
        ],
        Err(e) => seq![ContentView::Text("circuit "@ + decimal(i) + ": error \u{2014} "@ + e@)],
    }
}

/// What `render_batch` shows for all results, in order.
pub open spec fn batch_view(results: Seq<Result<String, String>>) -> Seq<ContentView>
    decreases results.len(),
{
    if results.len() == 0 {
        Seq::empty()
    } else {
        batch_view(results.drop_last()) + batch_block((results.len() - 1) as nat, results.last())
    }
}

/// The number of contents that one result takes in the batch answer: its
/// line and its image when it rendered, its line alone when it failed.
pub open spec fn block_size(r: Result<String, String>) -> nat {
    match r {
        Ok(_) => 2,
        Err(_) => 1,
    }
}

/// Where the contents of result `i` begin in the batch answer: after those
/// of every earlier result.
pub open spec fn block_start(results: Seq<Result<String, String>>, i: int) -> nat
    decreases i,
{
    if i <= 0 {
        0
    } else {
        block_start(results, i - 1) + block_size(results[i - 1])
    }
}

proof fn lemma_block_start_prefix(results: Seq<Result<String, String>>, i: int)
    requires
        0 <= i < results.len(),
    ensures
        block_start(results, i) == block_start(results.drop_last(), i),
    decreases i,
{
    if i > 0 {
        lemma_block_start_prefix(results, i - 1);
        assert(results[i - 1] == results.drop_last()[i - 1]);
    }
}

/// The line that reports result `i` of a batch: `circuit i: rendered`, or
/// `circuit i: error — e`.
pub open spec fn batch_line(i: nat, r: Result<String, String>) -> Seq<char> {
    match r {
        Ok(_) => "circuit "@ + decimal(i) + ": rendered"@,
        Err(e) => "circuit "@ + decimal(i) + ": error \u{2014} "@ + e@,
    }
}

proof fn lemma_batch_length(results: Seq<Result<String, String>>)
    ensures
        batch_view(results).len() == block_start(results, results.len() as int),
    decreases results.len(),
{
    if results.len() > 0 {
        let n = results.len() - 1;
        lemma_batch_length(results.drop_last());
        lemma_block_start_prefix(results, n);
    }
}

proof fn lemma_batch_block_at(results: Seq<Result<String, String>>, i: int)
    requires
        0 <= i < results.len(),
    ensures
        batch_view(results)[block_start(results, i) as int] == ContentView::Text(batch_line(i as nat, results[i])),
        results[i] is Ok ==> batch_view(results)[block_start(results, i) + 1int] == ContentView::Image(
            base64_text(encode_utf8(results[i]->Ok_0@)),
            "image/svg+xml"@,
        ),
    decreases results.len(),
{
    let n = results.len() - 1;
    let d = results.drop_last();
    let v = batch_view(results);
    let vd = batch_view(d);
    let blk = batch_block(n as nat, results.last());
    assert(v == vd + blk);
    lemma_batch_length(d);
    lemma_block_start_prefix(results, n);
    let bi = block_start(results, i) as int;
    if i < n {
        lemma_batch_block_at(d, i);
        lemma_block_start_prefix(results, i);
        assert(d[i] == results[i]);
        lemma_block_start_mono(d, i + 1, n);
        assert(bi < vd.len());
        assert(v[bi] == vd[bi]);
        if results[i] is Ok {
            assert(bi + 1 < vd.len());
            assert(v[bi + 1] == vd[bi + 1]);
        }
    } else {
        assert(bi == vd.len());
        assert(v[bi] == blk[0]);
        if results[i] is Ok {
            assert(v[bi + 1] == blk[1]);
        }
    }
}

/// Law: the batch answer reports every result, in order and independently
/// of the others — result `i` takes the contents from `block_start(i)` on: the
/// line `circuit i: rendered` and its SVG image when it rendered, or the line
/// `circuit i: error — e` when it failed; nothing else is in the answer.
pub proof fn law_batch_reports_each(results: Seq<Result<String, String>>)
    ensures
        batch_view(results).len() == block_start(results, results.len() as int),
        forall|i: int|
            0 <= i < results.len() ==> batch_view(results)[block_start(results, i) as int] == ContentView::Text(
                batch_line(i as nat, #[trigger] results[i]),
            ),
        forall|i: int|
            0 <= i < results.len() && #[trigger] results[i] is Ok ==> batch_view(results)[block_start(results, i)
                + 1int] == ContentView::Image(base64_text(encode_utf8(results[i]->Ok_0@)), "image/svg+xml"@),
{
    lemma_batch_length(results);
    assert forall|i: int| 0 <= i < results.len() implies batch_view(results)[block_start(results, i) as int]
        == ContentView::Text(batch_line(i as nat, #[trigger] results[i])) by {
        lemma_batch_block_at(results, i);
    }
    assert forall|i: int| 0 <= i < results.len() && #[trigger] results[i] is Ok implies batch_view(
        results,
    )[block_start(results, i) + 1int] == ContentView::Image(
        base64_text(encode_utf8(results[i]->Ok_0@)),
        "image/svg+xml"@,
    ) by {
        lemma_batch_block_at(results, i);
    }
}

proof fn lemma_block_start_mono(results: Seq<Result<String, String>>, i: int, j: int)
    requires
        0 <= i <= j,
    ensures
        block_start(results, i) <= block_start(results, j),
    decreases j - i,
{
    if i < j {
        lemma_block_start_mono(results, i, j - 1);
    }
}

/// The message when `render_batch` is given nothing to render.
pub open spec fn empty_batch_text() -> Seq<char> {
    "render_batch requires at least one source"@
}

/// The answer of `render_batch` for the outcomes of rendering each source:
/// per circuit a line saying it rendered followed by its image, or a line
/// with its error; the answer reports a failure when any circuit failed, and
/// when there was nothing to render.
pub fn batch_answer(results: &Vec<Result<String, String>>) -> (r: ToolOutput)
    ensures
        results@.len() == 0 ==> (r.is_error && contents_view(r.content@) == seq![
            ContentView::Text(empty_batch_text()),
        ]),
        results@.len() > 0 ==> contents_view(r.content@) == batch_view(results@) && r.is_error == exists|
            i: int,
        | 0 <= i < results@.len() && #[trigger] results@[i] is Err,
        results@.len() > 0 ==> r.content@.len() == block_start(results@, results@.len() as int),
        forall|i: int|
            0 <= i < results@.len() ==> content_view(r.content@[block_start(results@, i) as int])
                == ContentView::Text(batch_line(i as nat, #[trigger] results@[i])),
        forall|i: int|
            0 <= i < results@.len() && #[trigger] results@[i] is Ok ==> content_view(
                r.content@[block_start(results@, i) + 1int],
            ) == ContentView::Image(base64_text(encode_utf8(results@[i]->Ok_0@)), "image/svg+xml"@),
{
    if results.len() == 0 {
        let r = error_text(owned("render_batch requires at least one source"));
        assert(contents_view(r.content@) =~= seq![ContentView::Text(empty_batch_text())]);
        return r;
    }
    let mut content: Vec<ToolContent> = Vec::new();
    let mut any_error = false;
    let n = results.len();
    let mut i: usize = 0;
    assert(contents_view(content@) =~= Seq::<ContentView>::empty());
    while i < n
        invariant
            n == results@.len(),
            0 <= i <= n,
            contents_view(content@) == batch_view(results@.take(i as int)),
            any_error == exists|j: int| 0 <= j < i && #[trigger] results@[j] is Err,
        decreases n - i,
    {
        let ghost before = content@;
        assert(results@.take(i + 1).drop_last() =~= results@.take(i as int));
        assert(results@.take(i + 1).last() == results@[i as int]);
        let mut line = owned("circuit ");
        push_decimal(&mut line, i as u64);
        match &results[i] {
            Ok(svg) => {
                push_str(&mut line, ": rendered");
                content.push(ToolContent::Text(line));
                let data = base64_encode(svg.as_str().as_bytes());
                content.push(ToolContent::Image { data, mime_type: owned("image/svg+xml") });
            },
            Err(e) => {
                any_error = true;
                push_str(&mut line, ": error \u{2014} ");
                push_str(&mut line, e.as_str());
                content.push(ToolContent::Text(line));
            },
        }
        assert(contents_view(content@) =~= contents_view(before) + batch_block(i as nat, results@[i as int]));
        i = i + 1;
    }
    assert(results@.take(n as int) =~= results@);
    let r = ToolOutput { content, is_error: any_error };
    proof {
        lemma_batch_contents(results@, r.content@);
    }
    r
}

proof fn lemma_batch_contents(results: Seq<Result<String, String>>, c: Seq<ToolContent>)
    requires
        contents_view(c) == batch_view(results),
    ensures
        c.len() == block_start(results, results.len() as int),
        forall|i: int|
            0 <= i < results.len() ==> content_view(c[block_start(results, i) as int]) == ContentView::Text(
                batch_line(i as nat, #[trigger] results[i]),
            ),
        forall|i: int|
            0 <= i < results.len() && #[trigger] results[i] is Ok ==> content_view(c[block_start(results, i)
                + 1int]) == ContentView::Image(base64_text(encode_utf8(results[i]->Ok_0@)), "image/svg+xml"@),
{
    lemma_batch_length(results);
    assert(c.len() == contents_view(c).len());
    assert forall|i: int| 0 <= i < results.len() implies content_view(c[block_start(results, i) as int])
        == ContentView::Text(batch_line(i as nat, #[trigger] results[i])) by {
        lemma_batch_block_at(results, i);
        lemma_block_start_mono(results, i + 1, results.len() as int);
        let b = block_start(results, i) as int;
        assert(contents_view(c)[b] == content_view(c[b]));
    }
    assert forall|i: int| 0 <= i < results.len() && #[trigger] results[i] is Ok implies content_view(
        c[block_start(results, i) + 1int],
    ) == ContentView::Image(base64_text(encode_utf8(results[i]->Ok_0@)), "image/svg+xml"@) by {
        lemma_batch_block_at(results, i);
        lemma_block_start_mono(results, i + 1, results.len() as int);
        let b = block_start(results, i) as int;
        assert(contents_view(c)[b + 1] == content_view(c[b + 1]));
    }
}

/// The answer of `preview_style` for the baseline render and the variant
/// render in the other theme (`variant_theme`): both images with their
/// captions; only the baseline when the variant failed; the baseline's error
/// when it failed.
pub open spec fn is_preview(
    theme: Seq<char>,
    variant_theme: Seq<char>,
    baseline: Result<String, String>,
    variant: Option<String>,
    r: ToolOutput,
) -> bool {
    match baseline {
        Ok(base) => match variant {
            Some(alt) => !r.is_error && contents_view(r.content@) == seq![
                ContentView::Text("baseline ("@ + theme + ")"@),
                ContentView::Image(base64_text(encode_utf8(base@)), "image/svg+xml"@),
                ContentView::Text("variant ("@ + variant_theme + ")"@),
                ContentView::Image(base64_text(encode_utf8(alt@)), "image/svg+xml"@),
            ],
            None => shows_svg(r, base@),
        },
        Err(e) => r.is_error && contents_view(r.content@) == seq![ContentView::Text(e@)],
    }
}

/// Law: the two-image preview shows, in order, the caption of the baseline,
/// the baseline render's image, the caption of the variant and the variant
/// render's image — each image under its own caption.
pub proof fn law_preview_images(theme: Seq<char>, variant_theme: Seq<char>, base: String, alt: String, r: ToolOutput)
    requires
        is_preview(theme, variant_theme, Ok(base), Some(alt), r),
    ensures
        !r.is_error,
        r.content@.len() == 4,
        r.content@[0] matches ToolContent::Text(t) && t@ == "baseline ("@ + theme + ")"@,
        r.content@[1] matches ToolContent::Image { data, mime_type } && data@ == base64_text(encode_utf8(base@))
            && mime_type@ == "image/svg+xml"@,
        r.content@[2] matches ToolContent::Text(t) && t@ == "variant ("@ + variant_theme + ")"@,
        r.content@[3] matches ToolContent::Image { data, mime_type } && data@ == base64_text(encode_utf8(alt@))
            && mime_type@ == "image/svg+xml"@,
{
    let v = contents_view(r.content@);
    assert(v.len() == 4);
    assert(v[0] == content_view(r.content@[0]));
    assert(v[1] == content_view(r.content@[1]));
    assert(v[2] == content_view(r.content@[2]));
    assert(v[3] == content_view(r.content@[3]));
}

/// The theme that `preview_style` compares against: `light` for a dark
/// baseline, `dark` for any other.
pub open spec fn variant_theme_of(theme: Seq<char>) -> Seq<char> {
    if theme == "dark"@ {
        "light"@
    } else {
        "dark"@
    }
}

/// The baseline theme's name (`light` when none is given) and the variant
/// theme of `preview_style`.
pub fn preview_themes(theme: Option<&str>) -> (r: (&str, &'static str))
    ensures
        r.0@ == match theme {
            Some(t) => t@,
            None => "light"@,
        },
        r.1@ == variant_theme_of(r.0@),
{
    let t: &str = match theme {
        Some(t) => t,
        None => "light",
    };
    let v = if str_eq(t, "dark") {
        "light"
    } else {
        "dark"
    };
    (t, v)
}

/// The variant image of `preview_style` from what the CLI answered; a
/// failure counts as no variant.
pub fn variant_image(run: &Result<Json, CliError>) -> (r: Option<String>)
    ensures
        match run {
            Ok(env) => match render_text(*env, "image_base64"@) {
                Some(svg) => r matches Some(x) && x@ == svg,
                None => r is None,
            },
            Err(_) => r is None,
        },
{
    match run {
        Ok(env) => match render_field(env, "image_base64") {
            Some(svg) => Some(svg.clone()),
            None => None,
        },
        Err(_) => None,
    }
}

/// `preview_style`: render a circuit two ways (light and dark) for a
/// before/after comparison.
pub fn preview_answer(theme: &str, variant_theme: &str, baseline: Result<String, String>, variant: Option<String>) -> (r:
    ToolOutput)
    ensures
        is_preview(theme@, variant_theme@, baseline, variant, r),
        baseline is Ok && variant is Some ==> {
            &&& r.content@.len() == 4
            &&& r.content@[1] matches ToolContent::Image { data, .. } && data@ == base64_text(
                encode_utf8(baseline->Ok_0@),
            )
            &&& r.content@[3] matches ToolContent::Image { data, .. } && data@ == base64_text(
                encode_utf8(variant->Some_0@),
            )
        },
{
    match baseline {
        Ok(base) => match variant {
            Some(alt) => {
                let mut cap1 = owned("baseline (");
                push_str(&mut cap1, theme);
                push_str(&mut cap1, ")");
                let mut cap2 = owned("variant (");
                push_str(&mut cap2, variant_theme);
                push_str(&mut cap2, ")");
                let r = ToolOutput {
                    content: vec![
                        ToolContent::Text(cap1),
                        ToolContent::Image {
                            data: base64_encode(base.as_str().as_bytes()),
                            mime_type: owned("image/svg+xml"),
                        },
                        ToolContent::Text(cap2),
                        ToolContent::Image {
                            data: base64_encode(alt.as_str().as_bytes()),
                            mime_type: owned("image/svg+xml"),
                        },
                    ],
                    is_error: false,
                };
                assert(contents_view(r.content@) =~= seq![
                    ContentView::Text("baseline ("@ + theme@ + ")"@),
                    ContentView::Image(base64_text(encode_utf8(base@)), "image/svg+xml"@),
                    ContentView::Text("variant ("@ + variant_theme@ + ")"@),
                    ContentView::Image(base64_text(encode_utf8(alt@)), "image/svg+xml"@),
                ]);
                proof {
                    law_preview_images(theme@, variant_theme@, base, alt, r);
                }
                r
            },
            None => svg_result(base.as_str()),
        },
        Err(e) => {
            let r = error_text(e);
            assert(contents_view(r.content@) =~= seq![ContentView::Text(e@)]);
            r
        },
    }
}

/// `evaluate_calc`: render the circuit, which evaluates its calc and plot
/// blocks — `aelm pipeline --stdin --stages parse,render --json`.
pub fn evaluate_calc_args() -> (r: Vec<String>)
    ensures
        texts(r@) == seq!["pipeline"@, "--stdin"@, "--stages"@, "parse,render"@, "--json"@],
{
    argv(&["pipeline", "--stdin", "--stages", "parse,render", "--json"])
}

/// Count connections in the first module (zero when the shape is missing).
pub fn connection_count(data: &Json) -> (r: usize)
    ensures
        r == match module_items(*data, "connections"@) {
            Some(s) => s.len(),
            None => 0,
        },
{
    match module_array(data, "connections") {
        Some(v) => v.len(),
        None => 0,
    }
}

} // verus!
