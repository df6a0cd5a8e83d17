//! The JSON answers of the tools that compute their result rather than
//! pass the CLI's envelope through: the structural diff, the placement
//! report, the similarity ranking, the scaffold and the pattern search
//! without a match. The application only serialises them.
use vstd::prelude::*;

use crate::json::{json_str, Json};
use crate::text::{decimal, owned, texts, u64_text};
use crate::text_map::TextMap;
use crate::tools::advanced::{CircuitDiff, InstanceChange, PlacementReport, RankedCandidate};

verus! {

/// The keys of an object's members, in order.
pub open spec fn member_keys(ms: Seq<(String, Json)>) -> Seq<Seq<char>> {
    ms.map_values(|m: (String, Json)| m.0@)
}

/// `j` is an object whose members have the keys `keys`, in this order.
pub open spec fn is_object(j: Json, keys: Seq<Seq<char>>) -> bool {
    j matches Json::Object(ms) && member_keys(ms@) == keys
}

/// The value of the `i`-th member of an object.
pub open spec fn field(j: Json, i: int) -> Json {
    match j {
        Json::Object(ms) => ms@[i].1,
        _ => Json::Null,
    }
}

/// `j` is the number `n`, written in decimal.
pub open spec fn is_count(j: Json, n: nat) -> bool {
    j matches Json::Number(t) && t@ == decimal(n)
}

/// `j` is an array of the strings `s`.
pub open spec fn is_text_array(j: Json, s: Seq<Seq<char>>) -> bool {
    j matches Json::Array(v) && v@.len() == s.len() && forall|i: int|
        0 <= i < s.len() ==> json_str(#[trigger] v@[i]) == Some(s[i])
}

/// `j` is the object of the counts of `m`, one member per key, ascending.
pub open spec fn is_counts(j: Json, m: TextMap<usize>) -> bool {
    &&& is_object(j, m.key_list())
    &&& forall|i: int|
        0 <= i < m.key_list().len() ==> is_count(#[trigger] field(j, i), m@[m.key_list()[i]] as nat)
}

/// A string value.
fn str_json(s: &str) -> (r: Json)
    ensures
        json_str(r) == Some(s@),
{
    Json::Str(owned(s))
}

/// A count value.
fn count_json(n: usize) -> (r: Json)
    ensures
        is_count(r, n as nat),
{
    Json::Number(u64_text(n as u64))
}

/// An array of strings.
fn texts_json(v: &Vec<String>) -> (r: Json)
    ensures
        is_text_array(r, texts(v@)),
{
    let mut items: Vec<Json> = Vec::new();
    let n = v.len();
    let mut i: usize = 0;
    while i < n
        invariant
            n == v@.len(),
            0 <= i <= n,
            items@.len() == i,
            forall|j: int| 0 <= j < i ==> json_str(#[trigger] items@[j]) == Some(v@[j]@),
        decreases n - i,
    {
        items.push(str_json(v[i].as_str()));
        i = i + 1;
    }
    Json::Array(items)
}

/// The counts of `m` as an object, keys ascending.
fn counts_json(m: &TextMap<usize>) -> (r: Json)
    ensures
        is_counts(r, *m),
{
    let n = m.len();
    let ghost ks = m.key_list();
    let mut ms: Vec<(String, Json)> = Vec::new();
    let mut i: usize = 0;
    while i < n
        invariant
            n == ks.len(),
            ks == m.key_list(),
            0 <= i <= n,
            member_keys(ms@) == ks.take(i as int),
            forall|j: int| 0 <= j < i ==> is_count(#[trigger] ms@[j].1, m@[ks[j]] as nat),
        decreases n - i,
    {
        let (k, c) = m.entry(i);
        let ghost before = ms@;
        let key = k.clone();
        assert(key@ == ks[i as int]);
        ms.push((key, count_json(*c)));
        assert(member_keys(ms@) =~= member_keys(before).push(ks[i as int]));
        assert(ks.take(i + 1) =~= ks.take(i as int).push(ks[i as int]));
        i = i + 1;
    }
    assert(ks.take(n as int) =~= ks);
    Json::Object(ms)
}

/// One object member.
fn member_of(key: &str, value: Json) -> (r: (String, Json))
    ensures
        r.0@ == key@,
        r.1 == value,
{
    (owned(key), value)
}

/// The answer of `diff_circuits`.
pub open spec fn diff_keys() -> Seq<Seq<char>> {
    seq![
        "added_instances"@,
        "removed_instances"@,
        "changed_instances"@,
        "connection_count_before"@,
        "connection_count_after"@,
    ]
}

/// `j` is the object of one re-typed instance.
pub open spec fn is_change(j: Json, c: InstanceChange) -> bool {
    &&& is_object(j, seq!["instance"@, "from"@, "to"@])
    &&& json_str(field(j, 0)) == Some(c.instance@)
    &&& json_str(field(j, 1)) == Some(c.from@)
    &&& json_str(field(j, 2)) == Some(c.to@)
}

/// The JSON answer of `diff_circuits` for the diff `d`: the added, removed
/// and re-typed instances and the connection counts before and after.
pub fn diff_json(d: &CircuitDiff) -> (r: Json)
    ensures
        is_object(r, diff_keys()),
        is_text_array(field(r, 0), texts(d.added_instances@)),
        is_text_array(field(r, 1), texts(d.removed_instances@)),
        field(r, 2) matches Json::Array(v) && v@.len() == d.changed_instances@.len() && forall|i: int|
            0 <= i < v@.len() ==> is_change(#[trigger] v@[i], d.changed_instances@[i]),
        is_count(field(r, 3), d.connection_count_before as nat),
        is_count(field(r, 4), d.connection_count_after as nat),
{
    let mut changes: Vec<Json> = Vec::new();
    let n = d.changed_instances.len();
    let mut i: usize = 0;
    while i < n
        invariant
            n == d.changed_instances@.len(),
            0 <= i <= n,
            changes@.len() == i,
            forall|j: int| 0 <= j < i ==> is_change(#[trigger] changes@[j], d.changed_instances@[j]),
        decreases n - i,
    {
        let c = &d.changed_instances[i];
        let o = Json::Object(
            vec![
                member_of("instance", str_json(c.instance.as_str())),
                member_of("from", str_json(c.from.as_str())),
                member_of("to", str_json(c.to.as_str())),
            ],
        );
        assert(is_object(o, seq!["instance"@, "from"@, "to"@])) by {
            if let Json::Object(ms) = o {
                assert(member_keys(ms@) =~= seq!["instance"@, "from"@, "to"@]);
            }
        }
        changes.push(o);
        i = i + 1;
    }
    let ms = vec![
        member_of("added_instances", texts_json(&d.added_instances)),
        member_of("removed_instances", texts_json(&d.removed_instances)),
        member_of("changed_instances", Json::Array(changes)),
        member_of("connection_count_before", count_json(d.connection_count_before)),
        member_of("connection_count_after", count_json(d.connection_count_after)),
    ];
    assert(member_keys(ms@) =~= diff_keys());
    Json::Object(ms)
}

/// The JSON answer of `suggest_placement` for the report `p`.
pub fn placement_json(p: &PlacementReport) -> (r: Json)
    ensures
        is_object(r, seq!["total_instances"@, "instances_without_placement"@, "suggestion"@]),
        is_count(field(r, 0), p.total_instances as nat),
        is_text_array(field(r, 1), texts(p.instances_without_placement@)),
        json_str(field(r, 2)) == Some(p.suggestion@),
{
    let ms = vec![
        member_of("total_instances", count_json(p.total_instances)),
        member_of("instances_without_placement", texts_json(&p.instances_without_placement)),
        member_of("suggestion", str_json(p.suggestion.as_str())),
    ];
    assert(member_keys(ms@) =~= seq!["total_instances"@, "instances_without_placement"@, "suggestion"@]);
    Json::Object(ms)
}

/// The note of a pattern search without a match.
pub open spec fn no_match_note() -> Seq<char> {
    "No matching pattern. See the full `patterns` doc resource."@
}

/// The JSON answer of `suggest_circuit_pattern` when no section matches:
/// the query, no matches, and a note pointing to the whole document.
pub fn no_match_json(query: &str) -> (r: Json)
    ensures
        is_object(r, seq!["query"@, "matches"@, "note"@]),
        json_str(field(r, 0)) == Some(query@),
        is_text_array(field(r, 1), Seq::empty()),
        json_str(field(r, 2)) == Some(no_match_note()),
{
    let ms = vec![
        member_of("query", str_json(query)),
        member_of("matches", Json::Array(Vec::new())),
        member_of("note", str_json("No matching pattern. See the full `patterns` doc resource.")),
    ];
    assert(member_keys(ms@) =~= seq!["query"@, "matches"@, "note"@]);
    Json::Object(ms)
}

/// The JSON answer of `scaffold_circuit`: the generated source and the
/// validation envelope of it.
pub fn scaffold_json(source: &str, validation: Json) -> (r: Json)
    ensures
        is_object(r, seq!["source"@, "validation"@]),
        json_str(field(r, 0)) == Some(source@),
        field(r, 1) == validation,
{
    let ms = vec![member_of("source", str_json(source)), member_of("validation", validation)];
    assert(member_keys(ms@) =~= seq!["source"@, "validation"@]);
    Json::Object(ms)
}

/// `j` is the object of one ranked candidate with its score text.
pub open spec fn is_ranked_entry(j: Json, c: RankedCandidate, score: Seq<char>) -> bool {
    &&& is_object(j, seq!["index"@, "similarity"@, "parts"@])
    &&& is_count(field(j, 0), c.index as nat)
    &&& field(j, 1) matches Json::Number(t) && t@ == score
    &&& is_counts(field(j, 2), c.parts)
}

/// The JSON answer of `find_similar_circuits`: the reference's part counts
/// and the ranked candidates, each with its index, its similarity (the
/// number `scores[i]`, which the caller writes) and its part counts.
pub fn similar_json(base: &TextMap<usize>, ranked: &Vec<RankedCandidate>, scores: &Vec<String>) -> (r: Json)
    requires
        scores@.len() == ranked@.len(),
    ensures
        is_object(r, seq!["base_parts"@, "ranked"@]),
        is_counts(field(r, 0), *base),
        field(r, 1) matches Json::Array(v) && v@.len() == ranked@.len() && forall|i: int|
            0 <= i < v@.len() ==> is_ranked_entry(#[trigger] v@[i], ranked@[i], scores@[i]@),
{
    let mut entries: Vec<Json> = Vec::new();
    let n = ranked.len();
    let mut i: usize = 0;
    while i < n
        invariant
            n == ranked@.len(),
            n == scores@.len(),
            0 <= i <= n,
            entries@.len() == i,
            forall|j: int| 0 <= j < i ==> is_ranked_entry(#[trigger] entries@[j], ranked@[j], scores@[j]@),
        decreases n - i,
    {
        let c = &ranked[i];
        let o = Json::Object(
            vec![
                member_of("index", count_json(c.index)),
                member_of("similarity", Json::Number(scores[i].clone())),
                member_of("parts", counts_json(&c.parts)),
            ],
        );
        assert(is_object(o, seq!["index"@, "similarity"@, "parts"@])) by {
            if let Json::Object(ms) = o {
                assert(member_keys(ms@) =~= seq!["index"@, "similarity"@, "parts"@]);
            }
        }
        entries.push(o);
        i = i + 1;
    }
    let ms = vec![member_of("base_parts", counts_json(base)), member_of("ranked", Json::Array(entries))];
    assert(member_keys(ms@) =~= seq!["base_parts"@, "ranked"@]);
    Json::Object(ms)
}

} // verus!
