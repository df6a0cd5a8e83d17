//! Embedded reference documentation, served as a tool and as MCP resources.
//!
//! The reference documents are part of the library itself, so the server is
//! self-contained: no runtime file lookups, wherever the binary is installed.
use vstd::prelude::*;

use crate::text::{join_text, owned, push_str, str_eq};
use crate::tools::output::{error_text, is_text, text_result, ToolOutput};
use crate::tools::doc_text::{
    circuit_patterns, circuit_patterns_text, cli_reference, cli_reference_text, common_mistakes,
    common_mistakes_text, drc_rules, drc_rules_text, dsl_reference, dsl_reference_text,
    style_reference, style_reference_text,
};

verus! {

/// One embedded reference document.
#[derive(Debug)]
pub struct DocTopic {
    /// Stable topic key used in `aelm://docs/{topic}` and the tool's `topic` arg.
    pub key: &'static str,
    /// Human-readable title.
    pub title: &'static str,
    /// Full markdown body.
    pub body: String,
}

/// The topic keys, in listing order.
pub open spec fn topic_key_list() -> Seq<Seq<char>> {
    seq!["dsl"@, "cli"@, "style"@, "patterns"@, "drc"@, "mistakes"@]
}

/// The topic titles, in listing order.
pub open spec fn topic_title_list() -> Seq<Seq<char>> {
    seq![
        "DSL Reference"@,
        "CLI Reference"@,
        "Style Reference"@,
        "Circuit Patterns"@,
        "DRC Rules"@,
        "Common Mistakes"@,
    ]
}

/// The topic bodies, in listing order.
pub open spec fn topic_body_list() -> Seq<Seq<char>> {
    seq![
        dsl_reference_text(),
        cli_reference_text(),
        style_reference_text(),
        circuit_patterns_text(),
        drc_rules_text(),
        common_mistakes_text(),
    ]
}

/// `t` is the topic at position `i` of the listing.
pub open spec fn is_topic_at(t: DocTopic, i: int) -> bool {
    &&& 0 <= i < 6
    &&& t.key@ == topic_key_list()[i]
    &&& t.title@ == topic_title_list()[i]
    &&& t.body@ == topic_body_list()[i]
}

/// The position of the first topic whose key is `key`.
pub open spec fn topic_position(key: Seq<char>) -> Option<int> {
    if exists|i: int| 0 <= i < 6 && topic_key_list()[i] == key {
        Some(
            choose|i: int|
                0 <= i < 6 && topic_key_list()[i] == key && forall|j: int|
                    0 <= j < i ==> topic_key_list()[j] != key,
        )
    } else {
        None
    }
}

/// No two topics share a key, so the lookup of the `i`-th key finds the
/// `i`-th topic.
pub proof fn lemma_key_position(i: int)
    requires
        0 <= i < 6,
    ensures
        topic_position(topic_key_list()[i]) == Some(i),
{
    reveal_strlit("dsl");
    reveal_strlit("cli");
    reveal_strlit("style");
    reveal_strlit("patterns");
    reveal_strlit("drc");
    reveal_strlit("mistakes");
    let k = topic_key_list();
    assert(k[0][0] == 'd' && k[0][1] == 's');
    assert(k[1][0] == 'c');
    assert(k[2][0] == 's');
    assert(k[3][0] == 'p');
    assert(k[4][0] == 'd' && k[4][1] == 'r');
    assert(k[5][0] == 'm');
    assert forall|j: int| 0 <= j < 6 && j != i implies k[j] != k[i] by {
        if k[j] == k[i] {
            assert(k[j][0] == k[i][0]);
            assert(k[j][1] == k[i][1]);
        }
    }
    assert(k[i] == k[i]);
}

fn topic_key_at(i: usize) -> (k: &'static str)
    requires
        i < 6,
    ensures
        k@ == topic_key_list()[i as int],
{
    if i == 0 {
        "dsl"
    } else if i == 1 {
        "cli"
    } else if i == 2 {
        "style"
    } else if i == 3 {
        "patterns"
    } else if i == 4 {
        "drc"
    } else {
        "mistakes"
    }
}

fn topic_at(i: usize) -> (t: DocTopic)
    requires
        i < 6,
    ensures
        is_topic_at(t, i as int),
{
    if i == 0 {
        DocTopic { key: "dsl", title: "DSL Reference", body: dsl_reference() }
    } else if i == 1 {
        DocTopic { key: "cli", title: "CLI Reference", body: cli_reference() }
    } else if i == 2 {
        DocTopic { key: "style", title: "Style Reference", body: style_reference() }
    } else if i == 3 {
        DocTopic { key: "patterns", title: "Circuit Patterns", body: circuit_patterns() }
    } else if i == 4 {
        DocTopic { key: "drc", title: "DRC Rules", body: drc_rules() }
    } else {
        DocTopic { key: "mistakes", title: "Common Mistakes", body: common_mistakes() }
    }
}

/// All embedded topics, in listing order.
pub fn topics() -> (r: Vec<DocTopic>)
    ensures
        r@.len() == 6,
        forall|i: int| 0 <= i < 6 ==> is_topic_at(#[trigger] r@[i], i),
{
    let mut r: Vec<DocTopic> = Vec::new();
    let mut i: usize = 0;
    while i < 6
        invariant
            0 <= i <= 6,
            r@.len() == i,
            forall|j: int| 0 <= j < i ==> is_topic_at(#[trigger] r@[j], j),
        decreases 6 - i,
    {
        r.push(topic_at(i));
        i = i + 1;
    }
    r
}

/// Look up a topic by key: the first topic of the listing with that key, or
/// `None` when no topic has it.
pub fn topic(key: &str) -> (r: Option<DocTopic>)
    ensures
        match topic_position(key@) {
            Some(i) => r matches Some(t) && is_topic_at(t, i),
            None => r is None,
        },
{
    let mut i: usize = 0;
    while i < 6
        invariant
            0 <= i <= 6,
            forall|j: int| 0 <= j < i ==> topic_key_list()[j] != key@,
        decreases 6 - i,
    {
        let k = topic_key_at(i);
        if str_eq(k, key) {
            let ghost k = choose|k: int|
                0 <= k < 6 && topic_key_list()[k] == key@ && forall|j: int|
                    0 <= j < k ==> topic_key_list()[j] != key@;
            assert(k == i) by {
                if k < i {
                } else if k > i {
                }
            }
            return Some(topic_at(i));
        }
        i = i + 1;
    }
    None
}

/// Comma-separated list of valid topic keys (for error messages).
pub fn topic_keys() -> (r: String)
    ensures
        r@ == join_text(topic_key_list(), ", "@),
{
    let mut r = owned("dsl");
    let ghost keys = topic_key_list();
    let others: [&str; 5] = ["cli", "style", "patterns", "drc", "mistakes"];
    let mut i: usize = 0;
    assert(keys.take(1) =~= seq!["dsl"@]);
    while i < 5
        invariant
            0 <= i <= 5,
            keys == topic_key_list(),
            others@.len() == 5,
            forall|j: int| 0 <= j < 5 ==> (#[trigger] others@[j])@ == keys[j + 1],
            r@ == join_text(keys.take(i + 1), ", "@),
        decreases 5 - i,
    {
        push_str(&mut r, ", ");
        push_str(&mut r, others[i]);
        proof {
            crate::text::lemma_join_push(keys.take(i + 1), ", "@, keys[i + 1]);
            assert(keys.take(i + 1).push(keys[i + 1]) =~= keys.take(i + 2));
        }
        i = i + 1;
    }
    assert(keys.take(6) =~= keys);
    r
}

/// The answer of the `get_dsl_reference` tool: the body of the requested
/// topic (`dsl` when none is requested), or the message naming the valid
/// keys when the topic is unknown.
pub open spec fn reference_answer(requested: Option<Seq<char>>) -> Result<Seq<char>, Seq<char>> {
    let key = match requested {
        Some(k) => k,
        None => "dsl"@,
    };
    match topic_position(key) {
        Some(i) => Ok(topic_body_list()[i]),
        None => Err(
            "unknown doc topic '"@ + key + "'. Available: "@ + join_text(topic_key_list(), ", "@),
        ),
    }
}

/// `get_dsl_reference`: the body of an embedded reference document by topic
/// (`dsl` when none is requested), or the error text for an unknown topic.
pub fn reference_text(requested: Option<&str>) -> (r: Result<String, String>)
    ensures
        match reference_answer(
            match requested {
                Some(k) => Some(k@),
                None => None,
            },
        ) {
            Ok(b) => r matches Ok(x) && x@ == b,
            Err(m) => r matches Err(x) && x@ == m,
        },
{
    let key: &str = match requested {
        Some(k) => k,
        None => "dsl",
    };
    match topic(key) {
        Some(t) => Ok(t.body),
        None => {
            let mut m = owned("unknown doc topic '");
            push_str(&mut m, key);
            push_str(&mut m, "'. Available: ");
            let keys = topic_keys();
            push_str(&mut m, keys.as_str());
            Err(m)
        },
    }
}

/// Law: every listed topic is available by its key, with its body, and
/// asking for no topic is asking for `dsl`.
pub proof fn law_every_topic_available(i: int)
    requires
        0 <= i < 6,
    ensures
        reference_answer(Some(topic_key_list()[i])) == Ok::<Seq<char>, Seq<char>>(topic_body_list()[i]),
        reference_answer(None) == reference_answer(Some("dsl"@)),
{
    lemma_key_position(i);
}

/// `get_dsl_reference`: the requested embedded reference document (`dsl`
/// when none is requested) as the answer's one text, or a failed answer
/// naming the valid topic keys.
pub fn get_reference(requested: Option<&str>) -> (r: ToolOutput)
    ensures
        r.content@.len() == 1,
        match reference_answer(
            match requested {
                Some(k) => Some(k@),
                None => None,
            },
        ) {
            Ok(b) => !r.is_error && is_text(r.content@[0], b),
            Err(m) => r.is_error && is_text(r.content@[0], m),
        },
{
    match reference_text(requested) {
        Ok(body) => text_result(body),
        Err(m) => error_text(m),
    }
}

} // verus!
