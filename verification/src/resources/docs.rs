//! `aelm://docs/{topic}` resources, backed by the embedded reference
//! documents in [`crate::tools::docs`].
use vstd::prelude::*;

use crate::text::{owned, prefix_rest, push_str, strip_text_prefix};
use crate::tools::docs::{
    is_topic_at, lemma_key_position, topic, topic_body_list, topic_key_list, topic_position, topic_title_list, topics,
};

verus! {

/// URI prefix for documentation resources.
pub const DOCS_PREFIX: &'static str = "aelm://docs/";

/// One entry of the resource listing.
#[derive(Debug)]
pub struct DocResource {
    pub uri: String,
    /// The resource's name: the document's title.
    pub name: String,
    pub mime_type: String,
    pub description: String,
}

/// The markdown contents of a resource.
#[derive(Debug)]
pub struct DocContents {
    pub uri: String,
    pub text: String,
    pub mime_type: String,
}

/// The URI of the `i`-th topic.
pub open spec fn topic_uri(i: int) -> Seq<char> {
    DOCS_PREFIX@ + topic_key_list()[i]
}

/// `r` is the listing entry of the `i`-th topic.
pub open spec fn is_listed(r: DocResource, i: int) -> bool {
    &&& r.uri@ == topic_uri(i)
    &&& r.name@ == topic_title_list()[i]
    &&& r.mime_type@ == "text/markdown"@
    &&& r.description@ == "Aelm "@ + topic_title_list()[i] + " (embedded)."@
}

/// The body that reading `uri` gives: that of its topic, when `uri` is a
/// docs URI naming a known topic.
pub open spec fn read_answer(uri: Seq<char>) -> Option<Seq<char>> {
    match prefix_rest(uri, DOCS_PREFIX@) {
        Some(key) => match topic_position(key) {
            Some(i) => Some(topic_body_list()[i]),
            None => None,
        },
        None => None,
    }
}

/// The resource listing: one entry for every embedded doc topic, in order.
pub fn list() -> (r: Vec<DocResource>)
    ensures
        r@.len() == 6,
        forall|i: int| 0 <= i < 6 ==> is_listed(#[trigger] r@[i], i),
{
    let all = topics();
    let mut r: Vec<DocResource> = Vec::new();
    let mut i: usize = 0;
    while i < all.len()
        invariant
            all@.len() == 6,
            forall|j: int| 0 <= j < 6 ==> is_topic_at(#[trigger] all@[j], j),
            0 <= i <= 6,
            r@.len() == i,
            forall|j: int| 0 <= j < i ==> is_listed(#[trigger] r@[j], j),
        decreases 6 - i,
    {
        let t = &all[i];
        assert(is_topic_at(all@[i as int], i as int));
        let mut uri = owned(DOCS_PREFIX);
        push_str(&mut uri, t.key);
        let mut description = owned("Aelm ");
        push_str(&mut description, t.title);
        push_str(&mut description, " (embedded).");
        r.push(
            DocResource {
                uri,
                name: owned(t.title),
                mime_type: owned("text/markdown"),
                description,
            },
        );
        i = i + 1;
    }
    r
}

/// Resolve an `aelm://docs/{topic}` URI to its markdown contents.
///
/// Returns `None` when the URI is not a docs URI or the topic is unknown, so
/// the caller can answer that the resource was not found.
pub fn read(uri: &str) -> (r: Option<DocContents>)
    ensures
        match read_answer(uri@) {
            Some(body) => r matches Some(c) && c.text@ == body && c.uri@ == uri@ && c.mime_type@
                == "text/markdown"@,
            None => r is None,
        },
{
    let key = match strip_text_prefix(uri, DOCS_PREFIX) {
        Some(k) => k,
        None => return None,
    };
    match topic(key.as_str()) {
        Some(t) => Some(DocContents { uri: owned(uri), text: t.body, mime_type: owned("text/markdown") }),
        None => None,
    }
}

/// Reading the URI of any listed topic gives that topic's body.
pub proof fn law_read_listed(i: int)
    requires
        0 <= i < 6,
    ensures
        read_answer(topic_uri(i)) == Some(topic_body_list()[i]),
{
    let key = topic_key_list()[i];
    assert(topic_uri(i).subrange(0, DOCS_PREFIX@.len() as int) =~= DOCS_PREFIX@);
    assert(topic_uri(i).skip(DOCS_PREFIX@.len() as int) =~= key);
    lemma_key_position(i);
    let j = topic_position(key);
    assert(j == Some(i));
}

} // verus!
