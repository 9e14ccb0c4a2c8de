//! The typed shape of the search engine's response, as consumed by the reply
//! formatter. Field names follow the engine's native response format; the
//! relevance scores the engine also returns are not consumed by anything
//! downstream and are left to the transport layer.

use vstd::prelude::*;

verus! {

/// Shard bookkeeping of a response; deserialized but not used downstream.
#[derive(Clone, Debug)]
pub struct Shards {
    pub total: i64,
    pub successful: i64,
    pub skipped: i64,
    pub failed: i64,
}

/// The total-hits count with its relation qualifier (`"eq"` or `"gte"`).
#[derive(Clone, Debug)]
pub struct Total {
    pub value: i64,
    pub relation: String,
}

/// The document a hit carries, mirroring the indexed document's fields.
#[derive(Clone, Debug)]
pub struct Source {
    pub chat_id: i64,
    pub date: String,
    pub id: i64,
    pub message: String,
    pub sender_id: i64,
    pub sender_name: String,
    pub sender_username: Option<String>,
}

/// The marked-up fragments of the message field returned for a hit when
/// highlighting matched.
#[derive(Clone, Debug)]
pub struct Highlight {
    pub message: Vec<String>,
}

/// One search hit: the index it came from, the document id (the decimal
/// message id), the document itself, and its optional highlight.
#[derive(Clone, Debug)]
pub struct Hit {
    pub index: String,
    pub id: String,
    pub source: Source,
    pub highlight: Option<Highlight>,
}

/// The ordered hits of a response, relevance-descending as returned by the
/// engine; this crate never re-sorts them.
#[derive(Clone, Debug)]
pub struct Hits {
    pub total: Total,
    pub hits: Vec<Hit>,
}

/// A search response: timing and shard metadata, and the hits.
#[derive(Clone, Debug)]
pub struct SearchResult {
    pub took: i64,
    pub timed_out: bool,
    pub shards: Shards,
    pub hits: Hits,
}

} // verus!
