//! The query engine's request side: the multi-field keyword query with
//! highlighting, and the handling of the search command that decides whether
//! a query is issued at all.

use vstd::prelude::*;
use vstd::string::{StrSliceExecFns, StringExecFns};
use crate::indexer::{index_name, spec_index_name};
use crate::json_text::{escape_json, push_escaped};

verus! {

/// The body of a search request for `keyword`: a simple-query-string query
/// over the message, sender-name and sender-handle fields with implicit AND
/// and smart segmentation, highlighting the message field with fixed
/// `<b>`/`</b>` tags.
pub open spec fn spec_search_body(keyword: Seq<char>) -> Seq<char> {
    "{\"query\":{\"simple_query_string\":{\"query\":\""@ + escape_json(keyword)
        + "\",\"fields\":[\"message\",\"senderName\",\"senderUsername\"],\"default_operator\":\"and\",\"analyzer\":\"ik_smart\"}},\"highlight\":{\"pre_tags\":[\"<b>\"],\"post_tags\":[\"</b>\"],\"fields\":{\"message\":{}}}}"@
}

/// A search request: the target index of the chat, and the request body.
pub struct SearchRequest {
    pub index: String,
    pub body: String,
}

/// What a search command resolves to: a usage hint when the keyword is
/// empty, else the query to execute.
pub enum CommandAction {
    Usage,
    Query(SearchRequest),
}

/// The body of the search request for `keyword`.
pub fn search_body(keyword: &str) -> (r: String)
    ensures
        r@ == spec_search_body(keyword@),
{
    let mut s = String::from_str("{\"query\":{\"simple_query_string\":{\"query\":\"");
    push_escaped(&mut s, keyword);
    s.append(
        "\",\"fields\":[\"message\",\"senderName\",\"senderUsername\"],\"default_operator\":\"and\",\"analyzer\":\"ik_smart\"}},\"highlight\":{\"pre_tags\":[\"<b>\"],\"post_tags\":[\"</b>\"],\"fields\":{\"message\":{}}}}",
    );
    proof {
        assert(s@ =~= spec_search_body(keyword@));
    }
    s
}

/// The search request for a non-empty keyword against the given chat's
/// index. An empty keyword never reaches the query engine: the caller
/// resolves the command through `handle_search_command` first.
pub fn search_request(chat_id: i64, keyword: &str) -> (r: SearchRequest)
    requires
        keyword@.len() > 0,
    ensures
        r.index@ == spec_index_name(chat_id as int),
        r.body@ == spec_search_body(keyword@),
{
    SearchRequest { index: index_name(chat_id), body: search_body(keyword) }
}

/// Resolves a search command: an empty keyword yields the usage hint and no
/// query; a non-empty keyword yields exactly the request of
/// `search_request`.
pub fn handle_search_command(chat_id: i64, keyword: &str) -> (r: CommandAction)
    ensures
        r is Usage <==> keyword@.len() == 0,
        r matches CommandAction::Query(q) ==> q.index@ == spec_index_name(chat_id as int)
            && q.body@ == spec_search_body(keyword@),
{
    if keyword.unicode_len() == 0 {
        CommandAction::Usage
    } else {
        CommandAction::Query(search_request(chat_id, keyword))
    }
}

/// The fixed usage hint shown when the search command carries no keyword.
pub fn usage_reply() -> (r: String)
    ensures
        r@ == "Usage: /search <keyword>"@,
{
    String::from_str("Usage: /search <keyword>")
}

} // verus!
