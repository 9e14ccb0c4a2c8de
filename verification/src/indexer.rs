//! The document indexer: derives the per-chat index name, the fixed schema
//! document sent before every write, and the document body to upsert, and
//! decides whether a message is written at all.

use vstd::prelude::*;
use vstd::string::StringExecFns;
use crate::json_text::{escape_json, push_escaped};
use crate::message::{
    spec_has_content, spec_resolved_text, spec_sender_id, spec_sender_name,
    spec_sender_username, ChatMessage,
};
use crate::numstr::{dec_digits, dec_int, push_i64_dec, push_u64_dec, u64_to_dec};

verus! {

/// The name of the index holding one chat's messages: a fixed prefix
/// followed by the decimal chat id.
pub open spec fn spec_index_name(chat_id: int) -> Seq<char> {
    "telegram_index_"@ + dec_int(chat_id)
}

/// The fixed schema document sent before every write: full-text fields with
/// maximal word segmentation at index time and smart segmentation at query
/// time, an exact-match handle field, a date field, and the integer ids.
pub open spec fn spec_mapping_body() -> Seq<char> {
    "{\"mappings\":{\"properties\":{\"message\":{\"type\":\"text\",\"analyzer\":\"ik_max_word\",\"search_analyzer\":\"ik_smart\"},\"senderName\":{\"type\":\"text\",\"analyzer\":\"ik_max_word\",\"search_analyzer\":\"ik_smart\"},\"senderUsername\":{\"type\":\"keyword\"},\"date\":{\"type\":\"date\"},\"chatId\":{\"type\":\"long\"},\"id\":{\"type\":\"integer\"},\"senderId\":{\"type\":\"long\"}}}}"@
}

/// An optional text field as it appears in a JSON document: a string literal
/// holding the text, or `null` when absent.
pub open spec fn json_string_or_null(o: Option<Seq<char>>) -> Seq<char> {
    match o {
        Some(s) => seq!['"'] + escape_json(s) + seq!['"'],
        None => "null"@,
    }
}

/// The document derived from a message, keyed by the message id within the
/// chat's index.
pub open spec fn spec_doc_body(m: ChatMessage) -> Seq<char> {
    "{\"id\":"@ + dec_digits(m.id as nat)
        + ",\"chatId\":"@ + dec_int(m.chat_id as int)
        + ",\"senderId\":"@ + dec_int(spec_sender_id(m) as int)
        + ",\"senderName\":"@ + json_string_or_null(spec_sender_name(m))
        + ",\"senderUsername\":"@ + json_string_or_null(spec_sender_username(m))
        + ",\"date\":\""@ + escape_json(m.date@)
        + "\",\"message\":\""@ + escape_json(spec_resolved_text(m))
        + "\"}"@
}

/// The write half of an indexing plan: the document id (the decimal message
/// id) and the document body.
pub struct DocumentWrite {
    pub doc_id: String,
    pub body: String,
}

/// The plan for one inbound message: the target index, the schema document
/// to send first, and the write to perform — absent when the message has no
/// body text after fallback resolution.
pub struct IndexRequest {
    pub index: String,
    pub schema_body: String,
    pub write: Option<DocumentWrite>,
}

/// The name of the index holding the given chat's messages.
pub fn index_name(chat_id: i64) -> (r: String)
    ensures
        r@ == spec_index_name(chat_id as int),
{
    let mut s = String::from_str("telegram_index_");
    push_i64_dec(&mut s, chat_id);
    s
}

/// Index name derivation is a pure function of the chat id: the same chat id
/// always yields the same index name.
pub proof fn lemma_index_name_pure(a: i64, b: i64)
    requires
        a == b,
    ensures
        spec_index_name(a as int) == spec_index_name(b as int),
{
}

/// The fixed schema document.
pub fn mapping_body() -> (r: String)
    ensures
        r@ == spec_mapping_body(),
{
    String::from_str(
        "{\"mappings\":{\"properties\":{\"message\":{\"type\":\"text\",\"analyzer\":\"ik_max_word\",\"search_analyzer\":\"ik_smart\"},\"senderName\":{\"type\":\"text\",\"analyzer\":\"ik_max_word\",\"search_analyzer\":\"ik_smart\"},\"senderUsername\":{\"type\":\"keyword\"},\"date\":{\"type\":\"date\"},\"chatId\":{\"type\":\"long\"},\"id\":{\"type\":\"integer\"},\"senderId\":{\"type\":\"long\"}}}}",
    )
}

/// The view of an optional text value.
pub open spec fn opt_view(o: Option<String>) -> Option<Seq<char>> {
    match o {
        Some(s) => Some(s@),
        None => None,
    }
}

fn push_string_or_null(out: &mut String, field: &Option<String>)
    ensures
        final(out)@ == old(out)@ + json_string_or_null(opt_view(*field)),
{
    match field {
        Some(s) => {
            out.append("\"");
            push_escaped(out, s.as_str());
            out.append("\"");
            proof {
                reveal_strlit("\"");
                assert(final(out)@ =~= old(out)@ + json_string_or_null(opt_view(*field)));
            }
        },
        None => {
            out.append("null");
        },
    }
}

/// The document body derived from a message.
pub fn doc_body(msg: &ChatMessage) -> (r: String)
    ensures
        r@ == spec_doc_body(*msg),
{
    let mut s = String::from_str("{\"id\":");
    push_u64_dec(&mut s, msg.id as u64);
    s.append(",\"chatId\":");
    push_i64_dec(&mut s, msg.chat_id);
    s.append(",\"senderId\":");
    let sid = msg.sender_id();
    push_i64_dec(&mut s, sid);
    s.append(",\"senderName\":");
    let name = msg.sender_name();
    proof {
        assert(opt_view(name) == spec_sender_name(*msg));
    }
    push_string_or_null(&mut s, &name);
    s.append(",\"senderUsername\":");
    let handle = msg.sender_username();
    proof {
        assert(opt_view(handle) == spec_sender_username(*msg));
    }
    push_string_or_null(&mut s, &handle);
    s.append(",\"date\":\"");
    push_escaped(&mut s, msg.date.as_str());
    s.append("\",\"message\":\"");
    let text = msg.resolved_text();
    push_escaped(&mut s, text.as_str());
    s.append("\"}");
    proof {
        assert(s@ =~= spec_doc_body(*msg));
    }
    s
}

/// The indexing plan for one inbound message: always the index name and the
/// schema document; a write exactly when the message has body text after
/// fallback resolution, keyed by the decimal message id.
pub fn index_request(msg: &ChatMessage) -> (r: IndexRequest)
    ensures
        r.index@ == spec_index_name(msg.chat_id as int),
        r.schema_body@ == spec_mapping_body(),
        r.write is Some <==> spec_has_content(*msg),
        r.write matches Some(w) ==> w.doc_id@ == dec_digits(msg.id as nat)
            && w.body@ == spec_doc_body(*msg),
{
    let index = index_name(msg.chat_id);
    let schema_body = mapping_body();
    let text = msg.resolved_text();
    let write = if text.as_str().unicode_len() == 0 {
        None
    } else {
        Some(DocumentWrite { doc_id: u64_to_dec(msg.id as u64), body: doc_body(msg) })
    };
    IndexRequest { index, schema_body, write }
}

} // verus!
