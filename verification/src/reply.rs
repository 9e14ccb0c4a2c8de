//! The reply formatter: turns a search response into the text shown in the
//! chat — one hyperlinked line per hit, a fixed notice for an empty result,
//! and a failure notice for an engine error.

use vstd::prelude::*;
use vstd::string::{StrSliceExecFns, StringExecFns};
use crate::numstr::{dec_int, i64_to_dec};
use crate::search_result::{Hit, SearchResult};

verus! {

/// A chat id's decimal string with a leading `-100` stripped, as used in the
/// hyperlink target of a hit.
pub open spec fn spec_stripped(s: Seq<char>) -> Seq<char> {
    if s.len() >= 4 && s[0] == '-' && s[1] == '1' && s[2] == '0' && s[3] == '0' {
        s.subrange(4, s.len() as int)
    } else {
        s
    }
}

/// The chat id part of a hit's hyperlink target.
pub open spec fn spec_chat_link_id(chat_id: int) -> Seq<char> {
    spec_stripped(dec_int(chat_id))
}

/// The text displayed for a hit: its first highlighted fragment when one is
/// present, else the raw message text of its document.
pub open spec fn spec_display_text(h: Hit) -> Seq<char> {
    match h.highlight {
        Some(hl) => if hl.message@.len() > 0 {
            hl.message@[0]@
        } else {
            h.source.message@
        },
        None => h.source.message@,
    }
}

/// One reply line for a hit: a hyperlink to the message labeled with the
/// message id, the sender's display name, and the displayed text.
pub open spec fn spec_hit_line(chat: Seq<char>, h: Hit) -> Seq<char> {
    "<a href=\"https://t.me/c/"@ + chat + "/"@ + h.id@ + "\">"@ + h.id@ + "</a> "@
        + h.source.sender_name@ + ":\n  "@ + spec_display_text(h)
}

/// The reply lines for a sequence of hits, in the engine's order, joined by
/// a blank line.
pub open spec fn spec_reply_lines(chat: Seq<char>, hits: Seq<Hit>) -> Seq<char>
    decreases hits.len(),
{
    if hits.len() == 0 {
        Seq::<char>::empty()
    } else if hits.len() == 1 {
        spec_hit_line(chat, hits[0])
    } else {
        spec_reply_lines(chat, hits.drop_last()) + "\n\n"@ + spec_hit_line(chat, hits.last())
    }
}

/// The reply for a search response: the fixed empty-result notice when there
/// are no hits, else the joined reply lines.
pub open spec fn spec_reply(chat_id: int, r: SearchResult) -> Seq<char> {
    if r.hits.hits@.len() == 0 {
        "搜索结果为空"@
    } else {
        spec_reply_lines(spec_chat_link_id(chat_id), r.hits.hits@)
    }
}

/// A failure of the query path, surfaced to the caller: a transport or
/// server failure, or a response that did not match the expected shape.
pub enum EngineError {
    Transport(String),
    InvalidResponse(String),
}

/// The detail text an engine error carries.
pub open spec fn spec_error_detail(e: EngineError) -> Seq<char> {
    match e {
        EngineError::Transport(s) => s@,
        EngineError::InvalidResponse(s) => s@,
    }
}

/// The reply for a failed search: the fixed failure notice followed by the
/// error's detail text.
pub open spec fn spec_error_reply(e: EngineError) -> Seq<char> {
    "搜索失败: "@ + spec_error_detail(e)
}

/// The chat id part of a hit's hyperlink target: the decimal chat id with a
/// leading `-100` stripped.
pub fn chat_link_id(chat_id: i64) -> (r: String)
    ensures
        r@ == spec_chat_link_id(chat_id as int),
{
    let s = i64_to_dec(chat_id);
    let n = s.as_str().unicode_len();
    if n >= 4 {
        let c0 = s.as_str().get_char(0);
        let c1 = s.as_str().get_char(1);
        let c2 = s.as_str().get_char(2);
        let c3 = s.as_str().get_char(3);
        if c0 == '-' && c1 == '1' && c2 == '0' && c3 == '0' {
            let t = s.as_str().substring_char(4, n);
            return t.to_owned();
        }
    }
    s
}

fn push_hit_line(out: &mut String, chat: &str, h: &Hit)
    ensures
        final(out)@ == old(out)@ + spec_hit_line(chat@, *h),
{
    out.append("<a href=\"https://t.me/c/");
    out.append(chat);
    out.append("/");
    out.append(h.id.as_str());
    out.append("\">");
    out.append(h.id.as_str());
    out.append("</a> ");
    out.append(h.source.sender_name.as_str());
    out.append(":\n  ");
    match &h.highlight {
        Some(hl) => {
            if hl.message.len() > 0 {
                out.append(hl.message[0].as_str());
            } else {
                out.append(h.source.message.as_str());
            }
        },
        None => {
            out.append(h.source.message.as_str());
        },
    }
    proof {
        assert(final(out)@ =~= old(out)@ + spec_hit_line(chat@, *h));
    }
}

/// The fixed notice for a search that matched nothing.
pub fn no_results_reply() -> (r: String)
    ensures
        r@ == "搜索结果为空"@,
{
    String::from_str("搜索结果为空")
}

/// The reply for a search response: the fixed empty-result notice when there
/// are no hits, else one hyperlinked line per hit in the engine's order,
/// joined by a blank line.
pub fn format_reply(chat_id: i64, result: &SearchResult) -> (r: String)
    ensures
        r@ == spec_reply(chat_id as int, *result),
{
    let n = result.hits.hits.len();
    if n == 0 {
        return no_results_reply();
    }
    let chat = chat_link_id(chat_id);
    let mut out = String::new();
    let ghost hs = result.hits.hits@;
    let mut i: usize = 0;
    while i < n
        invariant
            i <= n,
            0 < n == hs.len(),
            hs == result.hits.hits@,
            chat@ == spec_chat_link_id(chat_id as int),
            i == 0 ==> out@ == Seq::<char>::empty(),
            i > 0 ==> out@ == spec_reply_lines(chat@, hs.subrange(0, i as int)),
        decreases n - i,
    {
        if i > 0 {
            out.append("\n\n");
        }
        push_hit_line(&mut out, chat.as_str(), &result.hits.hits[i]);
        proof {
            let sub1 = hs.subrange(0, i + 1 as int);
            if i == 0 {
                assert(sub1.len() == 1);
                assert(sub1[0] == hs[0]);
                assert(out@ =~= spec_reply_lines(chat@, sub1));
            } else {
                assert(sub1.drop_last() =~= hs.subrange(0, i as int));
                assert(sub1.last() == hs[i as int]);
                assert(out@ =~= spec_reply_lines(chat@, sub1));
            }
        }
        i = i + 1;
    }
    proof {
        assert(hs.subrange(0, n as int) =~= hs);
    }
    out
}

/// The reply for a failed search: the fixed failure notice followed by the
/// error's detail text.
pub fn error_reply(e: &EngineError) -> (r: String)
    ensures
        r@ == spec_error_reply(*e),
{
    let mut s = String::from_str("搜索失败: ");
    match e {
        EngineError::Transport(d) => s.append(d.as_str()),
        EngineError::InvalidResponse(d) => s.append(d.as_str()),
    }
    s
}

/// The reply for the outcome of an executed search: the formatted hits (or
/// the empty-result notice) on success, the failure notice with the error's
/// detail on failure. Every outcome yields a reply; no outcome escapes the
/// handler.
pub fn reply_for_outcome(chat_id: i64, outcome: &Result<SearchResult, EngineError>) -> (r: String)
    ensures
        match *outcome {
            Ok(res) => r@ == spec_reply(chat_id as int, res),
            Err(e) => r@ == spec_error_reply(e),
        },
{
    match outcome {
        Ok(res) => format_reply(chat_id, res),
        Err(e) => error_reply(e),
    }
}

} // verus!
