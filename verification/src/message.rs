//! The normalized inbound chat message and the derivation of the document
//! fields from it: body text with its caption fallback, and the sender id,
//! display name and handle with their chat-sender/human-sender precedence.

use vstd::prelude::*;

verus! {

/// A chat acting as the sender of a message (for example a channel posting
/// into a linked group).
pub struct SenderChat {
    pub id: i64,
    pub title: Option<String>,
    pub first_name: Option<String>,
    pub username: Option<String>,
}

/// A human sender of a message.
pub struct SenderUser {
    pub id: i64,
    pub first_name: String,
    pub username: Option<String>,
}

/// A normalized inbound chat message. `date` is the message timestamp
/// already rendered as RFC3339 text.
pub struct ChatMessage {
    pub chat_id: i64,
    pub id: u32,
    pub sender_chat: Option<SenderChat>,
    pub from: Option<SenderUser>,
    pub text: Option<String>,
    pub caption: Option<String>,
    pub date: String,
}

/// The body text a message resolves to: its text field when present, else
/// its caption, else empty.
pub open spec fn spec_resolved_text(m: ChatMessage) -> Seq<char> {
    match m.text {
        Some(t) => t@,
        None => match m.caption {
            Some(c) => c@,
            None => Seq::<char>::empty(),
        },
    }
}

/// Whether a message has any body text after fallback resolution; only such
/// messages are indexed.
pub open spec fn spec_has_content(m: ChatMessage) -> bool {
    spec_resolved_text(m).len() > 0
}

/// The sender id a message resolves to: the chat-sender's id when a chat is
/// the sender, else the human sender's id, else zero.
pub open spec fn spec_sender_id(m: ChatMessage) -> i64 {
    match m.sender_chat {
        Some(c) => c.id,
        None => match m.from {
            Some(u) => u.id,
            None => 0,
        },
    }
}

/// The display name a message's sender resolves to: for a chat-sender its
/// title, falling back to its first-name-equivalent field; for a human
/// sender the first name.
pub open spec fn spec_sender_name(m: ChatMessage) -> Option<Seq<char>> {
    match m.sender_chat {
        Some(c) => match c.title {
            Some(t) => Some(t@),
            None => match c.first_name {
                Some(f) => Some(f@),
                None => None,
            },
        },
        None => match m.from {
            Some(u) => Some(u.first_name@),
            None => None,
        },
    }
}

/// The handle a message's sender resolves to: the chat-sender's handle when
/// a chat is the sender, else the human sender's handle.
pub open spec fn spec_sender_username(m: ChatMessage) -> Option<Seq<char>> {
    match m.sender_chat {
        Some(c) => match c.username {
            Some(u) => Some(u@),
            None => None,
        },
        None => match m.from {
            Some(u) => match u.username {
                Some(n) => Some(n@),
                None => None,
            },
            None => None,
        },
    }
}

impl ChatMessage {
    /// The body text of the message: text, else caption, else empty.
    pub fn resolved_text(&self) -> (r: String)
        ensures
            r@ == spec_resolved_text(*self),
    {
        match &self.text {
            Some(t) => t.clone(),
            None => match &self.caption {
                Some(c) => c.clone(),
                None => String::new(),
            },
        }
    }

    /// The sender id of the message, with the chat-sender taking precedence
    /// over the human sender, and zero when neither is present.
    pub fn sender_id(&self) -> (r: i64)
        ensures
            r == spec_sender_id(*self),
    {
        match &self.sender_chat {
            Some(c) => c.id,
            None => match &self.from {
                Some(u) => u.id,
                None => 0,
            },
        }
    }

    /// The sender display name of the message: the chat-sender's title or
    /// first-name-equivalent field, else the human sender's first name.
    pub fn sender_name(&self) -> (r: Option<String>)
        ensures
            match r {
                Some(s) => spec_sender_name(*self) == Some(s@),
                None => spec_sender_name(*self) is None,
            },
    {
        match &self.sender_chat {
            Some(c) => match &c.title {
                Some(t) => Some(t.clone()),
                None => match &c.first_name {
                    Some(f) => Some(f.clone()),
                    None => None,
                },
            },
            None => match &self.from {
                Some(u) => Some(u.first_name.clone()),
                None => None,
            },
        }
    }

    /// The sender handle of the message: the chat-sender's handle when a
    /// chat is the sender, else the human sender's handle.
    pub fn sender_username(&self) -> (r: Option<String>)
        ensures
            match r {
                Some(s) => spec_sender_username(*self) == Some(s@),
                None => spec_sender_username(*self) is None,
            },
    {
        match &self.sender_chat {
            Some(c) => match &c.username {
                Some(u) => Some(u.clone()),
                None => None,
            },
            None => match &self.from {
                Some(u) => match &u.username {
                    Some(n) => Some(n.clone()),
                    None => None,
                },
                None => None,
            },
        }
    }
}

/// A message whose text and caption are both absent or empty has no content
/// after fallback resolution, so it is never written to the index.
pub proof fn lemma_empty_message_has_no_content(m: ChatMessage)
    requires
        match m.text {
            Some(t) => t@.len() == 0,
            None => true,
        },
        match m.caption {
            Some(c) => c@.len() == 0,
            None => true,
        },
    ensures
        !spec_has_content(m),
{
}

/// When a chat is the sender, the derived sender name is that chat's title,
/// or its first-name-equivalent field if the title is absent, and the
/// derived sender id is that chat's id.
pub proof fn lemma_chat_sender_resolution(m: ChatMessage, c: SenderChat)
    requires
        m.sender_chat == Some(c),
    ensures
        spec_sender_id(m) == c.id,
        spec_sender_name(m) == match c.title {
            Some(t) => Some(t@),
            None => match c.first_name {
                Some(f) => Some(f@),
                None => None::<Seq<char>>,
            },
        },
{
}

/// When a human is the sender (no chat-sender present), the derived sender
/// id is the human's id and the derived sender name is the human's first
/// name.
pub proof fn lemma_human_sender_resolution(m: ChatMessage, u: SenderUser)
    requires
        m.sender_chat is None,
        m.from == Some(u),
    ensures
        spec_sender_id(m) == u.id,
        spec_sender_name(m) == Some(u.first_name@),
{
}

} // verus!
