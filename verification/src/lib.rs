//! Verified core of a chat-message search bridge.
//!
//! Given a normalized chat message, the indexer half derives the per-chat
//! index name, the fixed schema document, and the document to upsert, and
//! decides whether a write is due at all. The query half builds the
//! multi-field keyword query with highlighting, and formats the engine's
//! results into the reply text shown in the chat. Network transport and the
//! chat-platform plumbing live outside this crate; they exchange plain
//! values with it.

pub mod indexer;
pub mod json_text;
pub mod message;
pub mod numstr;
pub mod query;
pub mod reply;
pub mod search_result;
