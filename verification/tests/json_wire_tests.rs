//! Parses the request bodies the library builds with a JSON parser, so a
//! mistake in escaping or framing shows up as a parse failure or a changed
//! value.

use telegram_search::indexer::{index_request, mapping_body};
use telegram_search::message::{ChatMessage, SenderUser};
use telegram_search::query::search_request;

fn message_with_text(text: &str) -> ChatMessage {
    ChatMessage {
        chat_id: -1001234567890,
        id: 42,
        sender_chat: None,
        from: Some(SenderUser {
            id: 7,
            first_name: "Alice".to_string(),
            username: None,
        }),
        text: Some(text.to_string()),
        caption: None,
        date: "2023-01-02T03:04:05+00:00".to_string(),
    }
}

#[test]
fn document_body_is_well_formed_json_with_the_exact_fields() {
    let tricky = "quote \" backslash \\ newline \n tab \t bell \u{7} 中文";
    let w = index_request(&message_with_text(tricky)).write.expect("content present");
    let v: serde_json::Value = serde_json::from_str(&w.body).expect("well-formed JSON");
    assert_eq!(v["id"], serde_json::Value::from(42));
    assert_eq!(v["chatId"], serde_json::Value::from(-1001234567890i64));
    assert_eq!(v["senderId"], serde_json::Value::from(7));
    assert_eq!(v["senderName"], serde_json::Value::from("Alice"));
    assert_eq!(v["senderUsername"], serde_json::Value::Null);
    assert_eq!(v["date"], serde_json::Value::from("2023-01-02T03:04:05+00:00"));
    assert_eq!(v["message"], serde_json::Value::from(tricky));
}

#[test]
fn mapping_body_is_well_formed_json() {
    let v: serde_json::Value = serde_json::from_str(&mapping_body()).expect("well-formed JSON");
    assert_eq!(
        v["mappings"]["properties"]["message"]["analyzer"],
        serde_json::Value::from("ik_max_word")
    );
    assert_eq!(
        v["mappings"]["properties"]["message"]["search_analyzer"],
        serde_json::Value::from("ik_smart")
    );
    assert_eq!(
        v["mappings"]["properties"]["senderUsername"]["type"],
        serde_json::Value::from("keyword")
    );
    assert_eq!(v["mappings"]["properties"]["chatId"]["type"], serde_json::Value::from("long"));
    assert_eq!(v["mappings"]["properties"]["id"]["type"], serde_json::Value::from("integer"));
}

#[test]
fn search_body_is_well_formed_json_with_the_exact_query() {
    let tricky = "find \"this\" \\ and 那个";
    let r = search_request(99, tricky);
    let v: serde_json::Value = serde_json::from_str(&r.body).expect("well-formed JSON");
    let q = &v["query"]["simple_query_string"];
    assert_eq!(q["query"], serde_json::Value::from(tricky));
    assert_eq!(q["default_operator"], serde_json::Value::from("and"));
    assert_eq!(q["analyzer"], serde_json::Value::from("ik_smart"));
    let fields = q["fields"].as_array().expect("a field list");
    assert_eq!(fields.len(), 3);
    assert_eq!(fields[0], serde_json::Value::from("message"));
    assert_eq!(fields[1], serde_json::Value::from("senderName"));
    assert_eq!(fields[2], serde_json::Value::from("senderUsername"));
    assert_eq!(v["highlight"]["pre_tags"][0], serde_json::Value::from("<b>"));
    assert_eq!(v["highlight"]["post_tags"][0], serde_json::Value::from("</b>"));
    assert!(v["highlight"]["fields"]["message"].is_object());
}
