use telegram_search::query::{handle_search_command, search_request, usage_reply, CommandAction};
use telegram_search::reply::{
    chat_link_id, error_reply, format_reply, no_results_reply, reply_for_outcome, EngineError,
};
use telegram_search::search_result::{Highlight, Hit, Hits, SearchResult, Shards, Source, Total};

fn result_with_hits(hits: Vec<Hit>) -> SearchResult {
    SearchResult {
        took: 3,
        timed_out: false,
        shards: Shards { total: 1, successful: 1, skipped: 0, failed: 0 },
        hits: Hits {
            total: Total { value: hits.len() as i64, relation: "eq".to_string() },
            hits,
        },
    }
}

fn hit(id: &str, message: &str, highlight: Option<Vec<&str>>) -> Hit {
    Hit {
        index: "telegram_index_-1001234567890".to_string(),
        id: id.to_string(),
        source: Source {
            chat_id: -1001234567890,
            date: "2023-01-02T03:04:05+00:00".to_string(),
            id: id.parse().unwrap(),
            message: message.to_string(),
            sender_id: 7,
            sender_name: "Alice".to_string(),
            sender_username: Some("alice".to_string()),
        },
        highlight: highlight.map(|fragments| Highlight {
            message: fragments.into_iter().map(|f| f.to_string()).collect(),
        }),
    }
}

#[test]
fn search_request_targets_the_chat_index() {
    let r = search_request(-1001234567890, "needle");
    assert_eq!(r.index, "telegram_index_-1001234567890");
    assert_eq!(
        r.body,
        "{\"query\":{\"simple_query_string\":{\"query\":\"needle\",\"fields\":[\"message\",\"senderName\",\"senderUsername\"],\"default_operator\":\"and\",\"analyzer\":\"ik_smart\"}},\"highlight\":{\"pre_tags\":[\"<b>\"],\"post_tags\":[\"</b>\"],\"fields\":{\"message\":{}}}}"
    );
}

#[test]
fn search_body_escapes_the_keyword() {
    let r = search_request(1, "say \"hi\"\\now");
    assert!(r.body.contains("\"query\":\"say \\\"hi\\\"\\\\now\""));
}

#[test]
fn empty_keyword_yields_usage_and_no_query() {
    match handle_search_command(5, "") {
        CommandAction::Usage => {}
        CommandAction::Query(_) => panic!("an empty keyword must not reach the query engine"),
    }
    assert_eq!(usage_reply(), "Usage: /search <keyword>");
}

#[test]
fn nonempty_keyword_yields_the_query() {
    match handle_search_command(5, "needle") {
        CommandAction::Usage => panic!("a non-empty keyword must be queried"),
        CommandAction::Query(q) => {
            assert_eq!(q.index, "telegram_index_5");
            assert!(q.body.contains("\"query\":\"needle\""));
        }
    }
}

#[test]
fn chat_link_id_strips_the_supergroup_prefix() {
    assert_eq!(chat_link_id(-1001234567890), "1234567890");
    assert_eq!(chat_link_id(777), "777");
    assert_eq!(chat_link_id(-999), "-999");
}

#[test]
fn zero_hits_give_the_fixed_no_results_reply() {
    let r = result_with_hits(vec![]);
    assert_eq!(format_reply(-1001234567890, &r), "搜索结果为空");
    assert_eq!(no_results_reply(), "搜索结果为空");
}

#[test]
fn highlighted_hit_shows_the_fragment_verbatim() {
    let r = result_with_hits(vec![hit(
        "42",
        "the full message about a needle somewhere",
        Some(vec!["... <b>needle</b> ..."]),
    )]);
    let reply = format_reply(-1001234567890, &r);
    assert_eq!(
        reply,
        "<a href=\"https://t.me/c/1234567890/42\">42</a> Alice:\n  ... <b>needle</b> ..."
    );
    assert!(reply.contains("... <b>needle</b> ..."));
    assert!(!reply.contains("the full message"));
}

#[test]
fn hit_without_highlight_falls_back_to_the_source_message() {
    let r = result_with_hits(vec![hit("42", "plain message text", None)]);
    let reply = format_reply(-1001234567890, &r);
    assert_eq!(
        reply,
        "<a href=\"https://t.me/c/1234567890/42\">42</a> Alice:\n  plain message text"
    );
}

#[test]
fn hit_with_empty_fragment_list_falls_back_to_the_source_message() {
    let r = result_with_hits(vec![hit("42", "plain message text", Some(vec![]))]);
    let reply = format_reply(-1001234567890, &r);
    assert!(reply.ends_with("plain message text"));
}

#[test]
fn hyperlink_target_for_negative_chat_and_hit_42() {
    let r = result_with_hits(vec![hit("42", "m", None)]);
    let reply = format_reply(-1001234567890, &r);
    assert!(reply.contains("https://t.me/c/1234567890/42"));
}

#[test]
fn hits_are_joined_by_a_blank_line_in_engine_order() {
    let r = result_with_hits(vec![
        hit("1", "first", None),
        hit("2", "second", Some(vec!["<b>second</b>"])),
        hit("3", "third", None),
    ]);
    let reply = format_reply(-1001234567890, &r);
    let lines: Vec<&str> = reply.split("\n\n").collect();
    assert_eq!(lines.len(), 3);
    assert!(lines[0].ends_with("first"));
    assert!(lines[1].ends_with("<b>second</b>"));
    assert!(lines[2].ends_with("third"));
}

#[test]
fn transport_error_becomes_the_failure_reply() {
    let e = EngineError::Transport("connection refused".to_string());
    assert_eq!(error_reply(&e), "搜索失败: connection refused");
    let outcome: Result<SearchResult, EngineError> = Err(e);
    assert_eq!(reply_for_outcome(5, &outcome), "搜索失败: connection refused");
}

#[test]
fn invalid_response_error_becomes_the_failure_reply() {
    let e = EngineError::InvalidResponse("missing field hits".to_string());
    assert_eq!(error_reply(&e), "搜索失败: missing field hits");
}

#[test]
fn successful_outcome_is_formatted() {
    let outcome: Result<SearchResult, EngineError> = Ok(result_with_hits(vec![]));
    assert_eq!(reply_for_outcome(5, &outcome), "搜索结果为空");
}
