use debug_log_tail::decode::{event_kind, parse_commit, parse_event, EventKind};
use debug_log_tail::event::{Commit, CommitField, DecodeError, Event, RawEvent, ValidatorEvent};

fn raw(name: &str, timestamp: i64, json: &str) -> RawEvent {
    RawEvent::new(name.to_string(), timestamp, json.to_string())
}

fn commit(commit: &str, round: u64, parent: &str) -> Event {
    Event::Commit(Commit { commit: commit.to_string(), round, parent: parent.to_string() })
}

#[test]
fn committed_event_decodes_to_its_fields() {
    let ev = raw("committed", 1000, "{\"block_id\":\"abc\",\"round\":5,\"parent_id\":\"xyz\"}");
    let r = parse_event("node-1", &ev, 42).unwrap().unwrap();
    assert_eq!(
        r,
        ValidatorEvent {
            validator: "node-1".to_string(),
            timestamp_ms: 1000,
            received_timestamp_ms: 42,
            event: commit("abc", 5, "xyz"),
        }
    );
}

#[test]
fn heartbeat_is_skipped() {
    let ev = raw("heartbeat", 1000, "{}");
    assert_eq!(parse_event("node-1", &ev, 42), Ok(None));
}

#[test]
fn unknown_kind_with_commit_payload_is_skipped() {
    let ev = raw("Committed", 7, "{\"block_id\":\"a\",\"round\":1,\"parent_id\":\"b\"}");
    assert_eq!(parse_event("n", &ev, 0), Ok(None));
}

#[test]
fn malformed_payload_is_fatal_for_any_kind() {
    assert_eq!(parse_event("n", &raw("committed", 1, "{not json"), 0), Err(DecodeError::MalformedJson));
    assert_eq!(parse_event("n", &raw("heartbeat", 1, ""), 0), Err(DecodeError::MalformedJson));
}

#[test]
fn missing_fields_are_fatal() {
    let cases = [
        ("{\"round\":5,\"parent_id\":\"xyz\"}", CommitField::BlockId),
        ("{\"block_id\":\"abc\",\"parent_id\":\"xyz\"}", CommitField::Round),
        ("{\"block_id\":\"abc\",\"round\":5}", CommitField::ParentId),
        ("[1, 2]", CommitField::BlockId),
    ];
    for (json, field) in cases {
        assert_eq!(parse_event("n", &raw("committed", 1, json), 0), Err(DecodeError::MissingField(field)));
    }
}

#[test]
fn mistyped_fields_are_fatal() {
    let cases = [
        ("{\"block_id\":7,\"round\":5,\"parent_id\":\"xyz\"}", CommitField::BlockId),
        ("{\"block_id\":\"abc\",\"round\":\"5\",\"parent_id\":\"xyz\"}", CommitField::Round),
        ("{\"block_id\":\"abc\",\"round\":-5,\"parent_id\":\"xyz\"}", CommitField::Round),
        ("{\"block_id\":\"abc\",\"round\":5.5,\"parent_id\":\"xyz\"}", CommitField::Round),
        ("{\"block_id\":\"abc\",\"round\":5,\"parent_id\":null}", CommitField::ParentId),
    ];
    for (json, field) in cases {
        assert_eq!(parse_event("n", &raw("committed", 1, json), 0), Err(DecodeError::WrongFieldType(field)));
    }
}

#[test]
fn first_faulty_field_decides_the_error() {
    let ev = raw("committed", 1, "{\"round\":\"x\"}");
    assert_eq!(parse_event("n", &ev, 0), Err(DecodeError::MissingField(CommitField::BlockId)));
}

#[test]
fn largest_round_is_kept() {
    let ev = raw("committed", 1, "{\"block_id\":\"a\",\"round\":18446744073709551615,\"parent_id\":\"b\"}");
    let r = parse_event("n", &ev, 0).unwrap().unwrap();
    assert_eq!(r.event, commit("a", u64::MAX, "b"));
}

#[test]
fn negative_node_timestamp_wraps() {
    let ev = raw("committed", -1, "{\"block_id\":\"a\",\"round\":0,\"parent_id\":\"\"}");
    let r = parse_event("n", &ev, 9).unwrap().unwrap();
    assert_eq!(r.timestamp_ms, u64::MAX);
    assert_eq!(r.received_timestamp_ms, 9);
    assert_eq!(r.event, commit("a", 0, ""));
}

#[test]
fn extra_fields_are_ignored() {
    let ev = raw("committed", 3, "{\"extra\":[1],\"block_id\":\"\\u00e9t\\u00e9\",\"round\":2,\"parent_id\":\"p\"}");
    let r = parse_event("v", &ev, 0).unwrap().unwrap();
    assert_eq!(r.event, commit("\u{e9}t\u{e9}", 2, "p"));
}

#[test]
fn parse_commit_reads_a_parsed_payload() {
    let v: serde_json::Value = serde_json::from_str("{\"block_id\":\"b1\",\"round\":12,\"parent_id\":\"b0\"}").unwrap();
    assert_eq!(parse_commit(&v), Ok(commit("b1", 12, "b0")));
    let w: serde_json::Value = serde_json::from_str("{\"block_id\":\"b1\",\"round\":12}").unwrap();
    assert_eq!(parse_commit(&w), Err(DecodeError::MissingField(CommitField::ParentId)));
}

#[test]
fn event_kind_matches_the_exact_name() {
    assert_eq!(event_kind("committed"), Some(EventKind::Committed));
    assert_eq!(event_kind("committe"), None);
    assert_eq!(event_kind("committed "), None);
    assert_eq!(event_kind(""), None);
}
