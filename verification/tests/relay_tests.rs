use opencode_sidecar::relay::{EventRelayBuffer, Publication};

fn topics(pubs: &[Publication]) -> Vec<&str> {
    pubs.iter().map(|p| p.topic.as_str()).collect()
}

#[test]
fn frame_reassembly_across_delayed_chunks() {
    let mut relay = EventRelayBuffer::new();
    let payload = "{\"type\":\"session.idle\",\"sessionID\":\"abc\"}";
    let first = relay.feed("data: {\"type\":\"session.idle\",\"sessionID\":\"abc\"}\n");
    assert!(first.is_empty());
    let second = relay.feed("\n");
    assert_eq!(second.len(), 2);
    assert_eq!(second[0].topic, "session-idle");
    assert_eq!(second[0].payload, payload);
    assert_eq!(second[1].topic, "session-idle:abc");
    assert_eq!(second[1].payload, payload);
}

#[test]
fn reassembly_at_arbitrary_chunk_boundaries() {
    let mut relay = EventRelayBuffer::new();
    assert!(relay.feed("da").is_empty());
    assert!(relay.feed("ta: {\"type\":\"session.idle\",\"sessionID\":\"z\"}").is_empty());
    let pubs = relay.feed("\n\n");
    assert_eq!(topics(&pubs), vec!["session-idle", "session-idle:z"]);
}

#[test]
fn malformed_payload_is_forwarded_raw_and_loop_continues() {
    let mut relay = EventRelayBuffer::new();
    let pubs = relay.feed("data: not-json\n\n");
    assert_eq!(pubs.len(), 1);
    assert_eq!(pubs[0].topic, "raw-event");
    assert_eq!(pubs[0].payload, "not-json");
    // the relay keeps going: a later, valid record still dispatches
    let later = relay.feed("data: {\"type\":\"session.idle\",\"sessionID\":\"x\"}\n\n");
    assert_eq!(topics(&later), vec!["session-idle", "session-idle:x"]);
}

#[test]
fn heartbeats_are_ignored() {
    let mut relay = EventRelayBuffer::new();
    assert!(relay.feed("data: {}\n\n").is_empty());
    assert!(relay.feed("data: \n\n").is_empty());
    assert!(relay.feed("data:   \n\n").is_empty());
    // trimming goes by Unicode whitespace, a no-break space included
    assert!(relay.feed("data: \u{00A0}\t\n\n").is_empty());
}

#[test]
fn records_without_data_lines_publish_nothing() {
    let mut relay = EventRelayBuffer::new();
    assert!(relay.feed(": comment line\nretry: 100\n\n").is_empty());
}

#[test]
fn message_updated_routes_by_the_messages_session() {
    let mut relay = EventRelayBuffer::new();
    let pubs = relay.feed(
        "data: {\"type\":\"message.updated\",\"info\":{\"id\":\"m1\",\"role\":\"assistant\",\"sessionID\":\"s1\",\"time\":{\"created\":1,\"updated\":2},\"parts\":[{\"type\":\"text\",\"text\":\"x\"}]}}\n\n",
    );
    assert_eq!(topics(&pubs), vec!["message-updated", "message-updated:s1"]);
}

#[test]
fn message_updated_with_partial_info_is_forwarded_raw() {
    let mut relay = EventRelayBuffer::new();
    let pubs = relay.feed(
        "data: {\"type\":\"message.updated\",\"info\":{\"sessionID\":\"s1\",\"id\":\"m1\"}}\n\n",
    );
    assert_eq!(topics(&pubs), vec!["raw-event"]);
}

#[test]
fn message_part_updated_routes_by_session() {
    let mut relay = EventRelayBuffer::new();
    let pubs = relay.feed(
        "data: {\"type\":\"message.part.updated\",\"sessionID\":\"s2\",\"messageID\":\"m\",\"part\":{\"type\":\"text\",\"text\":\"x\"}}\n\n",
    );
    assert_eq!(topics(&pubs), vec!["message-part-updated", "message-part-updated:s2"]);
}

#[test]
fn part_update_with_undecodable_part_is_forwarded_raw() {
    let mut relay = EventRelayBuffer::new();
    let pubs = relay.feed(
        "data: {\"type\":\"message.part.updated\",\"sessionID\":\"s2\",\"messageID\":\"m\",\"part\":{}}\n\n",
    );
    assert_eq!(topics(&pubs), vec!["raw-event"]);
}

#[test]
fn session_updated_publishes_only_globally() {
    let mut relay = EventRelayBuffer::new();
    let pubs = relay.feed(
        "data: {\"type\":\"session.updated\",\"info\":{\"id\":\"s\",\"title\":\"t\",\"version\":\"v\",\"time\":{\"created\":1,\"updated\":2}}}\n\n",
    );
    assert_eq!(topics(&pubs), vec!["session-updated"]);
}

#[test]
fn session_updated_with_partial_info_is_forwarded_raw() {
    let mut relay = EventRelayBuffer::new();
    let pubs = relay.feed("data: {\"type\":\"session.updated\",\"info\":{\"id\":\"s\"}}\n\n");
    assert_eq!(topics(&pubs), vec!["raw-event"]);
}

#[test]
fn session_deleted_publishes_only_globally() {
    let mut relay = EventRelayBuffer::new();
    let pubs = relay.feed(
        "data: {\"type\":\"session.deleted\",\"info\":{\"id\":\"s\",\"title\":\"t\",\"version\":\"v\",\"time\":{\"created\":1,\"updated\":2}}}\n\n",
    );
    assert_eq!(topics(&pubs), vec!["session-deleted"]);
}

#[test]
fn session_error_scopes_only_when_session_is_known() {
    let mut relay = EventRelayBuffer::new();
    let with_id = relay.feed(
        "data: {\"type\":\"session.error\",\"sessionID\":\"s9\",\"error\":{\"m\":1}}\n\n",
    );
    assert_eq!(topics(&with_id), vec!["session-error", "session-error:s9"]);
    let without_id = relay.feed("data: {\"type\":\"session.error\",\"error\":{}}\n\n");
    assert_eq!(topics(&without_id), vec!["session-error"]);
}

#[test]
fn message_removed_goes_to_the_fallback_topic() {
    let mut relay = EventRelayBuffer::new();
    let pubs = relay.feed(
        "data: {\"type\":\"message.removed\",\"sessionID\":\"s\",\"messageID\":\"m\"}\n\n",
    );
    assert_eq!(topics(&pubs), vec!["event"]);
}

#[test]
fn unknown_event_kind_goes_to_the_fallback_topic() {
    let mut relay = EventRelayBuffer::new();
    let pubs = relay.feed("data: {\"type\":\"installation.updated\",\"version\":\"1\"}\n\n");
    assert_eq!(topics(&pubs), vec!["event"]);
}

#[test]
fn idle_event_without_session_id_is_forwarded_raw() {
    let mut relay = EventRelayBuffer::new();
    let pubs = relay.feed("data: {\"type\":\"session.idle\"}\n\n");
    assert_eq!(topics(&pubs), vec!["raw-event"]);
}

#[test]
fn one_record_may_carry_several_data_lines() {
    let mut relay = EventRelayBuffer::new();
    let pubs = relay.feed(
        "data: {\"type\":\"session.idle\",\"sessionID\":\"a\"}\ndata: {\"type\":\"session.idle\",\"sessionID\":\"b\"}\n\n",
    );
    assert_eq!(
        topics(&pubs),
        vec!["session-idle", "session-idle:a", "session-idle", "session-idle:b"]
    );
}

#[test]
fn two_records_in_one_chunk_dispatch_in_order() {
    let mut relay = EventRelayBuffer::new();
    let pubs = relay.feed(
        "data: {\"type\":\"session.idle\",\"sessionID\":\"a\"}\n\ndata: {\"type\":\"message.removed\",\"sessionID\":\"s\",\"messageID\":\"m\"}\n\n",
    );
    assert_eq!(topics(&pubs), vec!["session-idle", "session-idle:a", "event"]);
}

#[test]
fn carriage_returns_before_line_ends_are_tolerated() {
    let mut relay = EventRelayBuffer::new();
    // the record separator is still "\n\n"; a '\r' at a line end is stripped
    let pubs = relay.feed("data: {\"type\":\"session.idle\",\"sessionID\":\"r\"}\r\n\n");
    assert_eq!(topics(&pubs), vec!["session-idle", "session-idle:r"]);
}
