use opencode_sidecar::client::{
    abort_session_outcome, build_chat_request, check_stream_status, create_session_outcome,
    decode_session, event_stream_url, list_sessions_outcome, prepare_send_chat_message, probe_url,
    session_abort_url, session_collection_url, session_messages_url, snapshot_base_url,
};
use opencode_sidecar::supervisor::make_starting_info;
use opencode_sidecar::types::{ChatRequest, OpencodeError, UserMessagePart};

fn sample_request() -> ChatRequest {
    ChatRequest {
        provider_id: "provider-a".to_string(),
        model_id: "model-a".to_string(),
        parts: vec![UserMessagePart::Text { text: "hi".to_string() }],
    }
}

#[test]
fn send_chat_message_without_server_info_fails_not_running() {
    let r = prepare_send_chat_message(&None, "s1", &sample_request());
    assert_eq!(r.unwrap_err(), OpencodeError::NotRunning);
}

#[test]
fn send_chat_message_prepares_url_and_body() {
    let info = make_starting_info(Some(4000), Some(1));
    let (url, body) = prepare_send_chat_message(&Some(info), "s1", &sample_request()).unwrap();
    assert_eq!(url, "http://127.0.0.1:4000/session/s1/message");
    assert_eq!(
        String::from_utf8(body).unwrap(),
        "{\"providerID\":\"provider-a\",\"modelID\":\"model-a\",\"parts\":[{\"type\":\"text\",\"text\":\"hi\"}]}"
    );
}

#[test]
fn chat_body_escapes_string_values() {
    let req = ChatRequest {
        provider_id: "p".to_string(),
        model_id: "m".to_string(),
        parts: vec![UserMessagePart::Text { text: "a\"b\\c\nd".to_string() }],
    };
    let info = make_starting_info(Some(4000), None);
    let (_, body) = prepare_send_chat_message(&Some(info), "s", &req).unwrap();
    let text = String::from_utf8(body).unwrap();
    assert!(text.contains("a\\\"b\\\\c\\u000ad"));
    // the body is valid JSON and round-trips through a parser
    let v: serde_json::Value = serde_json::from_str(&text).unwrap();
    assert_eq!(v["parts"][0]["text"], "a\"b\\c\nd");
}

#[test]
fn chat_body_renders_file_parts() {
    let req = ChatRequest {
        provider_id: "p".to_string(),
        model_id: "m".to_string(),
        parts: vec![
            UserMessagePart::Text { text: "t".to_string() },
            UserMessagePart::File {
                url: "file:///a.png".to_string(),
                mime: "image/png".to_string(),
                filename: "a.png".to_string(),
            },
        ],
    };
    let info = make_starting_info(Some(4000), None);
    let (_, body) = prepare_send_chat_message(&Some(info), "s", &req).unwrap();
    let v: serde_json::Value = serde_json::from_slice(&body).unwrap();
    assert_eq!(v["parts"][1]["type"], "file");
    assert_eq!(v["parts"][1]["mime"], "image/png");
    assert_eq!(v["parts"][1]["filename"], "a.png");
}

#[test]
fn snapshot_guard_answers_not_running() {
    assert_eq!(snapshot_base_url(&None).unwrap_err(), OpencodeError::NotRunning);
    let info = make_starting_info(Some(3333), None);
    assert_eq!(snapshot_base_url(&Some(info)).unwrap(), "http://127.0.0.1:3333");
}

#[test]
fn endpoint_urls() {
    assert_eq!(session_collection_url("http://h:1"), "http://h:1/session");
    assert_eq!(session_messages_url("http://h:1", "s"), "http://h:1/session/s/message");
    assert_eq!(session_abort_url("http://h:1", "s"), "http://h:1/session/s/abort");
    assert_eq!(event_stream_url("http://h:1"), "http://h:1/event");
    assert_eq!(probe_url("http://h:1"), "http://h:1/app");
}

#[test]
fn build_chat_request_defaults_the_provider() {
    let r = build_chat_request(None, "m".to_string(), "hello".to_string());
    assert_eq!(r.provider_id, "anthropic");
    assert_eq!(r.model_id, "m");
    assert_eq!(r.parts, vec![UserMessagePart::Text { text: "hello".to_string() }]);
    let r2 = build_chat_request(Some("openai".to_string()), "m".to_string(), "x".to_string());
    assert_eq!(r2.provider_id, "openai");
}

const SESSION_JSON: &str = "{\"id\":\"ses_1\",\"parentID\":\"ses_0\",\"title\":\"hello\",\"version\":\"0.1\",\"time\":{\"created\":11,\"updated\":22},\"share\":{\"url\":\"https://share/x\"},\"revert\":{\"messageID\":\"msg_9\",\"part\":2,\"snapshot\":\"snap\"}}";

#[test]
fn decode_session_reads_every_field() {
    let s = decode_session(SESSION_JSON).unwrap();
    assert_eq!(s.id, "ses_1");
    assert_eq!(s.parent_id.as_deref(), Some("ses_0"));
    assert_eq!(s.title, "hello");
    assert_eq!(s.version, "0.1");
    assert_eq!(s.time.created, 11);
    assert_eq!(s.time.updated, 22);
    assert_eq!(s.share.unwrap().url, "https://share/x");
    let rv = s.revert.unwrap();
    assert_eq!(rv.message_id, "msg_9");
    assert_eq!(rv.part, 2);
    assert_eq!(rv.snapshot.as_deref(), Some("snap"));
}

#[test]
fn decode_session_needs_required_fields() {
    assert!(decode_session("{\"id\":\"x\"}").is_none());
    assert!(
        decode_session("{\"id\":\"x\",\"title\":\"t\",\"version\":\"v\",\"time\":{\"created\":1}}")
            .is_none()
    );
    let minimal = "{\"id\":\"x\",\"title\":\"t\",\"version\":\"v\",\"time\":{\"created\":1,\"updated\":2}}";
    let s = decode_session(minimal).unwrap();
    assert!(s.parent_id.is_none());
    assert!(s.share.is_none());
    assert!(s.revert.is_none());
}

#[test]
fn malformed_optional_fields_fail_the_session() {
    let base = "{\"id\":\"x\",\"title\":\"t\",\"version\":\"v\",\"time\":{\"created\":1,\"updated\":2}";
    assert!(decode_session(&format!("{},\"parentID\":7}}", base)).is_none());
    assert!(decode_session(&format!("{},\"share\":{{\"x\":1}}}}", base)).is_none());
    assert!(decode_session(&format!("{},\"revert\":{{\"messageID\":\"m\"}}}}", base)).is_none());
    assert!(decode_session(&format!(
        "{},\"revert\":{{\"messageID\":\"m\",\"part\":4294967296}}}}",
        base
    ))
    .is_none());
    assert!(decode_session(&format!(
        "{},\"revert\":{{\"messageID\":\"m\",\"part\":1,\"snapshot\":9}}}}",
        base
    ))
    .is_none());
    // null reads as absent
    let s = decode_session(&format!("{},\"parentID\":null,\"share\":null,\"revert\":null}}", base))
        .unwrap();
    assert!(s.parent_id.is_none());
    assert!(s.share.is_none());
    assert!(s.revert.is_none());
}

#[test]
fn create_session_outcome_classifies_responses() {
    match create_session_outcome(500, "boom") {
        Err(OpencodeError::Http { status, body }) => {
            assert_eq!(status, 500);
            assert_eq!(body, "boom");
        },
        other => panic!("unexpected: {:?}", other),
    }
    assert_eq!(create_session_outcome(200, "not json").unwrap_err(), OpencodeError::Decode);
    let s = create_session_outcome(201, SESSION_JSON).unwrap();
    assert_eq!(s.id, "ses_1");
}

#[test]
fn list_sessions_outcome_keeps_order() {
    let body = format!(
        "[{},{}]",
        SESSION_JSON,
        SESSION_JSON.replace("ses_1", "ses_2")
    );
    let v = list_sessions_outcome(200, &body).unwrap();
    assert_eq!(v.len(), 2);
    assert_eq!(v[0].id, "ses_1");
    assert_eq!(v[1].id, "ses_2");
}

#[test]
fn list_sessions_outcome_rejects_non_arrays() {
    assert_eq!(list_sessions_outcome(200, "{}").unwrap_err(), OpencodeError::Decode);
    assert_eq!(
        list_sessions_outcome(200, "[{\"id\":\"only\"}]").unwrap_err(),
        OpencodeError::Decode
    );
}

#[test]
fn abort_outcome_reads_the_boolean_flag() {
    assert_eq!(abort_session_outcome(200, "true").unwrap(), true);
    assert_eq!(abort_session_outcome(200, "false").unwrap(), false);
    assert_eq!(abort_session_outcome(200, "1").unwrap_err(), OpencodeError::Decode);
    match abort_session_outcome(404, "gone") {
        Err(OpencodeError::Http { status, body }) => {
            assert_eq!(status, 404);
            assert_eq!(body, "gone");
        },
        other => panic!("unexpected: {:?}", other),
    }
}

#[test]
fn stream_connection_admission() {
    assert!(check_stream_status(200).is_ok());
    assert_eq!(
        check_stream_status(503).unwrap_err(),
        OpencodeError::StreamConnect { status: 503 }
    );
}
