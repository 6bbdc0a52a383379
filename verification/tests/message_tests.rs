use opencode_sidecar::message::{
    decode_message, decode_part, decode_tool_state, get_session_messages_outcome,
    send_chat_message_outcome,
};
use opencode_sidecar::types::{MessagePart, OpencodeError, ToolState};

const MESSAGE_JSON: &str = "{\"id\":\"msg_1\",\"role\":\"assistant\",\"sessionID\":\"ses_1\",\"time\":{\"created\":5,\"updated\":6},\"modelID\":\"model-a\",\"providerID\":\"provider-a\",\"cost\":0.25,\"error\":null,\"tokens\":{\"input\":10,\"output\":20,\"reasoning\":0,\"cache\":{\"read\":1,\"write\":2}},\"parts\":[{\"type\":\"text\",\"text\":\"hello\"},{\"type\":\"step-start\"},{\"type\":\"file\",\"url\":\"u\",\"mime\":\"m\",\"filename\":\"f\"},{\"type\":\"tool\",\"tool\":\"bash\",\"id\":\"t1\",\"state\":{\"status\":\"completed\",\"input\":{\"cmd\":\"ls\"},\"output\":\"ok\",\"time\":{\"start\":1,\"end\":2}}}]}";

#[test]
fn decode_message_reads_fields_and_parts_in_order() {
    let m = decode_message(MESSAGE_JSON).unwrap();
    assert_eq!(m.id, "msg_1");
    assert_eq!(m.role, "assistant");
    assert_eq!(m.session_id, "ses_1");
    assert_eq!(m.time.created, 5);
    assert_eq!(m.model_id.as_deref(), Some("model-a"));
    assert_eq!(m.provider_id.as_deref(), Some("provider-a"));
    assert_eq!(m.cost.as_deref(), Some("0.25"));
    assert_eq!(m.error, None);
    let t = m.tokens.unwrap();
    assert_eq!((t.input, t.output, t.reasoning, t.cache.read, t.cache.write), (10, 20, 0, 1, 2));
    assert_eq!(m.parts.len(), 4);
    assert_eq!(m.parts[0], MessagePart::Text { text: "hello".to_string() });
    assert_eq!(m.parts[1], MessagePart::StepStart);
    match &m.parts[3] {
        MessagePart::Tool { tool, id, state } => {
            assert_eq!(tool, "bash");
            assert_eq!(id, "t1");
            match state {
                ToolState::Completed { input, output, time, .. } => {
                    assert_eq!(input, "{\"cmd\":\"ls\"}");
                    assert_eq!(output, "ok");
                    assert_eq!(time.start, 1);
                    assert_eq!(time.end, Some(2));
                },
                other => panic!("unexpected state: {:?}", other),
            }
        },
        other => panic!("unexpected part: {:?}", other),
    }
}

#[test]
fn message_without_parts_fails_to_decode() {
    let no_parts = "{\"id\":\"m\",\"role\":\"r\",\"sessionID\":\"s\",\"time\":{\"created\":1,\"updated\":2}}";
    assert!(decode_message(no_parts).is_none());
}

#[test]
fn malformed_optional_fields_fail_the_message() {
    let base = "{\"id\":\"m\",\"role\":\"r\",\"sessionID\":\"s\",\"time\":{\"created\":1,\"updated\":2},\"parts\":[]";
    // a present optional field of the wrong shape is no absence: it fails
    assert!(decode_message(&format!("{},\"modelID\":7}}", base)).is_none());
    assert!(decode_message(&format!("{},\"cost\":\"free\"}}", base)).is_none());
    assert!(decode_message(&format!("{},\"tokens\":{{\"input\":1}}}}", base)).is_none());
    // null reads as absent, as the original's decoding has it
    let m = decode_message(&format!("{},\"modelID\":null,\"cost\":null,\"tokens\":null}}", base))
        .unwrap();
    assert_eq!(m.model_id, None);
    assert_eq!(m.cost, None);
    assert!(m.tokens.is_none());
}

#[test]
fn unknown_part_kind_fails_the_whole_message() {
    let body = "{\"id\":\"m\",\"role\":\"r\",\"sessionID\":\"s\",\"time\":{\"created\":1,\"updated\":2},\"parts\":[{\"type\":\"hologram\"}]}";
    assert!(decode_message(body).is_none());
}

#[test]
fn tool_states_cover_the_machine() {
    assert_eq!(decode_tool_state("{\"status\":\"pending\"}"), Some(ToolState::Pending));
    let running = decode_tool_state(
        "{\"status\":\"running\",\"input\":{},\"time\":{\"start\":7},\"title\":\"listing\"}",
    )
    .unwrap();
    match running {
        ToolState::Running { input, time, title, metadata } => {
            assert_eq!(input, "{}");
            assert_eq!(time.start, 7);
            assert_eq!(time.end, None);
            assert_eq!(title.as_deref(), Some("listing"));
            assert_eq!(metadata, None);
        },
        other => panic!("unexpected: {:?}", other),
    }
    let errored = decode_tool_state(
        "{\"status\":\"error\",\"error\":\"bad\",\"time\":{\"start\":1,\"end\":3}}",
    )
    .unwrap();
    match errored {
        ToolState::Error { input, error, time } => {
            assert_eq!(input, None);
            assert_eq!(error, "bad");
            assert_eq!(time.end, Some(3));
        },
        other => panic!("unexpected: {:?}", other),
    }
    // running without its required time fails
    assert!(decode_tool_state("{\"status\":\"running\",\"input\":{}}").is_none());
    assert!(decode_tool_state("{\"status\":\"paused\"}").is_none());
    // a malformed optional field fails too: title must be a string, and a
    // present end time must be an unsigned integer
    assert!(decode_tool_state(
        "{\"status\":\"running\",\"input\":{},\"time\":{\"start\":1},\"title\":5}"
    )
    .is_none());
    assert!(decode_tool_state(
        "{\"status\":\"running\",\"input\":{},\"time\":{\"start\":1,\"end\":\"x\"}}"
    )
    .is_none());
}

#[test]
fn decode_part_requires_its_fields() {
    assert!(decode_part("{\"type\":\"text\"}").is_none());
    assert!(decode_part("{\"type\":\"file\",\"url\":\"u\"}").is_none());
    assert_eq!(decode_part("{\"type\":\"step-start\"}"), Some(MessagePart::StepStart));
}

#[test]
fn send_chat_message_outcome_classifies_responses() {
    match send_chat_message_outcome(400, "bad request") {
        Err(OpencodeError::Http { status, body }) => {
            assert_eq!(status, 400);
            assert_eq!(body, "bad request");
        },
        other => panic!("unexpected: {:?}", other),
    }
    assert_eq!(send_chat_message_outcome(200, "{}").unwrap_err(), OpencodeError::Decode);
    let m = send_chat_message_outcome(200, MESSAGE_JSON).unwrap();
    assert_eq!(m.id, "msg_1");
}

#[test]
fn session_messages_outcome_keeps_order() {
    let body = format!("[{},{}]", MESSAGE_JSON, MESSAGE_JSON.replace("msg_1", "msg_2"));
    let v = get_session_messages_outcome(200, &body).unwrap();
    assert_eq!(v.len(), 2);
    assert_eq!(v[0].id, "msg_1");
    assert_eq!(v[1].id, "msg_2");
    assert_eq!(get_session_messages_outcome(200, "{}").unwrap_err(), OpencodeError::Decode);
}
