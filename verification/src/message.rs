//! Decoding messages and their parts from the sidecar's JSON, and the
//! outcomes of the message endpoints.
use vstd::prelude::*;
use vstd::string::StringExecFns;
use crate::client::{
    is_success_status, opt_num_field, opt_raw_field, opt_str_field, opt_u64_field,
    spec_is_success, spec_opt_num_field, spec_opt_raw_field, spec_opt_str_field,
    spec_opt_u64_field, spec_session_time,
};
use crate::jsonq::{
    get_array_len, get_elem, get_raw_field, get_str_field, get_u64_field, json_array_len,
    json_elem, json_raw_field, json_str_field, json_u64_field,
};
use crate::scan::str_eq;
use crate::types::{
    CacheInfo, MessagePart, OpenCodeMessage, OpencodeError, TimeInfo, TokenInfo, ToolState,
    ToolTimeInfo,
};

verus! {

/// A tool invocation's time object: required `start`; `end` may be absent
/// or null, but present it must be an unsigned integer.
pub open spec fn spec_tool_time(sd: Seq<char>) -> Option<(u64, Option<u64>)> {
    match json_raw_field(sd, "time"@) {
        None => None,
        Some(t) => match json_u64_field(t, "start"@) {
            None => None,
            Some(st) => match spec_opt_u64_field(t, "end"@) {
                Some(e) => Some((st, e)),
                None => None,
            },
        },
    }
}

/// Does this JSON text carry a decodable tool state?  Its `status` tag
/// decides the shape: `pending`; `running` and `completed` need an input
/// and a time (`completed` also an output); `error` needs an error text
/// and a time.  An optional field present with the wrong shape is
/// invalid, not absent.
pub open spec fn spec_tool_state_ok(sd: Seq<char>) -> bool {
    match json_str_field(sd, "status"@) {
        None => false,
        Some(tag) => if tag == "pending"@ {
            true
        } else if tag == "running"@ {
            json_raw_field(sd, "input"@) is Some && spec_tool_time(sd) is Some
                && spec_opt_str_field(sd, "title"@) is Some
        } else if tag == "completed"@ {
            json_raw_field(sd, "input"@) is Some && json_str_field(sd, "output"@) is Some
                && spec_tool_time(sd) is Some && spec_opt_str_field(sd, "title"@) is Some
        } else if tag == "error"@ {
            json_str_field(sd, "error"@) is Some && spec_tool_time(sd) is Some
        } else {
            false
        },
    }
}

/// Does `st` hold exactly what the JSON text `sd` describes?
pub open spec fn spec_tool_state_matches(sd: Seq<char>, st: ToolState) -> bool {
    match st {
        ToolState::Pending => json_str_field(sd, "status"@) == Some("pending"@),
        ToolState::Running { input, time, title, metadata } => {
            &&& json_str_field(sd, "status"@) == Some("running"@)
            &&& json_raw_field(sd, "input"@) == Some(input@)
            &&& spec_tool_time(sd) == Some((time.start, time.end))
            &&& spec_opt_str_field(sd, "title"@) == Some(title.deep_view())
            &&& spec_opt_raw_field(sd, "metadata"@) == metadata.deep_view()
        },
        ToolState::Completed { input, output, time, title, metadata } => {
            &&& json_str_field(sd, "status"@) == Some("completed"@)
            &&& json_raw_field(sd, "input"@) == Some(input@)
            &&& json_str_field(sd, "output"@) == Some(output@)
            &&& spec_tool_time(sd) == Some((time.start, time.end))
            &&& spec_opt_str_field(sd, "title"@) == Some(title.deep_view())
            &&& spec_opt_raw_field(sd, "metadata"@) == metadata.deep_view()
        },
        ToolState::Error { input, error, time } => {
            &&& json_str_field(sd, "status"@) == Some("error"@)
            &&& spec_opt_raw_field(sd, "input"@) == input.deep_view()
            &&& json_str_field(sd, "error"@) == Some(error@)
            &&& spec_tool_time(sd) == Some((time.start, time.end))
        },
    }
}

/// Reads a tool invocation's time object.
fn decode_tool_time(sd: &str) -> (r: Option<ToolTimeInfo>)
    ensures
        r is Some <==> spec_tool_time(sd@) is Some,
        r matches Some(t) ==> spec_tool_time(sd@) == Some((t.start, t.end)),
{
    match get_raw_field(sd, "time") {
        None => None,
        Some(t) => match get_u64_field(t.as_str(), "start") {
            None => None,
            Some(st) => match opt_u64_field(t.as_str(), "end") {
                Some(e) => Some(ToolTimeInfo { start: st, end: e }),
                None => None,
            },
        },
    }
}

/// Decodes a tool state from JSON text.
pub fn decode_tool_state(sd: &str) -> (r: Option<ToolState>)
    ensures
        r is Some <==> spec_tool_state_ok(sd@),
        r matches Some(st) ==> spec_tool_state_matches(sd@, st),
{
    let tag = match get_str_field(sd, "status") {
        Some(t) => t,
        None => {
            return None;
        },
    };
    if str_eq(tag.as_str(), "pending") {
        Some(ToolState::Pending)
    } else if str_eq(tag.as_str(), "running") {
        let input = match get_raw_field(sd, "input") {
            Some(x) => x,
            None => {
                return None;
            },
        };
        let time = match decode_tool_time(sd) {
            Some(t) => t,
            None => {
                return None;
            },
        };
        let title = match opt_str_field(sd, "title") {
            Some(t) => t,
            None => {
                return None;
            },
        };
        Some(ToolState::Running { input, time, title, metadata: opt_raw_field(sd, "metadata") })
    } else if str_eq(tag.as_str(), "completed") {
        let input = match get_raw_field(sd, "input") {
            Some(x) => x,
            None => {
                return None;
            },
        };
        let output = match get_str_field(sd, "output") {
            Some(x) => x,
            None => {
                return None;
            },
        };
        let time = match decode_tool_time(sd) {
            Some(t) => t,
            None => {
                return None;
            },
        };
        let title = match opt_str_field(sd, "title") {
            Some(t) => t,
            None => {
                return None;
            },
        };
        Some(ToolState::Completed { input, output, time, title, metadata: opt_raw_field(sd, "metadata") })
    } else if str_eq(tag.as_str(), "error") {
        let error = match get_str_field(sd, "error") {
            Some(x) => x,
            None => {
                return None;
            },
        };
        let time = match decode_tool_time(sd) {
            Some(t) => t,
            None => {
                return None;
            },
        };
        Some(ToolState::Error { input: opt_raw_field(sd, "input"), error, time })
    } else {
        None
    }
}

/// Does this JSON text carry a decodable message part?  Its `type` tag
/// decides the shape; a part of an unknown type fails the whole message,
/// as a closed sum must.
pub open spec fn spec_part_ok(doc: Seq<char>) -> bool {
    match json_str_field(doc, "type"@) {
        None => false,
        Some(tag) => if tag == "text"@ {
            json_str_field(doc, "text"@) is Some
        } else if tag == "tool"@ {
            &&& json_str_field(doc, "tool"@) is Some
            &&& json_str_field(doc, "id"@) is Some
            &&& json_raw_field(doc, "state"@) matches Some(sd) && spec_tool_state_ok(sd)
        } else if tag == "file"@ {
            &&& json_str_field(doc, "url"@) is Some
            &&& json_str_field(doc, "mime"@) is Some
            &&& json_str_field(doc, "filename"@) is Some
        } else if tag == "step-start"@ {
            true
        } else {
            false
        },
    }
}

/// Does `p` hold exactly what the JSON text `doc` describes?
pub open spec fn spec_part_matches(doc: Seq<char>, p: MessagePart) -> bool {
    match p {
        MessagePart::Text { text } => {
            &&& json_str_field(doc, "type"@) == Some("text"@)
            &&& json_str_field(doc, "text"@) == Some(text@)
        },
        MessagePart::Tool { tool, id, state } => {
            &&& json_str_field(doc, "type"@) == Some("tool"@)
            &&& json_str_field(doc, "tool"@) == Some(tool@)
            &&& json_str_field(doc, "id"@) == Some(id@)
            &&& json_raw_field(doc, "state"@) matches Some(sd) && spec_tool_state_matches(sd, state)
        },
        MessagePart::File { url, mime, filename } => {
            &&& json_str_field(doc, "type"@) == Some("file"@)
            &&& json_str_field(doc, "url"@) == Some(url@)
            &&& json_str_field(doc, "mime"@) == Some(mime@)
            &&& json_str_field(doc, "filename"@) == Some(filename@)
        },
        MessagePart::StepStart => json_str_field(doc, "type"@) == Some("step-start"@),
    }
}

/// Decodes one message part from JSON text.
pub fn decode_part(doc: &str) -> (r: Option<MessagePart>)
    ensures
        r is Some <==> spec_part_ok(doc@),
        r matches Some(p) ==> spec_part_matches(doc@, p),
{
    let tag = match get_str_field(doc, "type") {
        Some(t) => t,
        None => {
            return None;
        },
    };
    if str_eq(tag.as_str(), "text") {
        match get_str_field(doc, "text") {
            Some(text) => Some(MessagePart::Text { text }),
            None => None,
        }
    } else if str_eq(tag.as_str(), "tool") {
        let tool = match get_str_field(doc, "tool") {
            Some(x) => x,
            None => {
                return None;
            },
        };
        let id = match get_str_field(doc, "id") {
            Some(x) => x,
            None => {
                return None;
            },
        };
        let sd = match get_raw_field(doc, "state") {
            Some(x) => x,
            None => {
                return None;
            },
        };
        match decode_tool_state(sd.as_str()) {
            Some(state) => Some(MessagePart::Tool { tool, id, state }),
            None => None,
        }
    } else if str_eq(tag.as_str(), "file") {
        let url = match get_str_field(doc, "url") {
            Some(x) => x,
            None => {
                return None;
            },
        };
        let mime = match get_str_field(doc, "mime") {
            Some(x) => x,
            None => {
                return None;
            },
        };
        let filename = match get_str_field(doc, "filename") {
            Some(x) => x,
            None => {
                return None;
            },
        };
        Some(MessagePart::File { url, mime, filename })
    } else if str_eq(tag.as_str(), "step-start") {
        Some(MessagePart::StepStart)
    } else {
        None
    }
}

/// The message's token accounting, read strictly: absent or null reads as
/// absent; present, the `tokens` object must carry `input`, `output` and
/// `reasoning` fitting `u32` and a `cache` object with `read` and
/// `write`, else it is invalid and fails the message.
pub open spec fn spec_message_tokens(doc: Seq<char>) -> Option<
    Option<(u32, u32, u32, u32, u32)>,
> {
    match json_raw_field(doc, "tokens"@) {
        None => Some(None),
        Some(td) => if td == "null"@ {
            Some(None)
        } else {
            match (
                json_u64_field(td, "input"@),
                json_u64_field(td, "output"@),
                json_u64_field(td, "reasoning"@),
            ) {
                (Some(i), Some(o), Some(g)) => match json_raw_field(td, "cache"@) {
                    None => None,
                    Some(cd) => match (json_u64_field(cd, "read"@), json_u64_field(cd, "write"@)) {
                        (Some(r), Some(w)) => if i <= u32::MAX && o <= u32::MAX && g <= u32::MAX
                            && r <= u32::MAX && w <= u32::MAX {
                            Some(Some((i as u32, o as u32, g as u32, r as u32, w as u32)))
                        } else {
                            None
                        },
                        _ => None,
                    },
                },
                _ => None,
            }
        },
    }
}

fn decode_tokens(doc: &str) -> (r: Option<Option<TokenInfo>>)
    ensures
        match r {
            Some(Some(t)) => spec_message_tokens(doc@) == Some(
                Some((t.input, t.output, t.reasoning, t.cache.read, t.cache.write)),
            ),
            Some(None) => spec_message_tokens(doc@) == Some(None::<(u32, u32, u32, u32, u32)>),
            None => spec_message_tokens(doc@) is None,
        },
{
    let td = match get_raw_field(doc, "tokens") {
        Some(x) => x,
        None => {
            return Some(None);
        },
    };
    if str_eq(td.as_str(), "null") {
        return Some(None);
    }
    let i = get_u64_field(td.as_str(), "input");
    let o = get_u64_field(td.as_str(), "output");
    let g = get_u64_field(td.as_str(), "reasoning");
    match (i, o, g) {
        (Some(i), Some(o), Some(g)) => {
            let cd = match get_raw_field(td.as_str(), "cache") {
                Some(x) => x,
                None => {
                    return None;
                },
            };
            match (get_u64_field(cd.as_str(), "read"), get_u64_field(cd.as_str(), "write")) {
                (Some(r), Some(w)) => {
                    if i <= 0xffff_ffff && o <= 0xffff_ffff && g <= 0xffff_ffff && r <= 0xffff_ffff
                        && w <= 0xffff_ffff {
                        Some(
                            Some(
                                TokenInfo {
                                    input: i as u32,
                                    output: o as u32,
                                    reasoning: g as u32,
                                    cache: CacheInfo { read: r as u32, write: w as u32 },
                                },
                            ),
                        )
                    } else {
                        None
                    }
                },
                _ => None,
            }
        },
        _ => None,
    }
}

/// Does this JSON text carry a decodable message: string `id`, `role` and
/// `sessionID`, a time object, a `parts` array whose every element
/// decodes, and each optional field either absent or well-formed?
pub open spec fn spec_message_ok(doc: Seq<char>) -> bool {
    &&& json_str_field(doc, "id"@) is Some
    &&& json_str_field(doc, "role"@) is Some
    &&& json_str_field(doc, "sessionID"@) is Some
    &&& spec_session_time(doc) is Some
    &&& spec_opt_str_field(doc, "modelID"@) is Some
    &&& spec_opt_str_field(doc, "providerID"@) is Some
    &&& spec_opt_num_field(doc, "cost"@) is Some
    &&& spec_message_tokens(doc) is Some
    &&& json_raw_field(doc, "parts"@) matches Some(pd) && json_array_len(pd) matches Some(n)
        && (forall|i: int|
        0 <= i < n ==> ((#[trigger] json_elem(pd, i)) matches Some(e) && spec_part_ok(e)))
}

/// Does `m` hold exactly what the JSON text `doc` describes?
pub open spec fn spec_message_matches(doc: Seq<char>, m: OpenCodeMessage) -> bool {
    &&& json_str_field(doc, "id"@) == Some(m.id@)
    &&& json_str_field(doc, "role"@) == Some(m.role@)
    &&& json_str_field(doc, "sessionID"@) == Some(m.session_id@)
    &&& spec_session_time(doc) == Some((m.time.created, m.time.updated))
    &&& spec_opt_str_field(doc, "modelID"@) == Some(m.model_id.deep_view())
    &&& spec_opt_str_field(doc, "providerID"@) == Some(m.provider_id.deep_view())
    &&& spec_opt_num_field(doc, "cost"@) == Some(m.cost.deep_view())
    &&& spec_opt_raw_field(doc, "error"@) == m.error.deep_view()
    &&& spec_message_tokens(doc) == Some(
        match m.tokens {
            Some(t) => Some((t.input, t.output, t.reasoning, t.cache.read, t.cache.write)),
            None => None::<(u32, u32, u32, u32, u32)>,
        },
    )
    &&& json_raw_field(doc, "parts"@) matches Some(pd) && json_array_len(pd) matches Some(n)
        && m.parts@.len() == n && (forall|i: int|
        0 <= i < n ==> ((#[trigger] json_elem(pd, i)) matches Some(e) && spec_part_matches(
            e,
            m.parts@[i],
        )))
}

/// Decodes one message from JSON text.
pub fn decode_message(doc: &str) -> (r: Option<OpenCodeMessage>)
    ensures
        r is Some <==> spec_message_ok(doc@),
        r matches Some(m) ==> spec_message_matches(doc@, m),
{
    let id = match get_str_field(doc, "id") {
        Some(x) => x,
        None => {
            return None;
        },
    };
    let role = match get_str_field(doc, "role") {
        Some(x) => x,
        None => {
            return None;
        },
    };
    let session_id = match get_str_field(doc, "sessionID") {
        Some(x) => x,
        None => {
            return None;
        },
    };
    let time = match get_raw_field(doc, "time") {
        Some(t) => {
            match (get_u64_field(t.as_str(), "created"), get_u64_field(t.as_str(), "updated")) {
                (Some(c), Some(u)) => TimeInfo { created: c, updated: u },
                _ => {
                    return None;
                },
            }
        },
        None => {
            return None;
        },
    };
    let pd = match get_raw_field(doc, "parts") {
        Some(x) => x,
        None => {
            return None;
        },
    };
    let n = match get_array_len(pd.as_str()) {
        Some(n) => n,
        None => {
            return None;
        },
    };
    let mut parts: Vec<MessagePart> = Vec::new();
    let mut i: usize = 0;
    while i < n
        invariant
            i <= n,
            json_raw_field(doc@, "parts"@) == Some(pd@),
            json_array_len(pd@) == Some(n),
            parts@.len() == i,
            forall|k: int|
                0 <= k < i ==> ((#[trigger] json_elem(pd@, k)) matches Some(e) && spec_part_ok(e)
                    && spec_part_matches(e, parts@[k])),
        decreases n - i,
    {
        let elem = match get_elem(pd.as_str(), i) {
            Some(e) => e,
            None => {
                return None;
            },
        };
        let p = match decode_part(elem.as_str()) {
            Some(p) => p,
            None => {
                return None;
            },
        };
        parts.push(p);
        i += 1;
    }
    let model_id = match opt_str_field(doc, "modelID") {
        Some(v) => v,
        None => {
            return None;
        },
    };
    let provider_id = match opt_str_field(doc, "providerID") {
        Some(v) => v,
        None => {
            return None;
        },
    };
    let cost = match opt_num_field(doc, "cost") {
        Some(v) => v,
        None => {
            return None;
        },
    };
    let tokens = match decode_tokens(doc) {
        Some(v) => v,
        None => {
            return None;
        },
    };
    Some(
        OpenCodeMessage {
            id,
            role,
            session_id,
            parts,
            time,
            model_id,
            provider_id,
            cost,
            tokens,
            error: opt_raw_field(doc, "error"),
        },
    )
}

/// The outcome of sending a chat message: a non-success status is an
/// `Http` error carrying status and body; a success body must decode as
/// the acknowledging message, else `Decode`.
pub fn send_chat_message_outcome(status: u16, body: &str) -> (r: Result<
    OpenCodeMessage,
    OpencodeError,
>)
    ensures
        !spec_is_success(status) ==> (r matches Err(e) && (e matches OpencodeError::Http {
            status: s,
            body: b,
        } && s == status && b@ == body@)),
        spec_is_success(status) && spec_message_ok(body@) ==> (r matches Ok(m)
            && spec_message_matches(body@, m)),
        spec_is_success(status) && !spec_message_ok(body@) ==> r == Err::<OpenCodeMessage, _>(
            OpencodeError::Decode,
        ),
{
    if !is_success_status(status) {
        return Err(OpencodeError::Http { status, body: String::from_str(body) });
    }
    match decode_message(body) {
        Some(m) => Ok(m),
        None => Err(OpencodeError::Decode),
    }
}

/// Does this JSON text carry an array of decodable messages?
pub open spec fn spec_messages_ok(doc: Seq<char>) -> bool {
    &&& json_array_len(doc) is Some
    &&& forall|i: int|
        0 <= i < json_array_len(doc)->0 ==> ((#[trigger] json_elem(doc, i)) matches Some(e)
            && spec_message_ok(e))
}

/// The outcome of listing a session's messages: a non-success status is an
/// `Http` error; a success body must be an array of messages, decoded in
/// order, else `Decode`.
pub fn get_session_messages_outcome(status: u16, body: &str) -> (r: Result<
    Vec<OpenCodeMessage>,
    OpencodeError,
>)
    ensures
        !spec_is_success(status) ==> (r matches Err(e) && (e matches OpencodeError::Http {
            status: s,
            body: b,
        } && s == status && b@ == body@)),
        spec_is_success(status) && !spec_messages_ok(body@) ==> r == Err::<
            Vec<OpenCodeMessage>,
            _,
        >(OpencodeError::Decode),
        spec_is_success(status) && spec_messages_ok(body@) ==> (r matches Ok(v) && v@.len()
            == json_array_len(body@)->0 && forall|i: int|
            0 <= i < v@.len() ==> ((#[trigger] json_elem(body@, i)) matches Some(e)
                && spec_message_matches(e, v@[i]))),
{
    if !is_success_status(status) {
        return Err(OpencodeError::Http { status, body: String::from_str(body) });
    }
    let n = match get_array_len(body) {
        Some(n) => n,
        None => {
            return Err(OpencodeError::Decode);
        },
    };
    let mut out: Vec<OpenCodeMessage> = Vec::new();
    let mut i: usize = 0;
    while i < n
        invariant
            i <= n,
            spec_is_success(status),
            json_array_len(body@) == Some(n),
            out@.len() == i,
            forall|k: int|
                0 <= k < i ==> ((#[trigger] json_elem(body@, k)) matches Some(e)
                    && spec_message_ok(e) && spec_message_matches(e, out@[k])),
        decreases n - i,
    {
        let elem = match get_elem(body, i) {
            Some(e) => e,
            None => {
                return Err(OpencodeError::Decode);
            },
        };
        let m = match decode_message(elem.as_str()) {
            Some(m) => m,
            None => {
                return Err(OpencodeError::Decode);
            },
        };
        out.push(m);
        i += 1;
    }
    Ok(out)
}

} // verus!
