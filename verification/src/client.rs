//! The session client: request preparation and response classification for
//! the sidecar's HTTP surface.
//!
//! Every operation first needs a server-info snapshot; without one it fails
//! with `NotRunning` before any network work.  The embedding application
//! performs the HTTP call and hands the status and body back to the
//! outcome functions here.
use vstd::prelude::*;
use vstd::string::StringExecFns;
use crate::encode::{encode_chat_request, spec_chat_body};
use crate::jsonq::{
    get_array_len, get_bool_doc, get_elem, get_number_field, get_raw_field, get_str_field,
    get_u64_field, json_array_len, json_bool_doc, json_elem, json_number_field, json_raw_field,
    json_str_field, json_u64_field,
};
use crate::scan::str_eq;
use crate::types::{
    ChatRequest, OpenCodeServerInfo, OpenCodeSession, OpencodeError, RevertInfo, ShareInfo,
    TimeInfo, UserMessagePart,
};

verus! {

/// Did the sidecar answer with a success status?
pub open spec fn spec_is_success(status: u16) -> bool {
    200 <= status && status < 300
}

/// Is this a success status?
pub fn is_success_status(status: u16) -> (r: bool)
    ensures
        r == spec_is_success(status),
{
    200 <= status && status < 300
}

/// The base URL of the snapshot, or `NotRunning` when there is none.
/// This is the guard every client operation passes first; no network call
/// is prepared without it.
pub fn snapshot_base_url(info: &Option<OpenCodeServerInfo>) -> (r: Result<String, OpencodeError>)
    ensures
        match info {
            None => r == Err::<String, _>(OpencodeError::NotRunning),
            Some(i) => r matches Ok(b) && b@ == i.base_url@,
        },
{
    match info {
        None => Err(OpencodeError::NotRunning),
        Some(i) => Ok(i.base_url.clone()),
    }
}

/// The session collection endpoint: `<base>/session`.
pub fn session_collection_url(base: &str) -> (r: String)
    ensures
        r@ == base@ + "/session"@,
{
    let mut s = String::from_str(base);
    s.append("/session");
    s
}

/// The message endpoint of one session: `<base>/session/<id>/message`.
pub fn session_messages_url(base: &str, session_id: &str) -> (r: String)
    ensures
        r@ == base@ + "/session/"@ + session_id@ + "/message"@,
{
    let mut s = String::from_str(base);
    s.append("/session/");
    s.append(session_id);
    s.append("/message");
    s
}

/// The abort endpoint of one session: `<base>/session/<id>/abort`.
pub fn session_abort_url(base: &str, session_id: &str) -> (r: String)
    ensures
        r@ == base@ + "/session/"@ + session_id@ + "/abort"@,
{
    let mut s = String::from_str(base);
    s.append("/session/");
    s.append(session_id);
    s.append("/abort");
    s
}

/// The event stream endpoint: `<base>/event`.
pub fn event_stream_url(base: &str) -> (r: String)
    ensures
        r@ == base@ + "/event"@,
{
    let mut s = String::from_str(base);
    s.append("/event");
    s
}

/// The liveness probe endpoint: `<base>/app`.
pub fn probe_url(base: &str) -> (r: String)
    ensures
        r@ == base@ + "/app"@,
{
    let mut s = String::from_str(base);
    s.append("/app");
    s
}

/// Prepares a chat message send: fails with `NotRunning` when no server
/// info is present — before any network call — and otherwise yields the
/// message endpoint of the session together with the encoded request body.
pub fn prepare_send_chat_message(
    info: &Option<OpenCodeServerInfo>,
    session_id: &str,
    request: &ChatRequest,
) -> (r: Result<(String, Vec<u8>), OpencodeError>)
    ensures
        match info {
            None => r == Err::<(String, Vec<u8>), _>(OpencodeError::NotRunning),
            Some(i) => r matches Ok(p) && p.0@ == i.base_url@ + "/session/"@ + session_id@
                + "/message"@ && p.1@ == spec_chat_body(*request),
        },
{
    match info {
        None => Err(OpencodeError::NotRunning),
        Some(i) => {
            let url = session_messages_url(i.base_url.as_str(), session_id);
            let body = encode_chat_request(request);
            Ok((url, body))
        },
    }
}

/// The chat request an orchestrated chat sends: the given provider (or
/// the default) and one text part holding the prompt.
pub fn build_chat_request(provider_id: Option<String>, model_id: String, text: String) -> (r:
    ChatRequest)
    ensures
        r.provider_id@ == (match provider_id {
            Some(p) => p@,
            None => "anthropic"@,
        }),
        r.model_id == model_id,
        r.parts@ =~= seq![UserMessagePart::Text { text }],
{
    let provider = match provider_id {
        Some(p) => p,
        None => String::from_str("anthropic"),
    };
    let mut parts: Vec<UserMessagePart> = Vec::new();
    parts.push(UserMessagePart::Text { text });
    ChatRequest { provider_id: provider, model_id, parts }
}

/// An optional string field, read strictly.  `Some(None)` means the
/// field is absent or null; `Some(Some(s))` means it is the string `s`;
/// `None` means it is present with some other shape, which fails the
/// enclosing decode.
pub open spec fn spec_opt_str_field(doc: Seq<char>, key: Seq<char>) -> Option<Option<Seq<char>>> {
    match json_raw_field(doc, key) {
        None => Some(None),
        Some(raw) => if raw == "null"@ {
            Some(None)
        } else {
            match json_str_field(doc, key) {
                Some(s) => Some(Some(s)),
                None => None,
            }
        },
    }
}

/// Reads an optional string field strictly.
pub fn opt_str_field(doc: &str, key: &str) -> (r: Option<Option<String>>)
    ensures
        r.deep_view() == spec_opt_str_field(doc@, key@),
{
    match get_raw_field(doc, key) {
        None => Some(None),
        Some(raw) => if str_eq(raw.as_str(), "null") {
            Some(None)
        } else {
            match get_str_field(doc, key) {
                Some(s) => Some(Some(s)),
                None => None,
            }
        },
    }
}

/// An optional unsigned integer field, read strictly, as
/// `spec_opt_str_field` reads strings.
pub open spec fn spec_opt_u64_field(doc: Seq<char>, key: Seq<char>) -> Option<Option<u64>> {
    match json_raw_field(doc, key) {
        None => Some(None),
        Some(raw) => if raw == "null"@ {
            Some(None)
        } else {
            match json_u64_field(doc, key) {
                Some(v) => Some(Some(v)),
                None => None,
            }
        },
    }
}

/// Reads an optional unsigned integer field strictly.
pub fn opt_u64_field(doc: &str, key: &str) -> (r: Option<Option<u64>>)
    ensures
        r.deep_view() == spec_opt_u64_field(doc@, key@),
{
    match get_raw_field(doc, key) {
        None => Some(None),
        Some(raw) => if str_eq(raw.as_str(), "null") {
            Some(None)
        } else {
            match get_u64_field(doc, key) {
                Some(v) => Some(Some(v)),
                None => None,
            }
        },
    }
}

/// An optional number field, read strictly: the number's JSON text, or
/// invalid when the field is present and no number.
pub open spec fn spec_opt_num_field(doc: Seq<char>, key: Seq<char>) -> Option<Option<Seq<char>>> {
    match json_raw_field(doc, key) {
        None => Some(None),
        Some(raw) => if raw == "null"@ {
            Some(None)
        } else {
            match json_number_field(doc, key) {
                Some(n) => Some(Some(n)),
                None => None,
            }
        },
    }
}

/// Reads an optional number field strictly, as its JSON text.
pub fn opt_num_field(doc: &str, key: &str) -> (r: Option<Option<String>>)
    ensures
        r.deep_view() == spec_opt_num_field(doc@, key@),
{
    match get_raw_field(doc, key) {
        None => Some(None),
        Some(raw) => if str_eq(raw.as_str(), "null") {
            Some(None)
        } else {
            match get_number_field(doc, key) {
                Some(n) => Some(Some(n)),
                None => None,
            }
        },
    }
}

/// An optional field of any shape, as its JSON text: absent and null both
/// read as absent.  Never invalid.
pub open spec fn spec_opt_raw_field(doc: Seq<char>, key: Seq<char>) -> Option<Seq<char>> {
    match json_raw_field(doc, key) {
        None => None,
        Some(raw) => if raw == "null"@ {
            None
        } else {
            Some(raw)
        },
    }
}

/// Reads an optional field of any shape as its JSON text.
pub fn opt_raw_field(doc: &str, key: &str) -> (r: Option<String>)
    ensures
        r.deep_view() == spec_opt_raw_field(doc@, key@),
{
    match get_raw_field(doc, key) {
        None => None,
        Some(raw) => if str_eq(raw.as_str(), "null") {
            None
        } else {
            Some(raw)
        },
    }
}

/// Does this JSON text decode as a session: string `id`, `title` and
/// `version`, a `time` object with `created` and `updated`, and each
/// optional field either absent or well-formed?
pub open spec fn spec_session_ok(doc: Seq<char>) -> bool {
    &&& json_str_field(doc, "id"@) is Some
    &&& json_str_field(doc, "title"@) is Some
    &&& json_str_field(doc, "version"@) is Some
    &&& spec_session_time(doc) is Some
    &&& spec_opt_str_field(doc, "parentID"@) is Some
    &&& spec_session_share(doc) is Some
    &&& spec_session_revert(doc) is Some
}

/// The session's timestamps, when its `time` object carries both.
pub open spec fn spec_session_time(doc: Seq<char>) -> Option<(u64, u64)> {
    match json_raw_field(doc, "time"@) {
        None => None,
        Some(t) => match (json_u64_field(t, "created"@), json_u64_field(t, "updated"@)) {
            (Some(c), Some(u)) => Some((c, u)),
            _ => None,
        },
    }
}

/// The session's share link, read strictly: `Some(None)` when `share` is
/// absent or null, `Some(Some(url))` when it carries a string `url`, and
/// invalid otherwise.
pub open spec fn spec_session_share(doc: Seq<char>) -> Option<Option<Seq<char>>> {
    match json_raw_field(doc, "share"@) {
        None => Some(None),
        Some(sh) => if sh == "null"@ {
            Some(None)
        } else {
            match json_str_field(sh, "url"@) {
                Some(u) => Some(Some(u)),
                None => None,
            }
        },
    }
}

/// The session's revert marker, read strictly: absent or null reads as
/// absent; present, it must carry a string `messageID`, a `part` index
/// fitting `u32`, and an optional string `snapshot`, else it is invalid.
pub open spec fn spec_session_revert(doc: Seq<char>) -> Option<
    Option<(Seq<char>, u32, Option<Seq<char>>)>,
> {
    match json_raw_field(doc, "revert"@) {
        None => Some(None),
        Some(rd) => if rd == "null"@ {
            Some(None)
        } else {
            match (json_str_field(rd, "messageID"@), json_u64_field(rd, "part"@)) {
                (Some(mid), Some(p)) => if p <= u32::MAX {
                    match spec_opt_str_field(rd, "snapshot"@) {
                        Some(sn) => Some(Some((mid, p as u32, sn))),
                        None => None,
                    }
                } else {
                    None
                },
                _ => None,
            }
        },
    }
}

/// Does `s` hold exactly what the JSON text `doc` describes?
pub open spec fn spec_session_matches(doc: Seq<char>, s: OpenCodeSession) -> bool {
    &&& json_str_field(doc, "id"@) == Some(s.id@)
    &&& spec_opt_str_field(doc, "parentID"@) == Some(s.parent_id.deep_view())
    &&& json_str_field(doc, "title"@) == Some(s.title@)
    &&& json_str_field(doc, "version"@) == Some(s.version@)
    &&& spec_session_time(doc) == Some((s.time.created, s.time.updated))
    &&& spec_session_share(doc) == Some(
        match s.share {
            Some(sh) => Some(sh.url@),
            None => None::<Seq<char>>,
        },
    )
    &&& spec_session_revert(doc) == Some(
        match s.revert {
            Some(rv) => Some((rv.message_id@, rv.part, rv.snapshot.deep_view())),
            None => None::<(Seq<char>, u32, Option<Seq<char>>)>,
        },
    )
}

/// Decodes one session from JSON text.  The required fields must be
/// there; an optional field may be absent (or null), but when present it
/// must be well-formed, else the whole session fails to decode.
pub fn decode_session(doc: &str) -> (r: Option<OpenCodeSession>)
    ensures
        r is Some <==> spec_session_ok(doc@),
        r matches Some(s) ==> spec_session_matches(doc@, s),
{
    let id = match get_str_field(doc, "id") {
        Some(x) => x,
        None => {
            return None;
        },
    };
    let title = match get_str_field(doc, "title") {
        Some(x) => x,
        None => {
            return None;
        },
    };
    let version = match get_str_field(doc, "version") {
        Some(x) => x,
        None => {
            return None;
        },
    };
    let time = match get_raw_field(doc, "time") {
        Some(t) => {
            match (get_u64_field(t.as_str(), "created"), get_u64_field(t.as_str(), "updated")) {
                (Some(c), Some(u)) => TimeInfo { created: c, updated: u },
                _ => {
                    return None;
                },
            }
        },
        None => {
            return None;
        },
    };
    let parent_id = match opt_str_field(doc, "parentID") {
        Some(p) => p,
        None => {
            return None;
        },
    };
    let share = match get_raw_field(doc, "share") {
        None => None,
        Some(sh) => if str_eq(sh.as_str(), "null") {
            None
        } else {
            match get_str_field(sh.as_str(), "url") {
                Some(u) => Some(ShareInfo { url: u }),
                None => {
                    return None;
                },
            }
        },
    };
    let revert = match get_raw_field(doc, "revert") {
        None => None,
        Some(rd) => if str_eq(rd.as_str(), "null") {
            None
        } else {
            let mid = match get_str_field(rd.as_str(), "messageID") {
                Some(m) => m,
                None => {
                    return None;
                },
            };
            let p = match get_u64_field(rd.as_str(), "part") {
                Some(p) => p,
                None => {
                    return None;
                },
            };
            if p > 0xffff_ffff {
                return None;
            }
            let snapshot = match opt_str_field(rd.as_str(), "snapshot") {
                Some(sn) => sn,
                None => {
                    return None;
                },
            };
            Some(RevertInfo { message_id: mid, part: p as u32, snapshot })
        },
    };
    Some(OpenCodeSession { id, parent_id, share, title, version, time, revert })
}

/// The outcome of a create-session call: a non-success status is an
/// `Http` error carrying status and body; a success body must decode as a
/// session, else `Decode`.
pub fn create_session_outcome(status: u16, body: &str) -> (r: Result<
    OpenCodeSession,
    OpencodeError,
>)
    ensures
        !spec_is_success(status) ==> (r matches Err(e) && (e matches OpencodeError::Http {
            status: s,
            body: b,
        } && s == status && b@ == body@)),
        spec_is_success(status) && spec_session_ok(body@) ==> (r matches Ok(s)
            && spec_session_matches(body@, s)),
        spec_is_success(status) && !spec_session_ok(body@) ==> r == Err::<OpenCodeSession, _>(
            OpencodeError::Decode,
        ),
{
    if !is_success_status(status) {
        return Err(OpencodeError::Http { status, body: String::from_str(body) });
    }
    match decode_session(body) {
        Some(s) => Ok(s),
        None => Err(OpencodeError::Decode),
    }
}

/// Does this JSON text carry an array of decodable sessions?
pub open spec fn spec_sessions_ok(doc: Seq<char>) -> bool {
    &&& json_array_len(doc) is Some
    &&& forall|i: int|
        0 <= i < json_array_len(doc)->0 ==> ((#[trigger] json_elem(doc, i)) matches Some(e)
            && spec_session_ok(e))
}

/// The outcome of a list-sessions call: a non-success status is an `Http`
/// error; a success body must be an array of sessions, decoded in order,
/// else `Decode`.
pub fn list_sessions_outcome(status: u16, body: &str) -> (r: Result<
    Vec<OpenCodeSession>,
    OpencodeError,
>)
    ensures
        !spec_is_success(status) ==> (r matches Err(e) && (e matches OpencodeError::Http {
            status: s,
            body: b,
        } && s == status && b@ == body@)),
        spec_is_success(status) && !spec_sessions_ok(body@) ==> r == Err::<
            Vec<OpenCodeSession>,
            _,
        >(OpencodeError::Decode),
        spec_is_success(status) && spec_sessions_ok(body@) ==> (r matches Ok(v) && v@.len()
            == json_array_len(body@)->0 && forall|i: int|
            0 <= i < v@.len() ==> ((#[trigger] json_elem(body@, i)) matches Some(e)
                && spec_session_matches(e, v@[i]))),
{
    if !is_success_status(status) {
        return Err(OpencodeError::Http { status, body: String::from_str(body) });
    }
    let n = match get_array_len(body) {
        Some(n) => n,
        None => {
            return Err(OpencodeError::Decode);
        },
    };
    let mut out: Vec<OpenCodeSession> = Vec::new();
    let mut i: usize = 0;
    while i < n
        invariant
            i <= n,
            spec_is_success(status),
            json_array_len(body@) == Some(n),
            out@.len() == i,
            forall|k: int|
                0 <= k < i ==> ((#[trigger] json_elem(body@, k)) matches Some(e)
                    && spec_session_ok(e) && spec_session_matches(e, out@[k])),
        decreases n - i,
    {
        let elem = match get_elem(body, i) {
            Some(e) => e,
            None => {
                return Err(OpencodeError::Decode);
            },
        };
        let s = match decode_session(elem.as_str()) {
            Some(s) => s,
            None => {
                return Err(OpencodeError::Decode);
            },
        };
        out.push(s);
        i += 1;
    }
    Ok(out)
}

/// The outcome of an abort call: a non-success status is an `Http` error;
/// a success body must be a JSON boolean — the sidecar's success flag —
/// else `Decode`.
pub fn abort_session_outcome(status: u16, body: &str) -> (r: Result<bool, OpencodeError>)
    ensures
        !spec_is_success(status) ==> (r matches Err(e) && (e matches OpencodeError::Http {
            status: s,
            body: b,
        } && s == status && b@ == body@)),
        spec_is_success(status) ==> r == (match json_bool_doc(body@) {
            Some(b) => Ok::<bool, OpencodeError>(b),
            None => Err(OpencodeError::Decode),
        }),
{
    if !is_success_status(status) {
        return Err(OpencodeError::Http { status, body: String::from_str(body) });
    }
    match get_bool_doc(body) {
        Some(b) => Ok(b),
        None => Err(OpencodeError::Decode),
    }
}

/// Admits an event stream connection: a non-success initial status
/// fails with `StreamConnect` before any background work starts.
pub fn check_stream_status(status: u16) -> (r: Result<(), OpencodeError>)
    ensures
        spec_is_success(status) ==> r == Ok::<(), OpencodeError>(()),
        !spec_is_success(status) ==> r == Err::<(), _>(OpencodeError::StreamConnect { status }),
{
    if is_success_status(status) {
        Ok(())
    } else {
        Err(OpencodeError::StreamConnect { status })
    }
}

} // verus!
