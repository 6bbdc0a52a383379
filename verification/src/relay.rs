//! The event-stream relay: reassembling blank-line-separated records from
//! arbitrarily chunked stream text, extracting `data: ` payloads, and
//! deriving the publications each payload causes.
use vstd::prelude::*;
use vstd::string::StringExecFns;
use crate::scan::{
    find_token, first_occurrence, lemma_first_occurrence_append, lemma_first_occurrence_sound,
    matches_at, str_eq, str_matches_at,
};
use crate::jsonq::{get_raw_field, get_str_field, json_raw_field, json_str_field};
use crate::client::{decode_session, opt_str_field, spec_opt_str_field, spec_session_ok};
use crate::message::{decode_message, decode_part, spec_message_ok, spec_part_ok};

verus! {

/// The complete records in `s` — each prefix up to a `"\n\n"` separator,
/// separator removed — and the remaining text after the last separator.
pub open spec fn spec_split_records(s: Seq<char>) -> (Seq<Seq<char>>, Seq<char>)
    decreases s.len(),
    via spec_split_records_decreases
{
    match first_occurrence(s, "\n\n"@) {
        None => (Seq::empty(), s),
        Some(i) => {
            let rest = spec_split_records(s.skip(i + 2));
            (seq![s.take(i)] + rest.0, rest.1)
        },
    }
}

#[via_fn]
proof fn spec_split_records_decreases(s: Seq<char>) {
    reveal_strlit("\n\n");
    lemma_first_occurrence_sound(s, "\n\n"@, 0);
}

/// Frame reassembly law: chunk boundaries do not matter.  Processing `a`
/// and then processing `b` behind the leftover of `a` yields the same
/// records, in the same order, and the same final leftover, as processing
/// `a + b` at once.
pub proof fn lemma_feed_split(a: Seq<char>, b: Seq<char>)
    ensures
        ({
            let first = spec_split_records(a);
            let second = spec_split_records(first.1 + b);
            let whole = spec_split_records(a + b);
            whole.0 == first.0 + second.0 && whole.1 == second.1
        }),
    decreases a.len(),
{
    reveal_strlit("\n\n");
    let sep = "\n\n"@;
    lemma_first_occurrence_sound(a, sep, 0);
    match first_occurrence(a, sep) {
        None => {
            let first = spec_split_records(a);
            let second = spec_split_records(first.1 + b);
            assert(first.0 =~= Seq::<Seq<char>>::empty());
            assert(first.1 == a);
            assert(spec_split_records(a + b).0 =~= first.0 + second.0);
        },
        Some(i) => {
            lemma_first_occurrence_append(a, sep, b, 0);
            assert(first_occurrence(a + b, sep) == Some(i));
            assert((a + b).skip(i + 2) =~= a.skip(i + 2) + b);
            assert((a + b).take(i) =~= a.take(i));
            lemma_feed_split(a.skip(i + 2), b);
            let first = spec_split_records(a);
            let firstw = spec_split_records(a + b);
            let firsts = spec_split_records(a.skip(i + 2));
            assert(first.1 == firsts.1);
            assert(firstw.0 =~= seq![a.take(i)] + spec_split_records(a.skip(i + 2) + b).0);
            let second = spec_split_records(first.1 + b);
            assert(spec_split_records(a.skip(i + 2) + b).0 =~= firsts.0 + second.0);
            assert(firstw.0 =~= (seq![a.take(i)] + firsts.0) + second.0);
            assert(firstw.0 =~= first.0 + second.0);
        },
    }
}

/// The relay's reassembly buffer: text received but not yet closed off by
/// a blank-line separator.
pub struct EventRelayBuffer {
    pub buf: String,
}

impl EventRelayBuffer {
    /// A fresh, empty buffer.
    pub fn new() -> (r: Self)
        ensures
            r.buf@ == Seq::<char>::empty(),
    {
        EventRelayBuffer { buf: String::new() }
    }

    /// Appends one received chunk and hands back every record it
    /// completes, in order; the leftover stays buffered.
    pub fn feed_text(&mut self, chunk: &str) -> (records: Vec<String>)
        ensures
            ({
                let split = spec_split_records(old(self).buf@ + chunk@);
                final (self).buf@ == split.1 && records.deep_view() == split.0
            }),
    {
        proof {
            reveal_strlit("\n\n");
        }
        let ghost total = self.buf@ + chunk@;
        self.buf.append(chunk);
        let mut records: Vec<String> = Vec::new();
        loop
            invariant
                total == old(self).buf@ + chunk@,
                spec_split_records(total).0 =~= records.deep_view() + spec_split_records(
                    self.buf@,
                ).0,
                spec_split_records(total).1 == spec_split_records(self.buf@).1,
            decreases self.buf@.len(),
        {
            let n = self.buf.as_str().unicode_len();
            let found = find_token(self.buf.as_str(), "\n\n");
            match found {
                None => {
                    proof {
                        assert(spec_split_records(self.buf@).0 =~= Seq::<Seq<char>>::empty());
                        assert(spec_split_records(self.buf@).1 == self.buf@);
                        assert(records.deep_view() + Seq::<Seq<char>>::empty()
                            =~= records.deep_view());
                        assert(records.deep_view() =~= spec_split_records(total).0);
                    }
                    return records;
                },
                Some(i) => {
                    proof {
                        reveal_strlit("\n\n");
                        lemma_first_occurrence_sound(self.buf@, "\n\n"@, 0);
                        assert(matches_at(self.buf@, "\n\n"@, i as int));
                        assert("\n\n"@.len() == 2);
                        assert(i + 2 <= n);
                    }
                    let rec = String::from_str(self.buf.as_str().substring_char(0, i));
                    let rest = String::from_str(self.buf.as_str().substring_char(i + 2, n));
                    proof {
                        assert(rec@ =~= self.buf@.take(i as int));
                        assert(rest@ =~= self.buf@.skip(i + 2));
                    }
                    let ghost prev = self.buf@;
                    records.push(rec);
                    self.buf = rest;
                    proof {
                        assert(records.deep_view().last() == prev.take(i as int));
                        assert(records.deep_view().drop_last() + seq![prev.take(i as int)]
                            =~= records.deep_view());
                        assert(spec_split_records(prev).0 =~= seq![prev.take(i as int)]
                            + spec_split_records(self.buf@).0);
                    }
                },
            }
        }
    }
}

/// The lines of `s`, split at each `'\n'`; a trailing newline adds no
/// empty line, matching how line iteration treats it.
pub open spec fn spec_split_lines(s: Seq<char>) -> Seq<Seq<char>>
    decreases s.len(),
    via spec_split_lines_decreases
{
    if s.len() == 0 {
        Seq::empty()
    } else {
        match first_occurrence(s, "\n"@) {
            None => seq![s],
            Some(i) => seq![s.take(i)] + spec_split_lines(s.skip(i + 1)),
        }
    }
}

#[via_fn]
proof fn spec_split_lines_decreases(s: Seq<char>) {
    reveal_strlit("\n");
    lemma_first_occurrence_sound(s, "\n"@, 0);
}

/// Splits a record into its lines.
pub fn split_lines(record: &str) -> (lines: Vec<String>)
    ensures
        lines.deep_view() == spec_split_lines(record@),
{
    let ghost orig = record@;
    let mut cur = String::from_str(record);
    let mut lines: Vec<String> = Vec::new();
    loop
        invariant
            orig == record@,
            spec_split_lines(orig) =~= lines.deep_view() + spec_split_lines(cur@),
        decreases cur@.len(),
    {
        let n = cur.as_str().unicode_len();
        if n == 0 {
            proof {
                assert(spec_split_lines(cur@) =~= Seq::<Seq<char>>::empty());
                assert(lines.deep_view() + Seq::<Seq<char>>::empty() =~= lines.deep_view());
                assert(lines.deep_view() =~= spec_split_lines(orig));
            }
            return lines;
        }
        let found = find_token(cur.as_str(), "\n");
        match found {
            None => {
                let ghost prev = cur@;
                lines.push(cur);
                proof {
                    assert(spec_split_lines(prev) =~= seq![prev]);
                    assert(lines.deep_view().drop_last() + seq![prev] =~= lines.deep_view());
                    assert(lines.deep_view() =~= spec_split_lines(orig));
                }
                return lines;
            },
            Some(i) => {
                proof {
                    reveal_strlit("\n");
                    lemma_first_occurrence_sound(cur@, "\n"@, 0);
                    assert(matches_at(cur@, "\n"@, i as int));
                    assert(i + 1 <= n);
                }
                let line = String::from_str(cur.as_str().substring_char(0, i));
                let rest = String::from_str(cur.as_str().substring_char(i + 1, n));
                proof {
                    assert(line@ =~= cur@.take(i as int));
                    assert(rest@ =~= cur@.skip(i + 1));
                }
                let ghost prev = cur@;
                lines.push(line);
                cur = rest;
                proof {
                    assert(lines.deep_view().drop_last() + seq![prev.take(i as int)]
                        =~= lines.deep_view());
                    assert(spec_split_lines(prev) =~= seq![prev.take(i as int)]
                        + spec_split_lines(cur@));
                }
            },
        }
    }
}

/// A line with one trailing carriage return removed.
pub open spec fn strip_cr(l: Seq<char>) -> Seq<char> {
    if l.len() > 0 && l[l.len() - 1] == '\r' {
        l.take(l.len() - 1)
    } else {
        l
    }
}

/// The payload a line carries: what follows a `"data: "` prefix, after
/// stripping one trailing carriage return.
pub open spec fn spec_data_payload(line: Seq<char>) -> Option<Seq<char>> {
    let l = strip_cr(line);
    if l.len() >= 6 && l.take(6) == "data: "@ {
        Some(l.skip(6))
    } else {
        None
    }
}

/// Extracts the `data: ` payload of one line, if it carries one.
pub fn data_payload(line: &str) -> (r: Option<String>)
    ensures
        r.deep_view() == spec_data_payload(line@),
{
    proof {
        reveal_strlit("data: ");
        reveal_strlit("\r");
    }
    let n = line.unicode_len();
    let end = if n > 0 && line.get_char(n - 1) == '\r' {
        n - 1
    } else {
        n
    };
    proof {
        assert(line@.take(end as int) =~= strip_cr(line@));
    }
    if end < 6 {
        return None;
    }
    if str_matches_at(line, "data: ", 0, 6) {
        proof {
            assert(line@.subrange(0, 6) =~= strip_cr(line@).take(6));
        }
        let payload = String::from_str(line.substring_char(6, end));
        proof {
            assert(payload@ =~= strip_cr(line@).skip(6));
        }
        Some(payload)
    } else {
        proof {
            assert(line@.subrange(0, 6) =~= strip_cr(line@).take(6));
        }
        None
    }
}

/// Is `c` whitespace?  The Unicode White_Space set, which is what string
/// trimming goes by.
pub open spec fn is_ws(c: char) -> bool {
    ||| c == '\u{0009}'
    ||| c == '\u{000A}'
    ||| c == '\u{000B}'
    ||| c == '\u{000C}'
    ||| c == '\u{000D}'
    ||| c == ' '
    ||| c == '\u{0085}'
    ||| c == '\u{00A0}'
    ||| c == '\u{1680}'
    ||| ('\u{2000}' <= c && c <= '\u{200A}')
    ||| c == '\u{2028}'
    ||| c == '\u{2029}'
    ||| c == '\u{202F}'
    ||| c == '\u{205F}'
    ||| c == '\u{3000}'
}

/// Is `c` whitespace?
fn is_ws_exec(c: char) -> (r: bool)
    ensures
        r == is_ws(c),
{
    c == '\u{0009}' || c == '\u{000A}' || c == '\u{000B}' || c == '\u{000C}' || c == '\u{000D}'
        || c == ' ' || c == '\u{0085}' || c == '\u{00A0}' || c == '\u{1680}' || ('\u{2000}' <= c
        && c <= '\u{200A}') || c == '\u{2028}' || c == '\u{2029}' || c == '\u{202F}' || c
        == '\u{205F}' || c == '\u{3000}'
}

/// A heartbeat payload says nothing: only whitespace, or the empty JSON
/// object `{}`.  Such payloads are ignored.
pub open spec fn spec_heartbeat(p: Seq<char>) -> bool {
    (forall|i: int| 0 <= i < p.len() ==> is_ws(p[i])) || p == "{}"@
}

/// Is this payload a heartbeat?
pub fn is_heartbeat(p: &str) -> (r: bool)
    ensures
        r == spec_heartbeat(p@),
{
    if str_eq(p, "{}") {
        return true;
    }
    let n = p.unicode_len();
    let mut i: usize = 0;
    while i < n
        invariant
            i <= n,
            n == p@.len(),
            p@ != "{}"@,
            forall|k: int| 0 <= k < i ==> is_ws(p@[k]),
        decreases n - i,
    {
        if !is_ws_exec(p.get_char(i)) {
            return false;
        }
        i += 1;
    }
    true
}

/// The kinds of event the sidecar reports, with a catch-all for kinds not
/// modelled here.
#[derive(Clone, Copy, Debug, PartialEq)]
pub enum EventKind {
    MessageUpdated,
    MessagePartUpdated,
    MessageRemoved,
    SessionUpdated,
    SessionDeleted,
    SessionIdle,
    SessionError,
    Other,
}

/// The kind a `type` tag names.
pub open spec fn spec_kind_of(tag: Seq<char>) -> EventKind {
    if tag == "message.updated"@ {
        EventKind::MessageUpdated
    } else if tag == "message.part.updated"@ {
        EventKind::MessagePartUpdated
    } else if tag == "message.removed"@ {
        EventKind::MessageRemoved
    } else if tag == "session.updated"@ {
        EventKind::SessionUpdated
    } else if tag == "session.deleted"@ {
        EventKind::SessionDeleted
    } else if tag == "session.idle"@ {
        EventKind::SessionIdle
    } else if tag == "session.error"@ {
        EventKind::SessionError
    } else {
        EventKind::Other
    }
}

/// Maps a `type` tag to its kind.
pub fn kind_of(tag: &str) -> (k: EventKind)
    ensures
        k == spec_kind_of(tag@),
{
    if str_eq(tag, "message.updated") {
        EventKind::MessageUpdated
    } else if str_eq(tag, "message.part.updated") {
        EventKind::MessagePartUpdated
    } else if str_eq(tag, "message.removed") {
        EventKind::MessageRemoved
    } else if str_eq(tag, "session.updated") {
        EventKind::SessionUpdated
    } else if str_eq(tag, "session.deleted") {
        EventKind::SessionDeleted
    } else if str_eq(tag, "session.idle") {
        EventKind::SessionIdle
    } else if str_eq(tag, "session.error") {
        EventKind::SessionError
    } else {
        EventKind::Other
    }
}

/// A payload's classification: its kind, and the session it belongs to
/// where its kind carries one.
pub struct DecodedEvent {
    pub kind: EventKind,
    pub session_id: Option<String>,
}

impl View for DecodedEvent {
    type V = (EventKind, Option<Seq<char>>);

    open spec fn view(&self) -> (EventKind, Option<Seq<char>>) {
        (self.kind, self.session_id.deep_view())
    }
}

/// How a payload classifies: it must carry a string `type` tag, and the
/// whole event of that kind must decode — a message update needs a full
/// message under `info`, a part update a decodable `part` with both ids,
/// a removal both ids, a session update or deletion a full session under
/// `info`, an idle its session id, and an error its `error` field with an
/// optional session id.  A payload of an unknown tag is a decoded
/// catch-all event; `None` means the payload does not decode and is
/// forwarded raw.
pub open spec fn spec_classify(p: Seq<char>) -> Option<(EventKind, Option<Seq<char>>)> {
    match json_str_field(p, "type"@) {
        None => None,
        Some(tag) => {
            let kind = spec_kind_of(tag);
            match kind {
                EventKind::SessionIdle => match json_str_field(p, "sessionID"@) {
                    None => None,
                    Some(sid) => Some((kind, Some(sid))),
                },
                EventKind::MessagePartUpdated => if (json_raw_field(p, "part"@) matches Some(pd)
                    && spec_part_ok(pd)) && json_str_field(p, "messageID"@) is Some {
                    match json_str_field(p, "sessionID"@) {
                        None => None,
                        Some(sid) => Some((kind, Some(sid))),
                    }
                } else {
                    None
                },
                EventKind::MessageUpdated => match json_raw_field(p, "info"@) {
                    None => None,
                    Some(info) => if spec_message_ok(info) {
                        match json_str_field(info, "sessionID"@) {
                            None => None,
                            Some(sid) => Some((kind, Some(sid))),
                        }
                    } else {
                        None
                    },
                },
                EventKind::MessageRemoved => if json_str_field(p, "sessionID"@) is Some
                    && json_str_field(p, "messageID"@) is Some {
                    Some((kind, None))
                } else {
                    None
                },
                EventKind::SessionUpdated => match json_raw_field(p, "info"@) {
                    None => None,
                    Some(info) => if spec_session_ok(info) {
                        Some((kind, None))
                    } else {
                        None
                    },
                },
                EventKind::SessionDeleted => match json_raw_field(p, "info"@) {
                    None => None,
                    Some(info) => if spec_session_ok(info) {
                        Some((kind, None))
                    } else {
                        None
                    },
                },
                EventKind::SessionError => if json_raw_field(p, "error"@) is Some {
                    match spec_opt_str_field(p, "sessionID"@) {
                        Some(sid) => Some((kind, sid)),
                        None => None,
                    }
                } else {
                    None
                },
                EventKind::Other => Some((kind, None)),
            }
        },
    }
}

/// Classifies one payload.
pub fn classify_payload(p: &str) -> (r: Option<DecodedEvent>)
    ensures
        match r {
            Some(ev) => spec_classify(p@) == Some(ev@),
            None => spec_classify(p@) is None,
        },
{
    match get_str_field(p, "type") {
        None => None,
        Some(tag) => {
            let kind = kind_of(tag.as_str());
            match kind {
                EventKind::SessionIdle => match get_str_field(p, "sessionID") {
                    None => None,
                    Some(sid) => Some(DecodedEvent { kind, session_id: Some(sid) }),
                },
                EventKind::MessagePartUpdated => {
                    let pd = match get_raw_field(p, "part") {
                        Some(x) => x,
                        None => {
                            return None;
                        },
                    };
                    if decode_part(pd.as_str()).is_none() {
                        return None;
                    }
                    if get_str_field(p, "messageID").is_none() {
                        return None;
                    }
                    match get_str_field(p, "sessionID") {
                        None => None,
                        Some(sid) => Some(DecodedEvent { kind, session_id: Some(sid) }),
                    }
                },
                EventKind::MessageUpdated => match get_raw_field(p, "info") {
                    None => None,
                    Some(info) => match decode_message(info.as_str()) {
                        None => None,
                        Some(m) => Some(DecodedEvent { kind, session_id: Some(m.session_id) }),
                    },
                },
                EventKind::MessageRemoved => {
                    if get_str_field(p, "sessionID").is_none() {
                        return None;
                    }
                    if get_str_field(p, "messageID").is_none() {
                        return None;
                    }
                    Some(DecodedEvent { kind, session_id: None })
                },
                EventKind::SessionUpdated => match get_raw_field(p, "info") {
                    None => None,
                    Some(info) => if decode_session(info.as_str()).is_none() {
                        None
                    } else {
                        Some(DecodedEvent { kind, session_id: None })
                    },
                },
                EventKind::SessionDeleted => match get_raw_field(p, "info") {
                    None => None,
                    Some(info) => if decode_session(info.as_str()).is_none() {
                        None
                    } else {
                        Some(DecodedEvent { kind, session_id: None })
                    },
                },
                EventKind::SessionError => {
                    if get_raw_field(p, "error").is_none() {
                        return None;
                    }
                    match opt_str_field(p, "sessionID") {
                        Some(sid) => Some(DecodedEvent { kind, session_id: sid }),
                        None => None,
                    }
                },
                EventKind::Other => Some(DecodedEvent { kind, session_id: None }),
            }
        },
    }
}

/// The global topic each kind publishes on; unmodelled kinds and message
/// removals go to the generic fallback topic.
pub open spec fn spec_global_topic(kind: EventKind) -> Seq<char> {
    match kind {
        EventKind::MessageUpdated => "message-updated"@,
        EventKind::MessagePartUpdated => "message-part-updated"@,
        EventKind::SessionUpdated => "session-updated"@,
        EventKind::SessionDeleted => "session-deleted"@,
        EventKind::SessionIdle => "session-idle"@,
        EventKind::SessionError => "session-error"@,
        EventKind::MessageRemoved => "event"@,
        EventKind::Other => "event"@,
    }
}

/// The global topic of a kind.
pub fn global_topic(kind: EventKind) -> (t: String)
    ensures
        t@ == spec_global_topic(kind),
{
    match kind {
        EventKind::MessageUpdated => String::from_str("message-updated"),
        EventKind::MessagePartUpdated => String::from_str("message-part-updated"),
        EventKind::SessionUpdated => String::from_str("session-updated"),
        EventKind::SessionDeleted => String::from_str("session-deleted"),
        EventKind::SessionIdle => String::from_str("session-idle"),
        EventKind::SessionError => String::from_str("session-error"),
        EventKind::MessageRemoved => String::from_str("event"),
        EventKind::Other => String::from_str("event"),
    }
}

/// Does this kind also publish on a session-scoped topic when a session id
/// is present?
pub open spec fn spec_session_scoped(kind: EventKind) -> bool {
    match kind {
        EventKind::MessageUpdated => true,
        EventKind::MessagePartUpdated => true,
        EventKind::SessionIdle => true,
        EventKind::SessionError => true,
        _ => false,
    }
}

/// Is this kind routed by session?
pub fn session_scoped(kind: EventKind) -> (r: bool)
    ensures
        r == spec_session_scoped(kind),
{
    match kind {
        EventKind::MessageUpdated => true,
        EventKind::MessagePartUpdated => true,
        EventKind::SessionIdle => true,
        EventKind::SessionError => true,
        _ => false,
    }
}

/// One outbound notification: a topic and the payload text published on
/// it.
#[derive(Clone, Debug, PartialEq)]
pub struct Publication {
    pub topic: String,
    pub payload: String,
}

impl View for Publication {
    type V = (Seq<char>, Seq<char>);

    open spec fn view(&self) -> (Seq<char>, Seq<char>) {
        (self.topic@, self.payload@)
    }
}

impl DeepView for Publication {
    type V = (Seq<char>, Seq<char>);

    open spec fn deep_view(&self) -> (Seq<char>, Seq<char>) {
        self.view()
    }
}

/// The publications one payload causes: none for a heartbeat; a raw-event
/// forward for a payload that does not classify; otherwise the global
/// topic of its kind, plus the session-scoped topic `<topic>:<session>`
/// for session-routed kinds with a session id.
pub open spec fn spec_publications(p: Seq<char>) -> Seq<(Seq<char>, Seq<char>)> {
    if spec_heartbeat(p) {
        Seq::empty()
    } else {
        match spec_classify(p) {
            None => seq![("raw-event"@, p)],
            Some(ev) => match ev.1 {
                Some(sid) => if spec_session_scoped(ev.0) {
                    seq![
                        (spec_global_topic(ev.0), p),
                        (spec_global_topic(ev.0) + ":"@ + sid, p),
                    ]
                } else {
                    seq![(spec_global_topic(ev.0), p)]
                },
                None => seq![(spec_global_topic(ev.0), p)],
            },
        }
    }
}

/// Malformed payload tolerance law: a payload that is no heartbeat and
/// does not classify causes exactly one publication — the payload itself,
/// unchanged, on the raw-event topic — and nothing else.
pub proof fn lemma_undecodable_forwarded(p: Seq<char>)
    requires
        !spec_heartbeat(p),
        spec_classify(p) is None,
    ensures
        spec_publications(p) == seq![("raw-event"@, p)],
{
}

/// The publications one payload causes.
pub fn publications_for_payload(p: &str) -> (pubs: Vec<Publication>)
    ensures
        pubs.deep_view() == spec_publications(p@),
{
    let mut pubs: Vec<Publication> = Vec::new();
    if is_heartbeat(p) {
        proof {
            assert(pubs.deep_view() =~= spec_publications(p@));
        }
        return pubs;
    }
    match classify_payload(p) {
        None => {
            pubs.push(
                Publication { topic: String::from_str("raw-event"), payload: String::from_str(p) },
            );
            proof {
                assert(pubs.deep_view() =~= spec_publications(p@));
            }
            pubs
        },
        Some(ev) => {
            pubs.push(Publication { topic: global_topic(ev.kind), payload: String::from_str(p) });
            if session_scoped(ev.kind) {
                match &ev.session_id {
                    Some(sid) => {
                        let mut t = global_topic(ev.kind);
                        t.append(":");
                        t.append(sid.as_str());
                        pubs.push(Publication { topic: t, payload: String::from_str(p) });
                    },
                    None => {},
                }
            }
            proof {
                assert(pubs.deep_view() =~= spec_publications(p@));
            }
            pubs
        },
    }
}

/// The publications a whole record causes: those of each of its
/// `data: `-payload lines, in order.
pub open spec fn spec_lines_publications(lines: Seq<Seq<char>>) -> Seq<(Seq<char>, Seq<char>)>
    decreases lines.len(),
{
    if lines.len() == 0 {
        Seq::empty()
    } else {
        (match spec_data_payload(lines[0]) {
            Some(p) => spec_publications(p),
            None => Seq::empty(),
        }) + spec_lines_publications(lines.drop_first())
    }
}

/// The publications one record causes.
pub open spec fn spec_record_publications(record: Seq<char>) -> Seq<(Seq<char>, Seq<char>)> {
    spec_lines_publications(spec_split_lines(record))
}

/// Handles one complete record: the publications of each of its payload
/// lines, in order.
pub fn handle_record(record: &str) -> (pubs: Vec<Publication>)
    ensures
        pubs.deep_view() == spec_record_publications(record@),
{
    let lines = split_lines(record);
    let mut pubs: Vec<Publication> = Vec::new();
    let mut i: usize = 0;
    let n = lines.len();
    proof {
        assert(lines.deep_view().skip(0) =~= lines.deep_view());
        assert(pubs.deep_view() + spec_lines_publications(lines.deep_view())
            =~= spec_lines_publications(lines.deep_view()));
    }
    while i < n
        invariant
            i <= n,
            n == lines@.len(),
            lines.deep_view() == spec_split_lines(record@),
            pubs.deep_view() + spec_lines_publications(lines.deep_view().skip(i as int))
                =~= spec_record_publications(record@),
        decreases n - i,
    {
        let ghost before = pubs.deep_view();
        match data_payload(lines[i].as_str()) {
            Some(p) => {
                let mut line_pubs = publications_for_payload(p.as_str());
                pubs.append(&mut line_pubs);
            },
            None => {},
        }
        proof {
            let tail = lines.deep_view().skip(i as int);
            assert(tail[0] == lines.deep_view()[i as int]);
            assert(tail.drop_first() =~= lines.deep_view().skip(i + 1));
            assert(spec_lines_publications(tail) == (match spec_data_payload(tail[0]) {
                Some(p) => spec_publications(p),
                None => Seq::<(Seq<char>, Seq<char>)>::empty(),
            }) + spec_lines_publications(lines.deep_view().skip(i + 1)));
            assert(pubs.deep_view() + spec_lines_publications(lines.deep_view().skip(i + 1))
                =~= spec_record_publications(record@));
        }
        i += 1;
    }
    proof {
        assert(lines.deep_view().skip(n as int) =~= Seq::<Seq<char>>::empty());
        assert(pubs.deep_view() =~= spec_record_publications(record@));
    }
    pubs
}

/// The publications a run of records causes, in order.
pub open spec fn spec_records_publications(records: Seq<Seq<char>>) -> Seq<(Seq<char>, Seq<char>)>
    decreases records.len(),
{
    if records.len() == 0 {
        Seq::empty()
    } else {
        spec_record_publications(records[0]) + spec_records_publications(records.drop_first())
    }
}

proof fn lemma_records_publications_concat(x: Seq<Seq<char>>, y: Seq<Seq<char>>)
    ensures
        spec_records_publications(x + y) == spec_records_publications(x)
            + spec_records_publications(y),
    decreases x.len(),
{
    if x.len() == 0 {
        assert(x + y =~= y);
        assert(Seq::<(Seq<char>, Seq<char>)>::empty() + spec_records_publications(y)
            =~= spec_records_publications(y));
    } else {
        assert((x + y).drop_first() =~= x.drop_first() + y);
        lemma_records_publications_concat(x.drop_first(), y);
        assert(spec_record_publications(x[0]) + (spec_records_publications(x.drop_first())
            + spec_records_publications(y)) =~= (spec_record_publications(x[0])
            + spec_records_publications(x.drop_first())) + spec_records_publications(y));
    }
}

/// Dispatch reassembly law: the published stream does not depend on how
/// the network chunked the text.  The publications of processing `a` and
/// then `b` are, in order, exactly those of processing `a + b` at once.
pub proof fn lemma_publications_split(a: Seq<char>, b: Seq<char>)
    ensures
        ({
            let first = spec_split_records(a);
            let second = spec_split_records(first.1 + b);
            let whole = spec_split_records(a + b);
            spec_records_publications(first.0) + spec_records_publications(second.0)
                == spec_records_publications(whole.0)
        }),
{
    lemma_feed_split(a, b);
    let first = spec_split_records(a);
    let second = spec_split_records(first.1 + b);
    lemma_records_publications_concat(first.0, second.0);
}

impl EventRelayBuffer {
    /// Feeds one received chunk through the relay: reassembles the records
    /// it completes and hands back every publication they cause, in order.
    /// A record that does not decode is forwarded raw, never stopping the
    /// relay.
    pub fn feed(&mut self, chunk: &str) -> (pubs: Vec<Publication>)
        ensures
            ({
                let split = spec_split_records(old(self).buf@ + chunk@);
                final (self).buf@ == split.1 && pubs.deep_view() == spec_records_publications(
                    split.0,
                )
            }),
    {
        let records = self.feed_text(chunk);
        let ghost recs = records.deep_view();
        let mut pubs: Vec<Publication> = Vec::new();
        let mut i: usize = 0;
        let n = records.len();
        proof {
            assert(recs.skip(0) =~= recs);
            assert(pubs.deep_view() + spec_records_publications(recs)
                =~= spec_records_publications(recs));
        }
        while i < n
            invariant
                i <= n,
                n == records@.len(),
                recs == records.deep_view(),
                pubs.deep_view() + spec_records_publications(recs.skip(i as int))
                    =~= spec_records_publications(recs),
            decreases n - i,
        {
            let mut record_pubs = handle_record(records[i].as_str());
            pubs.append(&mut record_pubs);
            proof {
                let tail = recs.skip(i as int);
                assert(tail[0] == recs[i as int]);
                assert(tail.drop_first() =~= recs.skip(i + 1));
                assert(spec_records_publications(tail) == spec_record_publications(tail[0])
                    + spec_records_publications(recs.skip(i + 1)));
                assert(pubs.deep_view() + spec_records_publications(recs.skip(i + 1))
                    =~= spec_records_publications(recs));
            }
            i += 1;
        }
        proof {
            assert(recs.skip(n as int) =~= Seq::<Seq<char>>::empty());
            assert(pubs.deep_view() =~= spec_records_publications(recs));
        }
        pubs
    }
}

} // verus!
