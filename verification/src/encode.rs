//! Rendering a chat request as the JSON body the sidecar expects:
//! `{"providerID":...,"modelID":...,"parts":[...]}` with each part tagged
//! `text` or `file`.  String values are escaped byte by byte.
use vstd::prelude::*;
use vstd::string::StringSliceAdditionalSpecFns;
use vstd::utf8::encode_utf8;
use crate::types::{ChatRequest, UserMessagePart};

verus! {

/// The hex digit (lower case) for a value below sixteen.
pub open spec fn hex_digit(d: u8) -> u8
    recommends
        d < 16,
{
    if d < 10 {
        (48 + d) as u8
    } else {
        (87 + d) as u8
    }
}

/// How one byte of a JSON string value is rendered: quote and backslash
/// escaped, control bytes as `\u00XX`, everything else as itself.
pub open spec fn escape_byte(b: u8) -> Seq<u8> {
    if b == 34 {
        seq![92u8, 34u8]
    } else if b == 92 {
        seq![92u8, 92u8]
    } else if b < 32 {
        seq![92u8, 117u8, 48u8, 48u8, hex_digit(b / 16), hex_digit(b % 16)]
    } else {
        seq![b]
    }
}

/// A whole byte string escaped for use inside a JSON string value.
pub open spec fn json_escape_bytes(s: Seq<u8>) -> Seq<u8>
    decreases s.len(),
{
    if s.len() == 0 {
        Seq::empty()
    } else {
        json_escape_bytes(s.drop_last()) + escape_byte(s.last())
    }
}

/// The JSON rendering of one outgoing message part.
pub open spec fn spec_part_json(p: UserMessagePart) -> Seq<u8> {
    match p {
        UserMessagePart::Text { text } => encode_utf8("{\"type\":\"text\",\"text\":\""@)
            + json_escape_bytes(encode_utf8(text@)) + encode_utf8("\"}"@),
        UserMessagePart::File { url, mime, filename } => encode_utf8("{\"type\":\"file\",\"url\":\""@)
            + json_escape_bytes(encode_utf8(url@)) + encode_utf8("\",\"mime\":\""@)
            + json_escape_bytes(encode_utf8(mime@)) + encode_utf8("\",\"filename\":\""@)
            + json_escape_bytes(encode_utf8(filename@)) + encode_utf8("\"}"@),
    }
}

/// The parts after the first, each preceded by a comma.
pub open spec fn spec_parts_tail(parts: Seq<UserMessagePart>) -> Seq<u8>
    decreases parts.len(),
{
    if parts.len() == 0 {
        Seq::empty()
    } else {
        encode_utf8(","@) + spec_part_json(parts[0]) + spec_parts_tail(parts.drop_first())
    }
}

/// The JSON rendering of the parts array's contents.
pub open spec fn spec_parts_json(parts: Seq<UserMessagePart>) -> Seq<u8> {
    if parts.len() == 0 {
        Seq::empty()
    } else {
        spec_part_json(parts[0]) + spec_parts_tail(parts.drop_first())
    }
}

/// The JSON body of a chat request.
pub open spec fn spec_chat_body(req: ChatRequest) -> Seq<u8> {
    encode_utf8("{\"providerID\":\""@) + json_escape_bytes(encode_utf8(req.provider_id@))
        + encode_utf8("\",\"modelID\":\""@) + json_escape_bytes(encode_utf8(req.model_id@))
        + encode_utf8("\",\"parts\":["@) + spec_parts_json(req.parts@) + encode_utf8("]}"@)
}

/// Appends the UTF-8 bytes of `s`.
fn push_str_bytes(out: &mut Vec<u8>, s: &str)
    ensures
        final (out)@ == old(out)@ + encode_utf8(s@),
{
    let mut bytes = s.as_bytes_vec();
    proof {
        assert(bytes@ == s.spec_bytes());
    }
    out.append(&mut bytes);
}

/// Appends `s` escaped for the inside of a JSON string value.
fn push_escaped(out: &mut Vec<u8>, s: &str)
    ensures
        final (out)@ == old(out)@ + json_escape_bytes(encode_utf8(s@)),
{
    let bytes = s.as_bytes_vec();
    let ghost all = bytes@;
    let n = bytes.len();
    let mut i: usize = 0;
    while i < n
        invariant
            i <= n,
            n == all.len(),
            all == bytes@,
            out@ == old(out)@ + json_escape_bytes(all.take(i as int)),
        decreases n - i,
    {
        let b = bytes[i];
        if b == 34 {
            out.push(92);
            out.push(34);
        } else if b == 92 {
            out.push(92);
            out.push(92);
        } else if b < 32 {
            out.push(92);
            out.push(117);
            out.push(48);
            out.push(48);
            let hi = b / 16;
            let lo = b % 16;
            out.push(if hi < 10 {
                48 + hi
            } else {
                87 + hi
            });
            out.push(if lo < 10 {
                48 + lo
            } else {
                87 + lo
            });
        } else {
            out.push(b);
        }
        proof {
            assert(all.take(i + 1).drop_last() =~= all.take(i as int));
            assert(all.take(i + 1).last() == all[i as int]);
            assert(json_escape_bytes(all.take(i + 1)) == json_escape_bytes(all.take(i as int))
                + escape_byte(all[i as int]));
            assert(out@ =~= old(out)@ + json_escape_bytes(all.take(i + 1)));
        }
        i += 1;
    }
    proof {
        assert(all.take(n as int) =~= all);
        assert(encode_utf8(s@) == all);
    }
}

/// Appends the JSON rendering of one part.
fn push_part(out: &mut Vec<u8>, part: &UserMessagePart)
    ensures
        final (out)@ == old(out)@ + spec_part_json(*part),
{
    match part {
        UserMessagePart::Text { text } => {
            push_str_bytes(out, "{\"type\":\"text\",\"text\":\"");
            push_escaped(out, text.as_str());
            push_str_bytes(out, "\"}");
        },
        UserMessagePart::File { url, mime, filename } => {
            push_str_bytes(out, "{\"type\":\"file\",\"url\":\"");
            push_escaped(out, url.as_str());
            push_str_bytes(out, "\",\"mime\":\"");
            push_escaped(out, mime.as_str());
            push_str_bytes(out, "\",\"filename\":\"");
            push_escaped(out, filename.as_str());
            push_str_bytes(out, "\"}");
        },
    }
}

/// Renders a chat request as the JSON body sent to the sidecar.
pub fn encode_chat_request(req: &ChatRequest) -> (out: Vec<u8>)
    ensures
        out@ == spec_chat_body(*req),
{
    let mut out: Vec<u8> = Vec::new();
    push_str_bytes(&mut out, "{\"providerID\":\"");
    push_escaped(&mut out, req.provider_id.as_str());
    push_str_bytes(&mut out, "\",\"modelID\":\"");
    push_escaped(&mut out, req.model_id.as_str());
    push_str_bytes(&mut out, "\",\"parts\":[");
    let ghost head = out@;
    let n = req.parts.len();
    if n > 0 {
        push_part(&mut out, &req.parts[0]);
        let mut i: usize = 1;
        while i < n
            invariant
                1 <= i <= n,
                n == req.parts@.len(),
                out@ + spec_parts_tail(req.parts@.skip(i as int)) == head + spec_parts_json(
                    req.parts@,
                ),
            decreases n - i,
        {
            push_str_bytes(&mut out, ",");
            push_part(&mut out, &req.parts[i]);
            proof {
                let tail = req.parts@.skip(i as int);
                assert(tail[0] == req.parts@[i as int]);
                assert(tail.drop_first() =~= req.parts@.skip(i + 1));
                assert(spec_parts_tail(tail) == encode_utf8(","@) + spec_part_json(
                    req.parts@[i as int],
                ) + spec_parts_tail(req.parts@.skip(i + 1)));
                assert(out@ + spec_parts_tail(req.parts@.skip(i + 1)) =~= head + spec_parts_json(
                    req.parts@,
                ));
            }
            i += 1;
        }
        proof {
            assert(req.parts@.skip(n as int) =~= Seq::<UserMessagePart>::empty());
            assert(out@ =~= head + spec_parts_json(req.parts@));
        }
    } else {
        proof {
            assert(out@ =~= head + spec_parts_json(req.parts@));
        }
    }
    push_str_bytes(&mut out, "]}");
    proof {
        assert(out@ =~= spec_chat_body(*req));
    }
    out
}

} // verus!
