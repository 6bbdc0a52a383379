//! Port discovery: extracting the sidecar's bound port from a line of its
//! log output.
//!
//! An ordered list of matchers is tried against the line; the first one that
//! yields a number fitting a port wins.  A matcher either looks for a token
//! immediately followed by digits (`":"`, `"port "`, `"localhost:"`,
//! `"127.0.0.1:"`) or for a token with digits anywhere after it
//! (`"listening"`).
use vstd::prelude::*;
use crate::scan::{
    anchor_at, digit_run_end, digits_val, find_anchor, find_digit_from, find_token,
    first_anchor_from, first_digit_from, first_occurrence, lemma_first_anchor_sound,
    lemma_first_digit_sound, lemma_first_occurrence_sound, parse_port_run,
};

verus! {

/// The port named by `tok` immediately followed by digits: the first such
/// occurrence, its digit run read as a number, accepted if it fits.
pub open spec fn token_port(s: Seq<char>, tok: Seq<char>) -> Option<u16> {
    match first_anchor_from(s, tok, 0) {
        None => None,
        Some(i) => {
            let start = i + tok.len() as int;
            let v = digits_val(s, start, digit_run_end(s, start));
            if v <= 65535 {
                Some(v as u16)
            } else {
                None
            }
        },
    }
}

/// The port named by `tok` with digits anywhere after it: the first
/// occurrence of `tok`, then the first digit run after it.
pub open spec fn gap_port(s: Seq<char>, tok: Seq<char>) -> Option<u16> {
    match first_occurrence(s, tok) {
        None => None,
        Some(i) => match first_digit_from(s, i + tok.len() as int) {
            None => None,
            Some(d) => {
                let v = digits_val(s, d, digit_run_end(s, d));
                if v <= 65535 {
                    Some(v as u16)
                } else {
                    None
                }
            },
        },
    }
}

/// The port a line of server output names, by the ordered matchers.
pub open spec fn spec_extract_port(s: Seq<char>) -> Option<u16> {
    if token_port(s, ":"@) is Some {
        token_port(s, ":"@)
    } else if token_port(s, "port "@) is Some {
        token_port(s, "port "@)
    } else if gap_port(s, "listening"@) is Some {
        gap_port(s, "listening"@)
    } else if token_port(s, "localhost:"@) is Some {
        token_port(s, "localhost:"@)
    } else {
        token_port(s, "127.0.0.1:"@)
    }
}

fn token_port_exec(s: &str, tok: &str) -> (r: Option<u16>)
    ensures
        r == token_port(s@, tok@),
{
    let n = s.unicode_len();
    let toklen = tok.unicode_len();
    match find_anchor(s, tok) {
        None => None,
        Some(i) => {
            proof {
                lemma_first_anchor_sound(s@, tok@, 0);
            }
            parse_port_run(s, i + toklen)
        },
    }
}

fn gap_port_exec(s: &str, tok: &str) -> (r: Option<u16>)
    ensures
        r == gap_port(s@, tok@),
{
    let n = s.unicode_len();
    let toklen = tok.unicode_len();
    match find_token(s, tok) {
        None => None,
        Some(i) => {
            proof {
                lemma_first_occurrence_sound(s@, tok@, 0);
            }
            match find_digit_from(s, i + toklen) {
                None => None,
                Some(d) => {
                    proof {
                        lemma_first_digit_sound(s@, i + toklen);
                    }
                    parse_port_run(s, d)
                },
            }
        },
    }
}

/// Extracts a port number from one line of the sidecar's output, if the
/// line names one.
pub fn extract_port_from_line(line: &str) -> (r: Option<u16>)
    ensures
        r == spec_extract_port(line@),
{
    let r = token_port_exec(line, ":");
    if r.is_some() {
        return r;
    }
    let r = token_port_exec(line, "port ");
    if r.is_some() {
        return r;
    }
    let r = gap_port_exec(line, "listening");
    if r.is_some() {
        return r;
    }
    let r = token_port_exec(line, "localhost:");
    if r.is_some() {
        return r;
    }
    token_port_exec(line, "127.0.0.1:")
}

} // verus!
