use vstd::prelude::*;
use crate::json::{json_of, parse_json, extract_delta, spec_delta_of_json};
use crate::text::{
    spec_trim, seq_starts_with, trim_chars, chars_of, chars_subrange, chars_starts_with,
    chars_eq, string_from_chars,
};

verus! {

/// What one line of the response stream carries: nothing, the
/// end-of-stream sentinel, or one incremental text delta.
pub enum SseFrame {
    NoDelta,
    EndOfStream,
    Delta(String),
}

/// The `data:` field prefix of a server-sent-event line.
pub open spec fn data_prefix() -> Seq<char> {
    seq!['d', 'a', 't', 'a', ':']
}

/// The sentinel payload that ends a stream.
pub open spec fn done_token() -> Seq<char> {
    seq!['[', 'D', 'O', 'N', 'E', ']']
}

fn data_prefix_vec() -> (r: Vec<char>)
    ensures
        r@ == data_prefix(),
{
    let mut v: Vec<char> = Vec::new();
    v.push('d');
    v.push('a');
    v.push('t');
    v.push('a');
    v.push(':');
    proof {
        assert(v@ =~= data_prefix());
    }
    v
}

fn done_token_vec() -> (r: Vec<char>)
    ensures
        r@ == done_token(),
{
    let mut v: Vec<char> = Vec::new();
    v.push('[');
    v.push('D');
    v.push('O');
    v.push('N');
    v.push('E');
    v.push(']');
    proof {
        assert(v@ =~= done_token());
    }
    v
}

/// The payload of a data frame: defined when the trimmed line starts
/// with `data:`, and then equal to the trimmed remainder.
pub open spec fn spec_data_payload(line: Seq<char>) -> Option<Seq<char>> {
    let t = spec_trim(line);
    if seq_starts_with(t, data_prefix()) {
        Some(spec_trim(t.skip(5)))
    } else {
        None
    }
}

/// The line is a data frame whose payload is the end-of-stream sentinel.
pub open spec fn spec_line_ends_stream(line: Seq<char>) -> bool {
    match spec_data_payload(line) {
        Some(p) => p == done_token(),
        None => false,
    }
}

/// The delta one line carries: its payload parsed as JSON and read
/// through the `choices` envelope; `None` for non-data lines, for the
/// sentinel, for invalid JSON and for any tree without a delta.
pub open spec fn spec_line_delta(line: Seq<char>) -> Option<Seq<char>> {
    match spec_data_payload(line) {
        None => None,
        Some(p) => if p == done_token() {
            None
        } else {
            match json_of(p) {
                None => None,
                Some(j) => spec_delta_of_json(j),
            }
        },
    }
}

/// Decodes one line of the response stream.
pub fn decode_line_chars(line: &Vec<char>) -> (r: SseFrame)
    ensures
        (r is EndOfStream) == spec_line_ends_stream(line@),
        (r is Delta) == (spec_line_delta(line@) is Some),
        r matches SseFrame::Delta(d) ==> spec_line_delta(line@) == Some(d@),
{
    let t = trim_chars(line);
    let prefix = data_prefix_vec();
    if !chars_starts_with(&t, &prefix) {
        return SseFrame::NoDelta;
    }
    let rest = chars_subrange(&t, 5, t.len());
    proof {
        assert(rest@ =~= t@.skip(5));
    }
    let payload = trim_chars(&rest);
    let done = done_token_vec();
    if chars_eq(&payload, &done) {
        return SseFrame::EndOfStream;
    }
    let payload_str = string_from_chars(&payload);
    match parse_json(payload_str.as_str()) {
        None => SseFrame::NoDelta,
        Some(j) => match extract_delta(&j) {
            None => SseFrame::NoDelta,
            Some(d) => SseFrame::Delta(d),
        },
    }
}

/// Decodes one line of the response stream, given as a string.
pub fn decode_sse_line(line: &str) -> (r: SseFrame)
    ensures
        (r is EndOfStream) == spec_line_ends_stream(line@),
        (r is Delta) == (spec_line_delta(line@) is Some),
        r matches SseFrame::Delta(d) ==> spec_line_delta(line@) == Some(d@),
{
    let cs = chars_of(line);
    decode_line_chars(&cs)
}

/// Law: a line that is not a data frame — blank, a comment, or any
/// other field — carries no delta and does not end the stream.
pub proof fn lemma_non_data_line_ignored(line: Seq<char>)
    requires
        spec_data_payload(line) is None,
    ensures
        spec_line_delta(line) is None,
        !spec_line_ends_stream(line),
{
}

/// Law: a malformed or partial data frame — invalid JSON, or a tree
/// without the `choices` envelope — yields no delta and never ends the
/// stream, so a malformed frame cannot abort it.
pub proof fn lemma_malformed_frame_harmless(line: Seq<char>)
    requires
        spec_data_payload(line) matches Some(p) && p != done_token() && (json_of(p) is None
            || spec_delta_of_json(json_of(p)->Some_0) is None),
    ensures
        spec_line_delta(line) is None,
        !spec_line_ends_stream(line),
{
}

} // verus!
