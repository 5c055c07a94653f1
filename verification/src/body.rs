use vstd::prelude::*;
use vstd::string::*;
use crate::text::{chars_of, string_from_chars};

verus! {

pub open spec fn spec_hex_digit(n: int) -> char {
    if n == 0 { '0' }
    else if n == 1 { '1' }
    else if n == 2 { '2' }
    else if n == 3 { '3' }
    else if n == 4 { '4' }
    else if n == 5 { '5' }
    else if n == 6 { '6' }
    else if n == 7 { '7' }
    else if n == 8 { '8' }
    else if n == 9 { '9' }
    else if n == 10 { 'a' }
    else if n == 11 { 'b' }
    else if n == 12 { 'c' }
    else if n == 13 { 'd' }
    else if n == 14 { 'e' }
    else { 'f' }
}

fn hex_digit_char(n: u32) -> (c: char)
    requires
        n < 16,
    ensures
        c == spec_hex_digit(n as int),
{
    if n == 0 { '0' }
    else if n == 1 { '1' }
    else if n == 2 { '2' }
    else if n == 3 { '3' }
    else if n == 4 { '4' }
    else if n == 5 { '5' }
    else if n == 6 { '6' }
    else if n == 7 { '7' }
    else if n == 8 { '8' }
    else if n == 9 { '9' }
    else if n == 10 { 'a' }
    else if n == 11 { 'b' }
    else if n == 12 { 'c' }
    else if n == 13 { 'd' }
    else if n == 14 { 'e' }
    else { 'f' }
}

/// How one character is written inside a JSON string literal: quotes,
/// backslashes and the common blank controls get a short escape, the
/// remaining control characters a `\u00..` escape, everything else
/// stands as itself.
pub open spec fn spec_escape_char(c: char) -> Seq<char> {
    if c == '"' {
        seq!['\\', '"']
    } else if c == '\\' {
        seq!['\\', '\\']
    } else if c == '\n' {
        seq!['\\', 'n']
    } else if c == '\r' {
        seq!['\\', 'r']
    } else if c == '\t' {
        seq!['\\', 't']
    } else if (c as u32) < 32 {
        seq!['\\', 'u', '0', '0', spec_hex_digit((c as u32) as int / 16), spec_hex_digit(
            (c as u32) as int % 16,
        )]
    } else {
        seq![c]
    }
}

/// The body of a JSON string literal holding exactly the text `s`.
pub open spec fn spec_json_escape(s: Seq<char>) -> Seq<char>
    decreases s.len(),
{
    if s.len() == 0 {
        Seq::empty()
    } else {
        spec_escape_char(s[0]) + spec_json_escape(s.drop_first())
    }
}

proof fn lemma_escape_snoc(s: Seq<char>, c: char)
    ensures
        spec_json_escape(s.push(c)) == spec_json_escape(s) + spec_escape_char(c),
    decreases s.len(),
{
    if s.len() == 0 {
        let t = s.push(c);
        assert(t[0] == c);
        assert(t.drop_first() =~= Seq::<char>::empty());
        assert(spec_json_escape(t.drop_first()) == Seq::<char>::empty());
        assert(spec_json_escape(t) == spec_escape_char(c) + Seq::<char>::empty());
        assert(spec_escape_char(c) + Seq::<char>::empty() =~= spec_escape_char(c));
        assert(spec_json_escape(s) + spec_escape_char(c) =~= spec_escape_char(c));
    } else {
        assert(s.push(c)[0] == s[0]);
        assert(s.push(c).drop_first() =~= s.drop_first().push(c));
        lemma_escape_snoc(s.drop_first(), c);
        assert(spec_escape_char(s[0]) + (spec_json_escape(s.drop_first()) + spec_escape_char(c))
            =~= (spec_escape_char(s[0]) + spec_json_escape(s.drop_first())) + spec_escape_char(c));
    }
}

fn push_escaped_char(out: &mut Vec<char>, c: char)
    ensures
        final(out)@ == old(out)@ + spec_escape_char(c),
{
    if c == '"' {
        out.push('\\');
        out.push('"');
    } else if c == '\\' {
        out.push('\\');
        out.push('\\');
    } else if c == '\n' {
        out.push('\\');
        out.push('n');
    } else if c == '\r' {
        out.push('\\');
        out.push('r');
    } else if c == '\t' {
        out.push('\\');
        out.push('t');
    } else if (c as u32) < 32 {
        let n = c as u32;
        out.push('\\');
        out.push('u');
        out.push('0');
        out.push('0');
        out.push(hex_digit_char(n / 16));
        out.push(hex_digit_char(n % 16));
    } else {
        out.push(c);
    }
    proof {
        assert(out@ =~= old(out)@ + spec_escape_char(c));
    }
}

/// Escapes `s` for inclusion in a JSON string literal.
pub fn escape_json_chars(s: &Vec<char>) -> (r: Vec<char>)
    ensures
        r@ == spec_json_escape(s@),
{
    let mut out: Vec<char> = Vec::new();
    proof {
        assert(s@.subrange(0, 0) =~= Seq::<char>::empty());
    }
    let mut i: usize = 0;
    while i < s.len()
        invariant
            i <= s@.len(),
            out@ == spec_json_escape(s@.subrange(0, i as int)),
        decreases s@.len() - i,
    {
        push_escaped_char(&mut out, s[i]);
        proof {
            assert(s@.subrange(0, i + 1 as int) =~= s@.subrange(0, i as int).push(s@[i as int]));
            lemma_escape_snoc(s@.subrange(0, i as int), s@[i as int]);
        }
        i = i + 1;
    }
    proof {
        assert(s@.subrange(0, s@.len() as int) =~= s@);
    }
    out
}

/// The wire body of a streaming chat-completion request: the model, the
/// stream flag, a fixed temperature, one fixed system instruction that
/// constrains the reply to a single ready-to-send message, and the user
/// prompt as the sole user message.
pub open spec fn spec_chat_body(model: Seq<char>, prompt: Seq<char>, stream: bool) -> Seq<char> {
    "{\"model\":\""@ + spec_json_escape(model) + "\",\"stream\":"@ + (if stream {
        "true"@
    } else {
        "false"@
    }) + ",\"temperature\":0.3,\"messages\":[{\"role\":\"system\",\"content\":\"Reply with one concise, ready-to-send message.\"},{\"role\":\"user\",\"content\":\""@
        + spec_json_escape(prompt) + "\"}]}"@
}

/// Builds the body of a streaming chat-completion request.
pub fn chat_request_body(model: &str, prompt: &str, stream: bool) -> (r: String)
    ensures
        r@ == spec_chat_body(model@, prompt@, stream),
{
    let mut s = String::from_str("{\"model\":\"");
    let mcs = chars_of(model);
    let em = escape_json_chars(&mcs);
    let ems = string_from_chars(&em);
    s.append(ems.as_str());
    s.append("\",\"stream\":");
    if stream {
        s.append("true");
    } else {
        s.append("false");
    }
    s.append(
        ",\"temperature\":0.3,\"messages\":[{\"role\":\"system\",\"content\":\"Reply with one concise, ready-to-send message.\"},{\"role\":\"user\",\"content\":\"",
    );
    let pcs = chars_of(prompt);
    let ep = escape_json_chars(&pcs);
    let eps = string_from_chars(&ep);
    s.append(eps.as_str());
    s.append("\"}]}");
    s
}

/// The wire body of the synchronous connection test: a tiny non-stream
/// single-turn request against the same endpoint.
pub open spec fn spec_test_body(model: Seq<char>) -> Seq<char> {
    "{\"model\":\""@ + spec_json_escape(model)
        + "\",\"stream\":false,\"temperature\":0.0,\"max_tokens\":8,\"messages\":[{\"role\":\"system\",\"content\":\"You are a concise assistant.\"},{\"role\":\"user\",\"content\":\"hi\"}]}"@
}

/// Builds the body of the synchronous connection test.
pub fn test_request_body(model: &str) -> (r: String)
    ensures
        r@ == spec_test_body(model@),
{
    let mut s = String::from_str("{\"model\":\"");
    let mcs = chars_of(model);
    let em = escape_json_chars(&mcs);
    let ems = string_from_chars(&em);
    s.append(ems.as_str());
    s.append(
        "\",\"stream\":false,\"temperature\":0.0,\"max_tokens\":8,\"messages\":[{\"role\":\"system\",\"content\":\"You are a concise assistant.\"},{\"role\":\"user\",\"content\":\"hi\"}]}",
    );
    s
}

} // verus!
