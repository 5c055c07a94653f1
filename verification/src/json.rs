use vstd::prelude::*;
use vstd::string::*;

verus! {

/// The library's model of a parsed JSON document: exactly the shape the
/// stream decoder reads. Numbers carry no payload because the decoder
/// never reads one.
pub enum Json {
    Null,
    Bool(bool),
    Number,
    Text(String),
    Array(Vec<Json>),
    Object(Vec<(String, Json)>),
}

/// The JSON tree that parsing yields for a given input, `None` when the
/// input is not a valid JSON document. Names the result of
/// `serde_json::from_str` (converted into `Json`): it depends on the
/// input characters alone.
pub uninterp spec fn json_of(s: Seq<char>) -> Option<Json>;

#[verifier::external_type_specification]
#[verifier::external_body]
pub struct ExValue(serde_json::Value);

/// Conversion of `serde_json`'s tree into the library's `Json` model:
/// one arm per variant, moving fields; the number's payload is dropped
/// because no caller reads it.
#[verifier::external_body]
fn json_from_value(v: serde_json::Value) -> Json {
    match v {
        serde_json::Value::Null => Json::Null,
        serde_json::Value::Bool(b) => Json::Bool(b),
        serde_json::Value::Number(_) => Json::Number,
        serde_json::Value::String(s) => Json::Text(s),
        serde_json::Value::Array(a) => Json::Array(a.into_iter().map(json_from_value).collect()),
        serde_json::Value::Object(m) => {
            Json::Object(m.into_iter().map(|(k, x)| (k, json_from_value(x))).collect())
        },
    }
}

/// Relies on `serde_json::from_str`: parses `s` as one JSON document,
/// failing exactly on invalid JSON. `json_of` names the converted tree.
#[verifier::external_body]
pub fn parse_json(s: &str) -> (r: Option<Json>)
    ensures
        r == json_of(s@),
{
    match serde_json::from_str::<serde_json::Value>(s) {
        Ok(v) => Some(json_from_value(v)),
        Err(_) => None,
    }
}

/// The value under the first entry of `entries` whose key is `key`.
pub open spec fn spec_lookup(entries: Seq<(String, Json)>, key: Seq<char>) -> Option<Json>
    decreases entries.len(),
{
    if entries.len() == 0 {
        None
    } else if entries[0].0@ == key {
        Some(entries[0].1)
    } else {
        spec_lookup(entries.drop_first(), key)
    }
}

/// Looks `key` up among `entries`, first match wins.
pub fn json_lookup<'a>(entries: &'a Vec<(String, Json)>, key: &String) -> (r: Option<
    &'a Json,
>)
    ensures
        match r {
            Some(j) => spec_lookup(entries@, key@) == Some(*j),
            None => spec_lookup(entries@, key@) is None,
        },
{
    proof {
        assert(entries@.subrange(0, entries@.len() as int) =~= entries@);
    }
    let mut i: usize = 0;
    while i < entries.len()
        invariant
            i <= entries@.len(),
            spec_lookup(entries@, key@) == spec_lookup(
                entries@.subrange(i as int, entries@.len() as int),
                key@,
            ),
        decreases entries@.len() - i,
    {
        proof {
            let sub = entries@.subrange(i as int, entries@.len() as int);
            assert(sub[0] == entries@[i as int]);
            assert(sub.drop_first() =~= entries@.subrange(
                i as int + 1,
                entries@.len() as int,
            ));
        }
        if entries[i].0 == *key {
            return Some(&entries[i].1);
        }
        i = i + 1;
    }
    proof {
        assert(entries@.subrange(i as int, entries@.len() as int).len() == 0);
    }
    None
}

/// The first element of the `choices` array, where `j` has that shape.
pub open spec fn spec_first_choice(j: Json) -> Option<Json> {
    match j {
        Json::Object(entries) => match spec_lookup(entries@, "choices"@) {
            Some(c) => match c {
                Json::Array(items) => if items@.len() > 0 {
                    Some(items@[0])
                } else {
                    None
                },
                _ => None,
            },
            None => None,
        },
        _ => None,
    }
}

/// The string under `delta.content` of one choice, if present.
pub open spec fn spec_delta_content(choice: Json) -> Option<Seq<char>> {
    match choice {
        Json::Object(entries) => match spec_lookup(entries@, "delta"@) {
            Some(d) => match d {
                Json::Object(inner) => match spec_lookup(inner@, "content"@) {
                    Some(c) => match c {
                        Json::Text(s) => Some(s@),
                        _ => None,
                    },
                    None => None,
                },
                _ => None,
            },
            None => None,
        },
        _ => None,
    }
}

/// The string under `text` of one choice, if present.
pub open spec fn spec_choice_text(choice: Json) -> Option<Seq<char>> {
    match choice {
        Json::Object(entries) => match spec_lookup(entries@, "text"@) {
            Some(c) => match c {
                Json::Text(s) => Some(s@),
                _ => None,
            },
            None => None,
        },
        _ => None,
    }
}

/// The text delta a parsed payload carries: the first element of its
/// `choices` array, read through `delta.content` first and through
/// `text` as the fallback; `None` whenever the shape does not match.
pub open spec fn spec_delta_of_json(j: Json) -> Option<Seq<char>> {
    match spec_first_choice(j) {
        None => None,
        Some(c) => match spec_delta_content(c) {
            Some(s) => Some(s),
            None => spec_choice_text(c),
        },
    }
}

fn choice_delta_content<'a>(choice: &'a Json) -> (r: Option<&'a String>)
    ensures
        match r {
            Some(s) => spec_delta_content(*choice) == Some(s@),
            None => spec_delta_content(*choice) is None,
        },
{
    let delta_key = String::from_str("delta");
    let content_key = String::from_str("content");
    match choice {
        Json::Object(entries) => match json_lookup(entries, &delta_key) {
            Some(d) => match d {
                Json::Object(inner) => match json_lookup(inner, &content_key) {
                    Some(c) => match c {
                        Json::Text(s) => Some(s),
                        _ => None,
                    },
                    None => None,
                },
                _ => None,
            },
            None => None,
        },
        _ => None,
    }
}

fn choice_text<'a>(choice: &'a Json) -> (r: Option<&'a String>)
    ensures
        match r {
            Some(s) => spec_choice_text(*choice) == Some(s@),
            None => spec_choice_text(*choice) is None,
        },
{
    let text_key = String::from_str("text");
    match choice {
        Json::Object(entries) => match json_lookup(entries, &text_key) {
            Some(c) => match c {
                Json::Text(s) => Some(s),
                _ => None,
            },
            None => None,
        },
        _ => None,
    }
}

/// Reads the text delta out of a parsed payload, whatever tree the
/// parser handed back: `delta.content` of the first choice, else its
/// `text` field, else nothing.
pub fn extract_delta(j: &Json) -> (r: Option<String>)
    ensures
        match r {
            Some(s) => spec_delta_of_json(*j) == Some(s@),
            None => spec_delta_of_json(*j) is None,
        },
{
    let choices_key = String::from_str("choices");
    let choice: &Json = match j {
        Json::Object(entries) => match json_lookup(entries, &choices_key) {
            Some(c) => match c {
                Json::Array(items) => if items.len() > 0 {
                    &items[0]
                } else {
                    return None;
                },
                _ => {
                    return None;
                },
            },
            None => {
                return None;
            },
        },
        _ => {
            return None;
        },
    };
    match choice_delta_content(choice) {
        Some(s) => Some(s.clone()),
        None => match choice_text(choice) {
            Some(s) => Some(s.clone()),
            None => None,
        },
    }
}

} // verus!
