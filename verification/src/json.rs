//! The upstream reply as a JSON document.
//!
//! The relay reads one path out of the reply, `choices[0].message.content`.
//! So that this read can be verified, a decoded document is held as plain
//! values in [`JsonValue`].  The decoding itself is serde_json's and stands
//! behind trusted items; every step after it — looking up keys, indexing the
//! array, falling back when the path is missing — is verified here.

use vstd::prelude::*;

verus! {

/// A decoded JSON document, as plain values the relay's logic can read.  An
/// object is the sequence of its fields in decoded order; a number's value
/// is never read by the relay, so `Number` carries none.
pub enum JsonValue {
    Null,
    Bool(bool),
    Number,
    Text(String),
    Array(Vec<JsonValue>),
    Object(Vec<(String, JsonValue)>),
}

/// The first field with the given key, if any.
pub open spec fn spec_lookup(fields: Seq<(String, JsonValue)>, key: Seq<char>) -> Option<JsonValue>
    decreases fields.len(),
{
    if fields.len() == 0 {
        Option::None
    } else if fields.first().0@ == key {
        Option::Some(fields.first().1)
    } else {
        spec_lookup(fields.drop_first(), key)
    }
}

/// The string at `choices[0].message.content`, if the document has that
/// shape; `None` on any mismatch along the path.
pub open spec fn spec_content(doc: JsonValue) -> Option<Seq<char>> {
    match doc {
        JsonValue::Object(fields) => match spec_lookup(fields@, "choices"@) {
            Option::Some(JsonValue::Array(items)) => if items@.len() > 0 {
                spec_message_content(items@[0])
            } else {
                Option::None
            },
            _ => Option::None,
        },
        _ => Option::None,
    }
}

/// The string at `message.content` of one array item.
pub open spec fn spec_message_content(item: JsonValue) -> Option<Seq<char>> {
    match item {
        JsonValue::Object(fields) => match spec_lookup(fields@, "message"@) {
            Option::Some(JsonValue::Object(inner)) => match spec_lookup(inner@, "content"@) {
                Option::Some(JsonValue::Text(s)) => Option::Some(s@),
                _ => Option::None,
            },
            _ => Option::None,
        },
        _ => Option::None,
    }
}

/// The first field with the given key, if any.
fn lookup_field<'a>(fields: &'a Vec<(String, JsonValue)>, key: &String) -> (r: Option<
    &'a JsonValue,
>)
    ensures
        (match r {
            Option::Some(v) => spec_lookup(fields@, key@) == Option::Some(*v),
            Option::None => spec_lookup(fields@, key@) is None,
        }),
{
    let n = fields.len();
    let mut i: usize = 0;
    proof {
        assert(fields@.skip(0) =~= fields@);
    }
    while i < n
        invariant
            i <= n,
            n == fields@.len(),
            spec_lookup(fields@, key@) == spec_lookup(fields@.skip(i as int), key@),
        decreases n - i,
    {
        proof {
            assert(fields@.skip(i as int).first() == fields@[i as int]);
        }
        if fields[i].0 == *key {
            return Option::Some(&fields[i].1);
        }
        proof {
            assert(fields@.skip(i as int).drop_first() =~= fields@.skip(i + 1 as int));
        }
        i += 1;
    }
    proof {
        assert(fields@.skip(n as int).len() == 0);
    }
    Option::None
}

/// The string the upstream placed at `choices[0].message.content`, if any.
pub fn content_of<'a>(doc: &'a JsonValue) -> (r: Option<&'a String>)
    ensures
        (match r {
            Option::Some(s) => spec_content(*doc) == Option::Some(s@),
            Option::None => spec_content(*doc) is None,
        }),
{
    match doc {
        JsonValue::Object(fields) => {
            let key = String::from_str("choices");
            match lookup_field(fields, &key) {
                Option::Some(v) => match v {
                    JsonValue::Array(items) => {
                        if items.len() > 0 {
                            message_content_of(&items[0])
                        } else {
                            Option::None
                        }
                    },
                    _ => Option::None,
                },
                Option::None => Option::None,
            }
        },
        _ => Option::None,
    }
}

/// The string at `message.content` of one array item, if any.
fn message_content_of<'a>(item: &'a JsonValue) -> (r: Option<&'a String>)
    ensures
        (match r {
            Option::Some(s) => spec_message_content(*item) == Option::Some(s@),
            Option::None => spec_message_content(*item) is None,
        }),
{
    match item {
        JsonValue::Object(fields) => {
            let key = String::from_str("message");
            match lookup_field(fields, &key) {
                Option::Some(m) => match m {
                    JsonValue::Object(inner) => {
                        let inner_key = String::from_str("content");
                        match lookup_field(inner, &inner_key) {
                            Option::Some(c) => match c {
                                JsonValue::Text(s) => Option::Some(s),
                                _ => Option::None,
                            },
                            Option::None => Option::None,
                        }
                    },
                    _ => Option::None,
                },
                Option::None => Option::None,
            }
        },
        _ => Option::None,
    }
}

/// The fallback the relay answers with when the reply lacks a content string.
pub open spec fn spec_fallback_reply() -> Seq<char> {
    "Error extracting response"@
}

/// The string the relay takes from a decoded reply: the content when the
/// document carries one, the fixed fallback otherwise.
pub open spec fn spec_reply_of(doc: JsonValue) -> Seq<char> {
    match spec_content(doc) {
        Option::Some(c) => c,
        Option::None => spec_fallback_reply(),
    }
}

/// The content of a decoded reply, or the fixed fallback.
pub fn extracted_reply(doc: &JsonValue) -> (r: String)
    ensures
        r@ == spec_reply_of(*doc),
{
    match content_of(doc) {
        Option::Some(s) => s.clone(),
        Option::None => String::from_str("Error extracting response"),
    }
}

#[verifier::external_type_specification]
#[verifier::external_body]
pub struct ExSerdeJsonValue(serde_json::Value);

/// What `serde_json::from_str::<serde_json::Value>` makes of a text, carried
/// into [`JsonValue`]: the decoded document, or the error's description.  The
/// result depends on the text alone.
pub uninterp spec fn spec_parse_document(s: Seq<char>) -> Result<JsonValue, Seq<char>>;

/// Relies on the variants of `serde_json::Value`: each is carried, field for
/// field, into the like-named [`JsonValue`] variant, keys in the decoded
/// (sorted) order of `serde_json::Map`; a number's value is dropped, since no
/// caller reads one.
#[verifier::external_body]
fn json_of_serde(v: serde_json::Value) -> JsonValue {
    match v {
        serde_json::Value::Null => JsonValue::Null,
        serde_json::Value::Bool(b) => JsonValue::Bool(b),
        serde_json::Value::Number(_) => JsonValue::Number,
        serde_json::Value::String(s) => JsonValue::Text(s),
        serde_json::Value::Array(a) => JsonValue::Array(
            a.into_iter().map(json_of_serde).collect(),
        ),
        serde_json::Value::Object(m) => JsonValue::Object(
            m.into_iter().map(|e| (e.0, json_of_serde(e.1))).collect(),
        ),
    }
}

/// Relies on `serde_json::from_str::<serde_json::Value>`: one and the same
/// text always decodes to one and the same document, or fails with one and
/// the same error description — which is what [`spec_parse_document`] names.
#[verifier::external_body]
pub(crate) fn parse_document(s: &str) -> (r: Result<JsonValue, String>)
    ensures
        (match r {
            Result::Ok(v) => spec_parse_document(s@) == Result::<JsonValue, Seq<char>>::Ok(v),
            Result::Err(e) => spec_parse_document(s@) == Result::<JsonValue, Seq<char>>::Err(e@),
        }),
{
    match serde_json::from_str::<serde_json::Value>(s) {
        Ok(v) => Ok(json_of_serde(v)),
        Err(e) => Err(e.to_string()),
    }
}

} // verus!
