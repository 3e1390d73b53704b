//! A plain model of a parsed JSON document and the lookups that the colour
//! extractor makes in it.
use vstd::prelude::*;
use crate::text::same_text;

verus! {

/// A JSON value. Object members keep the order the parser gave them.
#[derive(Debug)]
pub enum JsonValue {
    Null,
    Bool(bool),
    /// A number, in its decimal text form.
    Number(String),
    Str(String),
    Array(Vec<JsonValue>),
    Object(Vec<(String, JsonValue)>),
}

/// The document that `serde_json` parses from a text, or `None` where the
/// text is not JSON.
pub uninterp spec fn json_document(text: Seq<char>) -> Option<JsonValue>;

#[verifier::external_type_specification]
#[verifier::external_body]
pub struct ExJsonValue(serde_json::Value);

/// Relies on `serde_json::Value`'s variants: each is carried over to the
/// matching variant of `JsonValue`, member by member.
#[verifier::external_body]
fn from_serde(v: serde_json::Value) -> JsonValue {
    match v {
        serde_json::Value::Null => JsonValue::Null,
        serde_json::Value::Bool(b) => JsonValue::Bool(b),
        serde_json::Value::Number(n) => JsonValue::Number(n.to_string()),
        serde_json::Value::String(s) => JsonValue::Str(s),
        serde_json::Value::Array(a) => JsonValue::Array(a.into_iter().map(from_serde).collect()),
        serde_json::Value::Object(m) => JsonValue::Object(
            m.into_iter().map(|(k, x)| (k, from_serde(x))).collect(),
        ),
    }
}

/// Relies on `serde_json::from_str::<serde_json::Value>`: the parsed document,
/// or `None` where the text is not JSON.
#[verifier::external_body]
pub(crate) fn parse_json(text: &str) -> (r: Option<JsonValue>)
    ensures
        r == json_document(text@),
{
    serde_json::from_str::<serde_json::Value>(text).ok().map(from_serde)
}

/// The value of the first member named `key` among `entries`.
pub open spec fn entry_lookup(entries: Seq<(String, JsonValue)>, key: Seq<char>) -> Option<
    JsonValue,
>
    decreases entries.len(),
{
    if entries.len() == 0 {
        None
    } else if entries[0].0@ == key {
        Some(entries[0].1)
    } else {
        entry_lookup(entries.drop_first(), key)
    }
}

/// The member `key` of `v`; `None` where `v` is not an object or has no such member.
pub open spec fn member(v: JsonValue, key: Seq<char>) -> Option<JsonValue> {
    match v {
        JsonValue::Object(es) => entry_lookup(es@, key),
        _ => None,
    }
}

/// The colour that a value carries: a string itself, or the string under its
/// `hex` member. An empty string carries no colour.
pub open spec fn color_in(v: JsonValue) -> Option<Seq<char>> {
    match v {
        JsonValue::Str(s) => if s@.len() > 0 {
            Some(s@)
        } else {
            None
        },
        _ => match member(v, "hex"@) {
            Some(JsonValue::Str(h)) => if h@.len() > 0 {
                Some(h@)
            } else {
                None
            },
            _ => None,
        },
    }
}

/// The colour of the first key among `keys` under which `v` carries one, or
/// `default` where none does.
pub open spec fn pick_color(v: JsonValue, keys: Seq<&str>, default: Seq<char>) -> Seq<char>
    decreases keys.len(),
{
    if keys.len() == 0 {
        default
    } else {
        match member(v, keys[0]@) {
            Some(x) => match color_in(x) {
                Some(c) => c,
                None => pick_color(v, keys.drop_first(), default),
            },
            None => pick_color(v, keys.drop_first(), default),
        }
    }
}

impl JsonValue {
    /// The member `key` of this value, if it is an object that has one.
    pub fn get(&self, key: &str) -> (r: Option<&JsonValue>)
        ensures
            match r {
                Some(x) => member(*self, key@) == Some(*x),
                None => member(*self, key@) is None,
            },
    {
        match self {
            JsonValue::Object(es) => {
                let mut i: usize = 0;
                assert(es@.skip(0) =~= es@);
                while i < es.len()
                    invariant
                        0 <= i <= es@.len(),
                        member(*self, key@) == entry_lookup(es@, key@),
                        entry_lookup(es@, key@) == entry_lookup(es@.skip(i as int), key@),
                    decreases es@.len() - i,
                {
                    assert(es@.skip(i as int).drop_first() =~= es@.skip(i as int + 1));
                    assert(es@.skip(i as int)[0] == es@[i as int]);
                    if same_text(es[i].0.as_str(), key) {
                        assert(entry_lookup(es@.skip(i as int), key@) == Some(es@[i as int].1));
                        return Some(&es[i].1);
                    }
                    i = i + 1;
                }
                None
            },
            _ => None,
        }
    }

    /// The colour this value carries, as `color_in` describes.
    pub fn color(&self) -> (r: Option<String>)
        ensures
            match r {
                Some(c) => color_in(*self) == Some(c@),
                None => color_in(*self) is None,
            },
    {
        match self {
            JsonValue::Str(s) => if !s.as_str().is_empty() {
                Some(s.clone())
            } else {
                None
            },
            _ => match self.get("hex") {
                Some(JsonValue::Str(h)) => if !h.as_str().is_empty() {
                    Some(h.clone())
                } else {
                    None
                },
                _ => None,
            },
        }
    }
}

} // verus!
