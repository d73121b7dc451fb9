//! JSON documents, as the json crate reads them, held as plain values.
use vstd::prelude::*;

verus! {

/// `json::JsonValue`, a JSON document as the json crate reads it.
#[verifier::external_type_specification]
#[verifier::external_body]
pub struct ExJsonValue(json::JsonValue);

/// A JSON document: what `json::JsonValue` holds, with the text that its `Display`
/// writes for each value that is not a string.
#[derive(Debug)]
pub enum JsonDoc {
    Null,
    /// A string (`as_str` gives it, and `Display` writes it as it is).
    Text(String),
    /// A number, with the text that `Display` writes for it.
    Number(String),
    Boolean(bool),
    /// The members of an array, with the text that `Display` writes for it.
    Array(Vec<JsonDoc>, String),
    /// The entries of an object in their order, with the text that `Display` writes for it.
    Object(Vec<(String, JsonDoc)>, String),
}

/// What `json::parse` reads from `text`, copied into a [`JsonDoc`]; `None` where it fails.
pub uninterp spec fn json_parse_result(text: Seq<char>) -> Option<JsonDoc>;

/// What the parsed JSON value `value` holds, node for node: the members of its arrays,
/// the entries of its objects and the values at the leaves.
pub uninterp spec fn json_contents(value: json::JsonValue) -> JsonDoc;

/// Reads `text` with `json::parse`. What comes back is named: the document that
/// `json::parse` reads, whose contents are those that [`json_parse_result`] names, or
/// `None` exactly where it fails.
#[verifier::external_body]
pub fn json_parse(text: &str) -> (value: Option<json::JsonValue>)
    ensures
        match value {
            Some(v) => json_parse_result(text@) == Some(json_contents(v)),
            None => json_parse_result(text@) is None,
        },
{
    json::parse(text).ok()
}

/// Copies `value` node for node into a [`JsonDoc`]: strings as they are, and for each
/// other value the text that its `Display` writes (`dump` for arrays and objects), with
/// the entries of objects in the order in which `json::object::Object::iter` hands them
/// out.
#[verifier::external_body]
pub fn json_snapshot(value: &json::JsonValue) -> (doc: JsonDoc)
    ensures
        doc == json_contents(*value),
{
    match value {
        json::JsonValue::Null => JsonDoc::Null,
        json::JsonValue::Short(s) => JsonDoc::Text(s.to_string()),
        json::JsonValue::String(s) => JsonDoc::Text(s.clone()),
        json::JsonValue::Number(_) => JsonDoc::Number(value.to_string()),
        json::JsonValue::Boolean(b) => JsonDoc::Boolean(*b),
        json::JsonValue::Object(o) => JsonDoc::Object(o.iter().map(|(k, v)| (k.to_string(), json_snapshot(v))).collect(), value.to_string()),
        json::JsonValue::Array(a) => JsonDoc::Array(a.iter().map(json_snapshot).collect(), value.to_string()),
    }
}

/// Reads `text` as a JSON document, with `json::parse`.
pub fn parse_json(text: &str) -> (doc: Option<JsonDoc>)
    ensures
        doc == json_parse_result(text@),
{
    match json_parse(text) {
        Some(value) => Some(json_snapshot(&value)),
        None => None,
    }
}

/// What `as_str` gives of `doc`.
pub open spec fn json_text(doc: JsonDoc) -> Option<Seq<char>> {
    match doc {
        JsonDoc::Text(s) => Some(s@),
        _ => None,
    }
}

/// What `Display` writes of `doc`.
pub open spec fn json_shown(doc: JsonDoc) -> Seq<char> {
    match doc {
        JsonDoc::Null => "null"@,
        JsonDoc::Text(s) => s@,
        JsonDoc::Number(shown) => shown@,
        JsonDoc::Boolean(b) => if b { "true"@ } else { "false"@ },
        JsonDoc::Array(_, shown) => shown@,
        JsonDoc::Object(_, shown) => shown@,
    }
}

/// The members of `doc`: those of an array, none for any other value.
pub open spec fn json_members(doc: JsonDoc) -> Seq<JsonDoc> {
    match doc {
        JsonDoc::Array(items, _) => items@,
        _ => Seq::empty(),
    }
}

/// The value of the first entry of `entries` under `key`, or `null` when there is none.
pub open spec fn json_lookup(entries: Seq<(String, JsonDoc)>, key: Seq<char>) -> JsonDoc
    decreases entries.len(),
{
    if entries.len() == 0 {
        JsonDoc::Null
    } else if entries[0].0@ == key {
        entries[0].1
    } else {
        json_lookup(entries.drop_first(), key)
    }
}

/// `doc[key]`: the value of an object under `key`, `null` where there is none.
pub open spec fn json_field(doc: JsonDoc, key: Seq<char>) -> JsonDoc {
    match doc {
        JsonDoc::Object(entries, _) => json_lookup(entries@, key),
        _ => JsonDoc::Null,
    }
}

impl JsonDoc {
    /// `self[key]`; `None` stands for `null`.
    pub fn field(&self, key: &str) -> (value: Option<&JsonDoc>)
        ensures
            match value {
                Some(v) => *v == json_field(*self, key@),
                None => json_field(*self, key@) == JsonDoc::Null,
            },
    {
        match self {
            JsonDoc::Object(entries, _) => {
                let wanted = key.to_owned();
                let mut i: usize = 0;
                assert(entries@.skip(0) =~= entries@);
                while i < entries.len()
                    invariant
                        json_field(*self, key@) == json_lookup(entries@, key@),
                        wanted@ == key@,
                        0 <= i <= entries@.len(),
                        json_lookup(entries@, key@) == json_lookup(entries@.skip(i as int), key@),
                    decreases entries@.len() - i,
                {
                    assert(entries@.skip(i as int).drop_first() =~= entries@.skip(i + 1));
                    assert(entries@.skip(i as int)[0] == entries@[i as int]);
                    if entries[i].0 == wanted {
                        assert(entries@.skip(i as int).len() > 0);
                        assert(json_lookup(entries@.skip(i as int), key@) == entries@[i as int].1);
                        return Some(&entries[i].1);
                    }
                    i = i + 1;
                }
                None
            },
            _ => None,
        }
    }

    /// What `as_str` gives.
    pub fn as_str(&self) -> (text: Option<&str>)
        ensures
            match text {
                Some(t) => json_text(*self) == Some(t@),
                None => json_text(*self) is None,
            },
    {
        match self {
            JsonDoc::Text(s) => Some(s.as_str()),
            _ => None,
        }
    }

    /// What `Display` writes.
    pub fn shown(&self) -> (text: String)
        ensures
            text@ == json_shown(*self),
    {
        match self {
            JsonDoc::Null => String::from_str("null"),
            JsonDoc::Text(s) => s.clone(),
            JsonDoc::Number(shown) => shown.clone(),
            JsonDoc::Boolean(b) => if *b { String::from_str("true") } else { String::from_str("false") },
            JsonDoc::Array(_, shown) => shown.clone(),
            JsonDoc::Object(_, shown) => shown.clone(),
        }
    }

    /// The members of an array, none for any other value.
    pub fn members(&self) -> (items: &[JsonDoc])
        ensures
            items@ == json_members(*self),
    {
        match self {
            JsonDoc::Array(items, _) => items.as_slice(),
            _ => &[],
        }
    }
}

} // verus!
