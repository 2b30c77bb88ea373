//! JSON documents as plain values, and the parser that produces them.

use vstd::prelude::*;

verus! {

/// A JSON number, kept in the representation it arrived in.
///
/// `Single` and `Double` hold the IEEE-754 bit pattern of a single- or
/// double-precision value; this crate carries such numbers without ever
/// interpreting them.
#[derive(Debug, Clone, Copy, PartialEq)]
pub enum Numeral {
    Unsigned(u64),
    Signed(i64),
    Single(u32),
    Double(u64),
}

/// A JSON document. An object is the list of its members in order.
#[derive(Debug, PartialEq)]
pub enum Json {
    Null,
    Bool(bool),
    Number(Numeral),
    Text(String),
    List(Vec<Json>),
    Object(Vec<(String, Json)>),
}

/// The value of the first member named `key` at or after position `start`.
pub open spec fn member_from(entries: Seq<(String, Json)>, key: Seq<char>, start: int) -> Option<
    Json,
>
    decreases entries.len() - start,
{
    if start < 0 || start >= entries.len() {
        None
    } else if entries[start].0@ == key {
        Some(entries[start].1)
    } else {
        member_from(entries, key, start + 1)
    }
}

impl Json {
    /// The member named `key`, if this is an object that has one.
    pub open spec fn member(self, key: Seq<char>) -> Option<Json> {
        match self {
            Json::Object(entries) => member_from(entries@, key, 0),
            _ => None,
        }
    }

    /// The string this document is, if it is one.
    pub open spec fn text(self) -> Option<String> {
        match self {
            Json::Text(s) => Some(s),
            _ => None,
        }
    }

    /// The elements of this document, if it is an array.
    pub open spec fn items(self) -> Option<Seq<Json>> {
        match self {
            Json::List(items) => Some(items@),
            _ => None,
        }
    }

    /// Looks up a member of an object by name.
    pub fn get(&self, key: &str) -> (found: Option<&Json>)
        ensures
            match found {
                Some(value) => self.member(key@) == Some(*value),
                None => self.member(key@).is_none(),
            },
    {
        match self {
            Json::Object(entries) => {
                let wanted = String::from_str(key);
                let mut i: usize = 0;
                while i < entries.len()
                    invariant
                        i <= entries.len(),
                        wanted@ == key@,
                        self.member(key@) == member_from(entries@, key@, 0),
                        member_from(entries@, key@, 0) == member_from(entries@, key@, i as int),
                    decreases entries.len() - i,
                {
                    if entries[i].0 == wanted {
                        return Some(&entries[i].1);
                    }
                    i += 1;
                }
                None
            },
            _ => None,
        }
    }

    /// Reads a document from JSON text; `None` where the text is malformed.
    pub fn parse(text: &str) -> (doc: Option<Json>)
        ensures
            doc == parsed_json(text@),
    {
        match parse_json(text) {
            Ok(doc) => Some(doc),
            Err(_) => None,
        }
    }

    /// The string held by a `Text` document.
    pub fn as_text(&self) -> (found: Option<&String>)
        ensures
            match found {
                Some(s) => self.text() == Some(*s),
                None => self.text().is_none(),
            },
    {
        match self {
            Json::Text(s) => Some(s),
            _ => None,
        }
    }

    /// The elements held by a `List` document.
    pub fn as_list(&self) -> (found: Option<&Vec<Json>>)
        ensures
            match found {
                Some(items) => self.items() == Some(items@),
                None => self.items().is_none(),
            },
    {
        match self {
            Json::List(items) => Some(items),
            _ => None,
        }
    }
}

#[verifier::external_type_specification]
#[verifier::external_body]
pub struct ExValue(serde_json::Value);

#[verifier::external_type_specification]
#[verifier::external_body]
pub struct ExNumber(serde_json::Number);

#[verifier::external_type_specification]
#[verifier::external_body]
pub struct ExParseError(serde_json::Error);

/// The document that `serde_json` reads from `text`, or `None` where it
/// rejects the text as malformed JSON.
pub uninterp spec fn parsed_json(text: Seq<char>) -> Option<Json>;

/// Carries a `serde_json::Number` over into a [`Numeral`], telling its three
/// internal representations apart with `as_u64`, `as_i64` and `as_f64`.
/// Nothing is claimed of the result.
#[verifier::external_body]
fn numeral_from_number(number: &serde_json::Number) -> (numeral: Numeral) {
    if let Some(unsigned) = number.as_u64() {
        Numeral::Unsigned(unsigned)
    } else if let Some(signed) = number.as_i64() {
        Numeral::Signed(signed)
    } else {
        Numeral::Double(number.as_f64().unwrap_or_default().to_bits())
    }
}

/// Carries a `serde_json::Value` over into a [`Json`], variant by variant; an
/// object's members come in the order in which `serde_json::Map` hands them
/// out. Nothing is claimed of the result.
#[verifier::external_body]
fn json_from_value(value: serde_json::Value) -> (json: Json) {
    match value {
        serde_json::Value::Null => Json::Null,
        serde_json::Value::Bool(flag) => Json::Bool(flag),
        serde_json::Value::Number(number) => Json::Number(numeral_from_number(&number)),
        serde_json::Value::String(text) => Json::Text(text),
        serde_json::Value::Array(items) => Json::List(
            items.into_iter().map(json_from_value).collect(),
        ),
        serde_json::Value::Object(members) => Json::Object(
            members.into_iter().map(|(key, value)| (key, json_from_value(value))).collect(),
        ),
    }
}

/// Calls `serde_json::from_str` for a `serde_json::Value` and carries the
/// value over. The contract claims only that the outcome is a function of
/// the text: the same text always reads as the same document, or always
/// fails.
#[verifier::external_body]
fn parse_json(text: &str) -> (parsed: Result<Json, serde_json::Error>)
    ensures
        match parsed {
            Ok(json) => parsed_json(text@) == Some(json),
            Err(_) => parsed_json(text@).is_none(),
        },
{
    serde_json::from_str::<serde_json::Value>(text).map(json_from_value)
}

} // verus!
