//! JSON documents as the library reads them, and the calls into the JSON
//! codec that parses and prints them.

use vstd::prelude::*;

verus! {

/// Trusted: `serde_json::Value`, the codec's own document, which is carried
/// from the parser to `json_of_value` and never looked into.
#[verifier::external_type_specification]
#[verifier::external_body]
pub struct ExJsonValue(serde_json::Value);

/// A parsed JSON document.
///
/// A number that is an integer within the range of `i64` is an `Int`; every
/// other number is a `Real`, of which nothing more is kept. The members of an
/// `Object` stand in the order in which the codec hands them out.
#[derive(Debug, PartialEq)]
pub enum Json {
    Null,
    Bool(bool),
    Int(i64),
    Real,
    Text(String),
    Array(Vec<Json>),
    Object(Vec<(String, Json)>),
}

/// What the codec makes of a text: the document that it parses to, or the
/// codec's message where the text is not JSON.
pub uninterp spec fn json_parse(text: Seq<char>) -> Result<Json, Seq<char>>;

/// The JSON string literal that the codec prints for a string: the string
/// between double quotes, with the characters escaped that JSON cannot hold
/// as they are.
pub uninterp spec fn json_quoted(s: Seq<char>) -> Seq<char>;

/// Trusted: turns a `serde_json::Value` into a `Json`, variant by variant and
/// item by item, with `serde_json::Number::as_i64` telling an `Int` from a
/// `Real` and the members of a `serde_json::Map` taken in the order of its
/// `into_iter`. Nothing is claimed of the result here: `parse_text`, which
/// alone calls this, names what the two give together.
#[verifier::external_body]
fn json_of_value(value: serde_json::Value) -> Json {
    match value {
        serde_json::Value::Null => Json::Null,
        serde_json::Value::Bool(b) => Json::Bool(b),
        serde_json::Value::Number(n) => n.as_i64().map_or(Json::Real, Json::Int),
        serde_json::Value::String(s) => Json::Text(s),
        serde_json::Value::Array(items) => Json::Array(
            items.into_iter().map(json_of_value).collect(),
        ),
        serde_json::Value::Object(members) => Json::Object(
            members.into_iter().map(|(k, v)| (k, json_of_value(v))).collect(),
        ),
    }
}

/// Trusted: `serde_json::from_str` at the type `serde_json::Value`, with the
/// value turned into a `Json` by `json_of_value` and the error into its text
/// by `to_string`. The contract claims only that the outcome depends on the
/// text alone, and calls it `json_parse`: which texts parse, and to what, is
/// the codec's to say.
#[verifier::external_body]
pub(crate) fn parse_text(text: &str) -> (parsed: Result<Json, String>)
    ensures
        json_parse(text@) == match parsed {
            Ok(j) => Ok::<Json, Seq<char>>(j),
            Err(e) => Err::<Json, Seq<char>>(e@),
        },
{
    match serde_json::from_str::<serde_json::Value>(text) {
        Ok(value) => Ok(json_of_value(value)),
        Err(e) => Err(e.to_string()),
    }
}

/// Trusted: `to_string` on a `serde_json::Value::String`, the codec's compact
/// printing of one string. The contract claims only that the result depends
/// on the string alone, and calls it `json_quoted`: how a character is
/// escaped is the codec's to say.
#[verifier::external_body]
pub(crate) fn quote(s: &str) -> (quoted: String)
    ensures
        quoted@ == json_quoted(s@),
{
    serde_json::Value::String(s.to_owned()).to_string()
}

impl Json {
    /// The value of the first member from position `from` on whose key is
    /// `key`.
    pub open spec fn lookup(members: Seq<(String, Json)>, key: Seq<char>, from: int) -> Option<
        Json,
    >
        decreases members.len() - from,
    {
        if from < 0 || from >= members.len() {
            None
        } else if members[from].0@ == key {
            Some(members[from].1)
        } else {
            Self::lookup(members, key, from + 1)
        }
    }

    /// The value under `key` where this document is an object that has such
    /// a member.
    pub open spec fn member(self, key: Seq<char>) -> Option<Json> {
        match self {
            Json::Object(members) => Self::lookup(members@, key, 0),
            _ => None,
        }
    }

    /// Parses a text. The outcome is the codec's: see `json_parse`.
    pub fn parse(text: &str) -> (parsed: Result<Json, String>)
        ensures
            json_parse(text@) == match parsed {
                Ok(j) => Ok::<Json, Seq<char>>(j),
                Err(e) => Err::<Json, Seq<char>>(e@),
            },
    {
        parse_text(text)
    }

    /// Looks a member up by its key.
    pub fn get(&self, key: &String) -> (found: Option<&Json>)
        ensures
            self.member(key@) == match found {
                Some(j) => Some(*j),
                None => None::<Json>,
            },
    {
        match self {
            Json::Object(members) => {
                let mut i: usize = 0;
                while i < members.len()
                    invariant
                        i <= members.len(),
                        self.member(key@) == Self::lookup(members@, key@, 0),
                        Self::lookup(members@, key@, 0) == Self::lookup(members@, key@, i as int),
                    decreases members.len() - i,
                {
                    let pair = &members[i];
                    if pair.0 == *key {
                        return Some(&pair.1);
                    }
                    i = i + 1;
                }
                None
            },
            _ => None,
        }
    }

    /// The string that this document is, if it is one.
    pub open spec fn string(self) -> Option<Seq<char>> {
        match self {
            Json::Text(s) => Some(s@),
            _ => None,
        }
    }

    /// The integer that this document is, if it is one.
    pub open spec fn integer(self) -> Option<i64> {
        match self {
            Json::Int(i) => Some(i),
            _ => None,
        }
    }

    /// Returns a copy of the string that this document is, if it is one.
    pub fn as_text(&self) -> (s: Option<String>)
        ensures
            self.string() == match s {
                Some(t) => Some(t@),
                None => None::<Seq<char>>,
            },
    {
        match self {
            Json::Text(s) => Some(s.clone()),
            _ => None,
        }
    }

    /// Returns the integer that this document is, if it is one.
    pub fn as_int(&self) -> (i: Option<i64>)
        ensures
            i == self.integer(),
    {
        match self {
            Json::Int(i) => Some(*i),
            _ => None,
        }
    }

    /// The string under `key`, where there is such a member and it is a
    /// string.
    pub open spec fn text_member(self, key: Seq<char>) -> Option<Seq<char>> {
        match self.member(key) {
            Some(v) => v.string(),
            None => None,
        }
    }

    /// The integer under `key`, where there is such a member and it is an
    /// integer.
    pub open spec fn int_member(self, key: Seq<char>) -> Option<i64> {
        match self.member(key) {
            Some(v) => v.integer(),
            None => None,
        }
    }

    /// Returns a copy of the string under `key`, if there is one.
    pub fn text_at(&self, key: &str) -> (s: Option<String>)
        ensures
            self.text_member(key@) == match s {
                Some(t) => Some(t@),
                None => None::<Seq<char>>,
            },
    {
        let k = key.to_owned();
        match self.get(&k) {
            Some(v) => v.as_text(),
            None => None,
        }
    }

    /// Returns the integer under `key`, if there is one.
    pub fn int_at(&self, key: &str) -> (i: Option<i64>)
        ensures
            i == self.int_member(key@),
    {
        let k = key.to_owned();
        match self.get(&k) {
            Some(v) => v.as_int(),
            None => None,
        }
    }

    /// Returns the member under `key`, if there is one.
    pub fn at(&self, key: &str) -> (found: Option<&Json>)
        ensures
            self.member(key@) == match found {
                Some(j) => Some(*j),
                None => None::<Json>,
            },
    {
        let k = key.to_owned();
        self.get(&k)
    }
}

} // verus!
