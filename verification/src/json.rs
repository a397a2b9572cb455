use crate::text::same_text;
use serde_json::Value;
use vstd::prelude::*;

verus! {

#[verifier::external_type_specification]
#[verifier::external_body]
pub struct ExJsonValue(serde_json::Value);

#[verifier::external_type_specification]
#[verifier::external_body]
pub struct ExJsonError(serde_json::Error);

/// A JSON document, as far as this library reads one.
#[derive(Debug)]
pub enum Json {
    Null,
    Bool(bool),
    /// A number, with its value where it is an unsigned integer of 64 bits.
    /// Negative and fractional numbers are told apart from the other kinds
    /// of value, but their value is not kept.
    Number(Option<u64>),
    Text(String),
    Array(Vec<Json>),
    /// An object, with its members in the order in which they are held.
    Object(Vec<(String, Json)>),
}

/// `index` is the first member of `members` named `key`.
pub open spec fn is_first_member(members: Seq<(String, Json)>, key: Seq<char>, index: int) -> bool {
    &&& 0 <= index < members.len()
    &&& members[index].0@ == key
    &&& forall|earlier: int| 0 <= earlier < index ==> members[earlier].0@ != key
}

/// Some member of `members` is named `key`.
pub open spec fn has_member(members: Seq<(String, Json)>, key: Seq<char>) -> bool {
    exists|index: int| 0 <= index < members.len() && members[index].0@ == key
}

/// At most one member is the first with a given name.
pub proof fn lemma_first_member_is_unique(members: Seq<(String, Json)>, key: Seq<char>, index: int)
    requires
        is_first_member(members, key, index),
    ensures
        has_member(members, key),
        (choose|other: int| is_first_member(members, key, other)) == index,
{
    let chosen = choose|other: int| is_first_member(members, key, other);
    assert(chosen == index);
}

impl Json {
    /// The members of an object; nothing for any other kind of value.
    pub open spec fn members(self) -> Option<Seq<(String, Json)>> {
        match self {
            Json::Object(members) => Some(members@),
            _ => None,
        }
    }

    /// The first member named `key` of an object; nothing where there is no
    /// such member, or where the value is no object.
    pub open spec fn member(self, key: Seq<char>) -> Option<Json> {
        match self {
            Json::Object(members) => if has_member(members@, key) {
                Some(members@[choose|index: int| is_first_member(members@, key, index)].1)
            } else {
                None
            },
            _ => None,
        }
    }

    /// The characters of a string; nothing for any other kind of value.
    pub open spec fn text(self) -> Option<Seq<char>> {
        match self {
            Json::Text(text) => Some(text@),
            _ => None,
        }
    }

    /// The value of a number that is an unsigned integer of 64 bits; nothing
    /// for any other number and any other kind of value.
    pub open spec fn unsigned(self) -> Option<u64> {
        match self {
            Json::Number(value) => value,
            _ => None,
        }
    }

    /// The members of this value, if it is an object.
    pub fn as_object(&self) -> (members: Option<&Vec<(String, Json)>>)
        ensures
            match members {
                Some(members) => self.members() == Some(members@),
                None => self.members() is None,
            },
    {
        match self {
            Json::Object(members) => Some(members),
            _ => None,
        }
    }

    /// The member named `key`, if this value is an object that has one.
    pub fn get(&self, key: &str) -> (found: Option<&Json>)
        ensures
            match found {
                Some(value) => self.member(key@) == Some(*value),
                None => self.member(key@) is None,
            },
    {
        match self {
            Json::Object(members) => {
                let mut i: usize = 0;
                while i < members.len()
                    invariant
                        *self == Json::Object(*members),
                        i <= members.len(),
                        forall|earlier: int| 0 <= earlier < i ==> members@[earlier].0@ != key@,
                    decreases members.len() - i,
                {
                    if same_text(members[i].0.as_str(), key) {
                        proof {
                            lemma_first_member_is_unique(members@, key@, i as int);
                        }
                        return Some(&members[i].1);
                    }
                    i = i + 1;
                }
                None
            },
            _ => None,
        }
    }

    /// The characters of this value, if it is a string.
    pub fn as_str(&self) -> (text: Option<&str>)
        ensures
            match text {
                Some(text) => self.text() == Some(text@),
                None => self.text() is None,
            },
    {
        match self {
            Json::Text(text) => Some(text.as_str()),
            _ => None,
        }
    }

    /// This value as an unsigned integer, if it is a number that is one.
    pub fn as_u64(&self) -> (value: Option<u64>)
        ensures
            value == self.unsigned(),
    {
        match self {
            Json::Number(value) => *value,
            _ => None,
        }
    }
}

/// The document that `text` denotes, where `text` is well-formed JSON.
pub uninterp spec fn document_of(text: Seq<char>) -> Option<Json>;

/// Turns a `serde_json::Value` into a [`Json`], variant by variant, item
/// by item and member by member, in the order of the iterator of
/// `serde_json::Map`. A number is kept as `serde_json::Number::as_u64`
/// gives it. Nothing is claimed of the result; it is the conversion that
/// [`parse_document`] applies to what it parsed.
#[verifier::external_body]
fn json_of_value(value: Value) -> Json {
    match value {
        Value::Null => Json::Null,
        Value::Bool(flag) => Json::Bool(flag),
        Value::Number(number) => Json::Number(number.as_u64()),
        Value::String(text) => Json::Text(text),
        Value::Array(items) => Json::Array(items.into_iter().map(json_of_value).collect()),
        Value::Object(members) => Json::Object(
            members.into_iter().map(|(key, item)| (key, json_of_value(item))).collect(),
        ),
    }
}

/// Parses `text` with `serde_json::from_str` into a `serde_json::Value` and
/// hands it out as a [`Json`]. The contract claims only that the outcome is
/// determined by the characters of `text`: the same text always parses to
/// the same document, or always fails.
#[verifier::external_body]
fn parse_document(text: &str) -> (parsed: Result<Json, serde_json::Error>)
    ensures
        match parsed {
            Ok(document) => document_of(text@) == Some(document),
            Err(_) => document_of(text@) is None,
        },
{
    serde_json::from_str::<Value>(text).map(json_of_value)
}

/// Reads `text` as a JSON document. Text that is not well-formed JSON is
/// reported as a parse failure.
pub fn parse(text: &str) -> (parsed: Option<Json>)
    ensures
        parsed == document_of(text@),
{
    match parse_document(text) {
        Ok(document) => Some(document),
        Err(_) => None,
    }
}

} // verus!
