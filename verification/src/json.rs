//! JSON values as the decoders read them, and the calls that parse and
//! quote JSON text.

use crate::sign::hex_digit;
use vstd::prelude::*;

verus! {

/// A JSON number as far as it is an integer: its value as `i64` and as
/// `u64`, each where it fits. Both are `None` for a number with a fraction
/// or an exponent.
#[derive(Debug, Clone, Copy, PartialEq, Eq, Structural)]
pub struct JsonNumber {
    pub signed: Option<i64>,
    pub unsigned: Option<u64>,
}

/// A JSON value.
#[derive(Debug)]
pub enum Json {
    Null,
    Bool(bool),
    Number(JsonNumber),
    String(String),
    Array(Vec<Json>),
    /// The members in the order the parser yields them.
    Object(Vec<(String, Json)>),
}

/// `serde_json::Value`, carried through as it is: nothing of what it holds
/// is visible to the proofs.
#[verifier::external_type_specification]
#[verifier::external_body]
pub struct ExJsonValue(serde_json::Value);

/// The value that `text` parses to as JSON, or `None` where it is not JSON.
pub uninterp spec fn json_parsed(text: Seq<char>) -> Option<Json>;

/// How one character stands inside a JSON string literal: the quote and
/// the backslash behind a backslash, the control characters below the space
/// as their short escape or as `\u00` and two hexadecimal digits, every
/// other character as itself.
pub open spec fn escaped(c: char) -> Seq<char> {
    if c == '"' {
        seq!['\\', '"']
    } else if c == '\\' {
        seq!['\\', '\\']
    } else if c as u32 == 0x08 {
        seq!['\\', 'b']
    } else if c as u32 == 0x09 {
        seq!['\\', 't']
    } else if c as u32 == 0x0a {
        seq!['\\', 'n']
    } else if c as u32 == 0x0c {
        seq!['\\', 'f']
    } else if c as u32 == 0x0d {
        seq!['\\', 'r']
    } else if (c as u32) < 0x20 {
        seq![
            '\\',
            'u',
            '0',
            '0',
            hex_digit(c as u32 as int / 16),
            hex_digit(c as u32 as int % 16),
        ]
    } else {
        seq![c]
    }
}

/// The characters of `text`, each as it stands inside a JSON string
/// literal.
pub open spec fn escaped_text(text: Seq<char>) -> Seq<char>
    decreases text.len(),
{
    if text.len() == 0 {
        Seq::empty()
    } else {
        escaped_text(text.drop_last()) + escaped(text.last())
    }
}

/// The JSON string literal for `text`: the escaped text between two quotes.
pub open spec fn json_quoted(text: Seq<char>) -> Seq<char> {
    seq!['"'] + escaped_text(text) + seq!['"']
}

/// Copies a `serde_json::Value` into a `Json`, variant by variant. A number
/// is taken by `Number::as_i64` and `Number::as_u64`; the members of an
/// object come in the order of `Map::iter`.
#[verifier::external_body]
fn json_from_value(value: &serde_json::Value) -> Json {
    match value {
        serde_json::Value::Null => Json::Null,
        serde_json::Value::Bool(b) => Json::Bool(*b),
        serde_json::Value::Number(n) => Json::Number(
            JsonNumber { signed: n.as_i64(), unsigned: n.as_u64() },
        ),
        serde_json::Value::String(s) => Json::String(s.clone()),
        serde_json::Value::Array(items) => Json::Array(items.iter().map(json_from_value).collect()),
        serde_json::Value::Object(members) => Json::Object(
            members.iter().map(|(k, v)| (k.clone(), json_from_value(v))).collect(),
        ),
    }
}

/// `serde_json::from_str` to a `serde_json::Value`: the parsed value, or
/// `None` where the parser reports an error. The result is only named
/// `json_parsed`.
#[verifier::external_body]
pub(crate) fn parse_json(text: &str) -> (r: Option<Json>)
    ensures
        r == json_parsed(text@),
{
    match serde_json::from_str::<serde_json::Value>(text) {
        Ok(value) => Some(json_from_value(&value)),
        Err(_) => None,
    }
}

/// `serde_json::to_string` of a string: it never fails, and gives the JSON
/// literal for the string, escaped by the serializer's table.
#[verifier::external_body]
pub(crate) fn quote_json(text: &str) -> (r: Option<String>)
    ensures
        r is Some,
        r->0@ == json_quoted(text@),
{
    match serde_json::to_string(text) {
        Ok(s) => Some(s),
        Err(_) => None,
    }
}

/// The value of the first member of `members` whose key is `key`.
pub open spec fn member(members: Seq<(String, Json)>, key: Seq<char>) -> Option<Json>
    decreases members.len(),
{
    if members.len() == 0 {
        None
    } else if members[0].0@ == key {
        Some(members[0].1)
    } else {
        member(members.drop_first(), key)
    }
}

/// Whether `at` is where `member` finds `key`: the first member with that
/// key.
pub open spec fn is_first_with_key(members: Seq<(String, Json)>, key: Seq<char>, at: int) -> bool {
    &&& 0 <= at < members.len()
    &&& members[at].0@ == key
    &&& forall|j: int| 0 <= j < at ==> (#[trigger] members[j]).0@ != key
}

/// `member` returns the value at the first index whose key matches, and
/// nothing where no key matches.
pub proof fn lemma_member_at(members: Seq<(String, Json)>, key: Seq<char>, at: int)
    requires
        0 <= at <= members.len(),
        forall|j: int| 0 <= j < at ==> (#[trigger] members[j]).0@ != key,
    ensures
        at < members.len() && members[at].0@ == key ==> member(members, key) == Some(
            members[at].1,
        ),
        at == members.len() ==> member(members, key) is None,
    decreases members.len(),
{
    if members.len() > 0 && at > 0 {
        assert(members[0].0@ != key);
        let rest = members.drop_first();
        assert forall|j: int| 0 <= j < at - 1 implies (#[trigger] rest[j]).0@ != key by {
            assert(rest[j] == members[j + 1]);
        }
        lemma_member_at(rest, key, at - 1);
        if at < members.len() {
            assert(rest[at - 1] == members[at]);
        }
    }
}

/// Finds the first member with the given key.
pub fn find_member(members: &Vec<(String, Json)>, key: &str) -> (r: Option<usize>)
    ensures
        match r {
            Some(at) => is_first_with_key(members@, key@, at as int) && member(members@, key@)
                == Some(members@[at as int].1),
            None => member(members@, key@) is None,
        },
{
    let wanted = key.to_owned();
    let mut i: usize = 0;
    while i < members.len()
        invariant
            i <= members@.len(),
            wanted@ == key@,
            forall|j: int| 0 <= j < i ==> (#[trigger] members@[j]).0@ != key@,
        decreases members@.len() - i,
    {
        if members[i].0 == wanted {
            proof {
                lemma_member_at(members@, key@, i as int);
            }
            return Some(i);
        }
        i += 1;
    }
    proof {
        lemma_member_at(members@, key@, i as int);
    }
    None
}

/// Looks a member up by its key.
pub fn get_member<'a>(members: &'a Vec<(String, Json)>, key: &str) -> (r: Option<&'a Json>)
    ensures
        match member(members@, key@) {
            Some(v) => r == Some(&v),
            None => r is None,
        },
{
    match find_member(members, key) {
        Some(at) => Some(&members[at].1),
        None => None,
    }
}

} // verus!
