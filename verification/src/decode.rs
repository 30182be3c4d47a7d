//! Strict decoding of JSON values into typed events.
//!
//! A record is decoded from a JSON object member by member. A member that
//! the record requires must be present with the right type; an optional one
//! may be absent or `null`; members that the record does not name are
//! ignored.

use crate::json::get_member;
use crate::json::member;
use crate::json::Json;
use vstd::prelude::*;

verus! {

/// The integer that a value holds, where it fits an `i64`.
pub open spec fn int_of(v: Json) -> Option<i64> {
    match v {
        Json::Number(n) => n.signed,
        _ => None,
    }
}

/// The required integer member `key`.
pub open spec fn int_field(m: Seq<(String, Json)>, key: Seq<char>) -> Option<i64> {
    match member(m, key) {
        Some(v) => int_of(v),
        None => None,
    }
}

/// The required string member `key`.
pub open spec fn str_field(m: Seq<(String, Json)>, key: Seq<char>) -> Option<String> {
    match member(m, key) {
        Some(Json::String(s)) => Some(s),
        _ => None,
    }
}

/// The required boolean member `key`.
pub open spec fn bool_field(m: Seq<(String, Json)>, key: Seq<char>) -> Option<bool> {
    match member(m, key) {
        Some(Json::Bool(b)) => Some(b),
        _ => None,
    }
}

/// The members of the required object member `key`.
pub open spec fn object_field(m: Seq<(String, Json)>, key: Seq<char>) -> Option<
    Seq<(String, Json)>,
> {
    match member(m, key) {
        Some(Json::Object(inner)) => Some(inner@),
        _ => None,
    }
}

/// Whether the optional member `key` is left out: absent or `null`.
pub open spec fn is_absent(m: Seq<(String, Json)>, key: Seq<char>) -> bool {
    member(m, key) is None || member(m, key) == Some(Json::Null)
}

/// The optional string member `key`: `Some(None)` where it is left out,
/// `None` where it is present but no string.
pub open spec fn opt_str_field(m: Seq<(String, Json)>, key: Seq<char>) -> Option<Option<String>> {
    if is_absent(m, key) {
        Some(None)
    } else {
        match str_field(m, key) {
            Some(s) => Some(Some(s)),
            None => None,
        }
    }
}

/// The optional integer member `key`.
pub open spec fn opt_int_field(m: Seq<(String, Json)>, key: Seq<char>) -> Option<Option<i64>> {
    if is_absent(m, key) {
        Some(None)
    } else {
        match int_field(m, key) {
            Some(x) => Some(Some(x)),
            None => None,
        }
    }
}

/// The optional member `key` as a 32-bit integer; a number outside that
/// range is refused.
pub open spec fn opt_i32_field(m: Seq<(String, Json)>, key: Seq<char>) -> Option<Option<i32>> {
    if is_absent(m, key) {
        Some(None)
    } else {
        match int_field(m, key) {
            Some(x) if i32::MIN <= x <= i32::MAX => Some(Some(x as i32)),
            _ => None,
        }
    }
}

/// The optional boolean member `key`.
pub open spec fn opt_bool_field(m: Seq<(String, Json)>, key: Seq<char>) -> Option<Option<bool>> {
    if is_absent(m, key) {
        Some(None)
    } else {
        match bool_field(m, key) {
            Some(b) => Some(Some(b)),
            None => None,
        }
    }
}

/// The integers of an array, where every item is one.
pub open spec fn int_list(items: Seq<Json>) -> Option<Seq<i64>> {
    if forall|i: int| 0 <= i < items.len() ==> (#[trigger] int_of(items[i])) is Some {
        Some(Seq::new(items.len(), |i: int| int_of(items[i])->0))
    } else {
        None
    }
}

/// The required member `key` as a list of integers.
pub open spec fn int_list_field(m: Seq<(String, Json)>, key: Seq<char>) -> Option<Seq<i64>> {
    match member(m, key) {
        Some(Json::Array(items)) => int_list(items@),
        _ => None,
    }
}

/// Reads the required integer member `key`.
pub fn get_int(m: &Vec<(String, Json)>, key: &str) -> (r: Option<i64>)
    ensures
        r == int_field(m@, key@),
{
    match get_member(m, key) {
        Some(Json::Number(n)) => n.signed,
        _ => None,
    }
}

/// Reads the required string member `key`.
pub fn get_str(m: &Vec<(String, Json)>, key: &str) -> (r: Option<String>)
    ensures
        r == str_field(m@, key@),
{
    match get_member(m, key) {
        Some(Json::String(s)) => Some(s.clone()),
        _ => None,
    }
}

/// Reads the required boolean member `key`.
pub fn get_bool(m: &Vec<(String, Json)>, key: &str) -> (r: Option<bool>)
    ensures
        r == bool_field(m@, key@),
{
    match get_member(m, key) {
        Some(Json::Bool(b)) => Some(*b),
        _ => None,
    }
}

/// Reads the required object member `key`.
pub fn get_object<'a>(m: &'a Vec<(String, Json)>, key: &str) -> (r: Option<
    &'a Vec<(String, Json)>,
>)
    ensures
        match object_field(m@, key@) {
            Some(inner) => r matches Some(o) && o@ == inner,
            None => r is None,
        },
{
    match get_member(m, key) {
        Some(Json::Object(inner)) => Some(inner),
        _ => None,
    }
}

/// Tells whether the optional member `key` is left out.
pub fn absent(m: &Vec<(String, Json)>, key: &str) -> (b: bool)
    ensures
        b == is_absent(m@, key@),
{
    match get_member(m, key) {
        None => true,
        Some(Json::Null) => true,
        Some(_) => false,
    }
}

/// Reads the optional string member `key`.
pub fn get_opt_str(m: &Vec<(String, Json)>, key: &str) -> (r: Option<Option<String>>)
    ensures
        r == opt_str_field(m@, key@),
{
    if absent(m, key) {
        Some(None)
    } else {
        match get_str(m, key) {
            Some(s) => Some(Some(s)),
            None => None,
        }
    }
}

/// Reads the optional integer member `key`.
pub fn get_opt_int(m: &Vec<(String, Json)>, key: &str) -> (r: Option<Option<i64>>)
    ensures
        r == opt_int_field(m@, key@),
{
    if absent(m, key) {
        Some(None)
    } else {
        match get_int(m, key) {
            Some(x) => Some(Some(x)),
            None => None,
        }
    }
}

/// Reads the optional member `key` as a 32-bit integer.
pub fn get_opt_i32(m: &Vec<(String, Json)>, key: &str) -> (r: Option<Option<i32>>)
    ensures
        r == opt_i32_field(m@, key@),
{
    if absent(m, key) {
        Some(None)
    } else {
        match get_int(m, key) {
            Some(x) => {
                if -2147483648 <= x && x <= 2147483647 {
                    Some(Some(x as i32))
                } else {
                    None
                }
            },
            None => None,
        }
    }
}

/// Reads the optional boolean member `key`.
pub fn get_opt_bool(m: &Vec<(String, Json)>, key: &str) -> (r: Option<Option<bool>>)
    ensures
        r == opt_bool_field(m@, key@),
{
    if absent(m, key) {
        Some(None)
    } else {
        match get_bool(m, key) {
            Some(b) => Some(Some(b)),
            None => None,
        }
    }
}

/// Reads the integers of an array; `None` where an item is no integer.
pub fn ints_of(items: &Vec<Json>) -> (r: Option<Vec<i64>>)
    ensures
        match int_list(items@) {
            Some(list) => r matches Some(v) && v@ == list,
            None => r is None,
        },
{
    let mut out: Vec<i64> = Vec::new();
    let mut i: usize = 0;
    while i < items.len()
        invariant
            i <= items@.len(),
            out@.len() == i,
            forall|j: int| 0 <= j < i ==> int_of(items@[j]) == Some(#[trigger] out@[j]),
        decreases items@.len() - i,
    {
        match &items[i] {
            Json::Number(n) => {
                match n.signed {
                    Some(x) => out.push(x),
                    None => {
                        assert(int_of(items@[i as int]) is None);
                        return None;
                    },
                }
            },
            _ => {
                assert(int_of(items@[i as int]) is None);
                return None;
            },
        }
        i += 1;
    }
    assert forall|j: int| 0 <= j < items@.len() implies (#[trigger] int_of(items@[j])) is Some by {
        assert(int_of(items@[j]) == Some(out@[j]));
    }
    assert(out@ =~= int_list(items@)->0);
    Some(out)
}

/// Reads the required member `key` as a list of integers.
pub fn get_int_list(m: &Vec<(String, Json)>, key: &str) -> (r: Option<Vec<i64>>)
    ensures
        match int_list_field(m@, key@) {
            Some(list) => r matches Some(v) && v@ == list,
            None => r is None,
        },
{
    match get_member(m, key) {
        Some(Json::Array(items)) => ints_of(items),
        _ => None,
    }
}

} // verus!
