//! Reading and writing the members of JSON objects, as the wire format
//! declares them: required, optional (absent or `null`), or defaulted.

use vstd::prelude::*;

use crate::json::{field, json_int_in, Json, JsonValue};
use crate::text::string_of;

verus! {

/// The view of an optional value.
pub open spec fn opt_view<T: View>(o: Option<T>) -> Option<T::V> {
    match o {
        Some(t) => Some(t@),
        None => None,
    }
}

/// A required string member.
pub open spec fn req_str(j: Json, k: Seq<char>) -> Option<Seq<char>> {
    match field(j, k) {
        Some(Json::Str(s)) => Some(s),
        _ => None,
    }
}

/// An optional string member: absent or `null` reads as `None`.
pub open spec fn opt_str(j: Json, k: Seq<char>) -> Option<Option<Seq<char>>> {
    match field(j, k) {
        None => Some(None),
        Some(Json::Null) => Some(None),
        Some(Json::Str(s)) => Some(Some(s)),
        _ => None,
    }
}

/// A required boolean member.
pub open spec fn req_bool(j: Json, k: Seq<char>) -> Option<bool> {
    match field(j, k) {
        Some(Json::Bool(b)) => Some(b),
        _ => None,
    }
}

/// A boolean member that reads as `false` when absent.
pub open spec fn def_bool(j: Json, k: Seq<char>) -> Option<bool> {
    match field(j, k) {
        None => Some(false),
        Some(Json::Bool(b)) => Some(b),
        _ => None,
    }
}

/// A required integer member within `[lo, hi]`.
pub open spec fn req_int(j: Json, k: Seq<char>, lo: int, hi: int) -> Option<int> {
    match field(j, k) {
        Some(x) => json_int_in(x, lo, hi),
        None => None,
    }
}

/// An integer member within `[lo, hi]` that reads as `d` when absent.
pub open spec fn def_int(j: Json, k: Seq<char>, lo: int, hi: int, d: int) -> Option<int> {
    match field(j, k) {
        Some(x) => json_int_in(x, lo, hi),
        None => Some(d),
    }
}

/// A member that reads as `null` when absent (an arbitrary JSON value).
pub open spec fn any_or_null(j: Json, k: Seq<char>) -> Json {
    match field(j, k) {
        Some(x) => x,
        None => Json::Null,
    }
}

/// Reads a required string member.
pub fn read_req_str(v: &JsonValue, k: &str) -> (r: Option<String>)
    ensures
        opt_view(r) == req_str(v@, k@),
{
    match v.get(k) {
        Some(x) => match x.as_str() {
            Some(s) => Some(s.clone()),
            None => None,
        },
        None => None,
    }
}

/// Reads an optional string member.
pub fn read_opt_str(v: &JsonValue, k: &str) -> (r: Option<Option<String>>)
    ensures
        match r {
            Some(o) => opt_str(v@, k@) == Some(opt_view(o)),
            None => opt_str(v@, k@) is None,
        },
{
    match v.get(k) {
        None => Some(None),
        Some(x) => {
            if x.is_null() {
                Some(None)
            } else {
                match x.as_str() {
                    Some(s) => Some(Some(s.clone())),
                    None => None,
                }
            }
        },
    }
}

/// Reads a required boolean member.
pub fn read_req_bool(v: &JsonValue, k: &str) -> (r: Option<bool>)
    ensures
        r == req_bool(v@, k@),
{
    match v.get(k) {
        Some(x) => x.as_bool(),
        None => None,
    }
}

/// Reads a boolean member that defaults to `false`.
pub fn read_def_bool(v: &JsonValue, k: &str) -> (r: Option<bool>)
    ensures
        r == def_bool(v@, k@),
{
    match v.get(k) {
        Some(x) => x.as_bool(),
        None => Some(false),
    }
}

/// Reads a required integer member within `[lo, hi]`.
pub fn read_req_int(v: &JsonValue, k: &str, lo: i128, hi: i128) -> (r: Option<i128>)
    requires
        -(u64::MAX as int) <= lo,
        hi <= u64::MAX,
    ensures
        match r {
            Some(n) => req_int(v@, k@, lo as int, hi as int) == Some(n as int) && lo <= n <= hi,
            None => req_int(v@, k@, lo as int, hi as int) is None,
        },
{
    match v.get(k) {
        Some(x) => x.int_in(lo, hi),
        None => None,
    }
}

/// Reads an integer member within `[lo, hi]` that defaults to `d`.
pub fn read_def_int(v: &JsonValue, k: &str, lo: i128, hi: i128, d: i128) -> (r: Option<i128>)
    requires
        -(u64::MAX as int) <= lo,
        hi <= u64::MAX,
        lo <= d <= hi,
    ensures
        match r {
            Some(n) => def_int(v@, k@, lo as int, hi as int, d as int) == Some(n as int) && lo <= n <= hi,
            None => def_int(v@, k@, lo as int, hi as int, d as int) is None,
        },
{
    match v.get(k) {
        Some(x) => x.int_in(lo, hi),
        None => Some(d),
    }
}

/// Reads a member as an arbitrary value, `null` when absent.
pub fn read_any_or_null(v: &JsonValue, k: &str) -> (r: JsonValue)
    ensures
        r@ == any_or_null(v@, k@),
{
    match v.get(k) {
        Some(x) => x.deep_clone(),
        None => JsonValue::Null,
    }
}

/// An object entry with a literal key.
pub fn entry(k: &str, v: JsonValue) -> (r: (String, JsonValue))
    ensures
        r.0@ == k@,
        r.1@ == v@,
{
    (string_of(k), v)
}

/// The JSON form of an optional string: the string, or `null`.
pub open spec fn opt_str_json(o: Option<Seq<char>>) -> Json {
    match o {
        Some(s) => Json::Str(s),
        None => Json::Null,
    }
}

/// Writes an optional string as a string or `null`.
pub fn opt_str_value(o: &Option<String>) -> (r: JsonValue)
    ensures
        r@ == opt_str_json(opt_view(*o)),
{
    match o {
        Some(s) => JsonValue::Str(s.clone()),
        None => JsonValue::Null,
    }
}

} // verus!
