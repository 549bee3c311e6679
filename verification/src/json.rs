//! A JSON document model for the Lavalink wire format, and the bridge to the
//! JSON text that the `serde_json` crate reads and writes.

use vstd::prelude::*;
use serde_json::Error as SerdeJsonError;

use crate::error::{Error, ErrorKind, JsonError};
use crate::text::{chars_of, int_of_text, parse_digits, push_decimal, push_signed_decimal, str_eq, string_of, decimal, signed_decimal, all_digits, digits_value};

verus! {

/// A JSON value. A number is kept as the text that the JSON library renders
/// for it (for integers: plain decimal digits), so integers read exactly.
#[derive(Debug)]
pub enum JsonValue {
    Null,
    Bool(bool),
    Number(String),
    Str(String),
    Array(Vec<JsonValue>),
    Object(Vec<(String, JsonValue)>),
}

/// The mathematical model of a [`JsonValue`].
pub enum Json {
    Null,
    Bool(bool),
    Number(Seq<char>),
    Str(Seq<char>),
    Array(Seq<Json>),
    Object(Seq<(Seq<char>, Json)>),
}

impl JsonValue {
    pub open spec fn model(self) -> Json
        decreases self,
    {
        match self {
            JsonValue::Null => Json::Null,
            JsonValue::Bool(b) => Json::Bool(b),
            JsonValue::Number(t) => Json::Number(t@),
            JsonValue::Str(s) => Json::Str(s@),
            JsonValue::Array(a) => Json::Array(
                Seq::new(
                    a@.len(),
                    |i: int|
                        if 0 <= i < a@.len() {
                            a@[i].model()
                        } else {
                            Json::Null
                        },
                ),
            ),
            JsonValue::Object(o) => Json::Object(
                Seq::new(
                    o@.len(),
                    |i: int|
                        if 0 <= i < o@.len() {
                            (o@[i].0@, o@[i].1.model())
                        } else {
                            (Seq::empty(), Json::Null)
                        },
                ),
            ),
        }
    }
}

impl View for JsonValue {
    type V = Json;

    open spec fn view(&self) -> Json {
        self.model()
    }
}

/// The value stored under `key` in a list of object entries: the first
/// entry with that key.
pub open spec fn lookup(entries: Seq<(Seq<char>, Json)>, key: Seq<char>) -> Option<Json>
    decreases entries.len(),
{
    if entries.len() == 0 {
        None
    } else if entries[0].0 == key {
        Some(entries[0].1)
    } else {
        lookup(entries.drop_first(), key)
    }
}

/// The member `key` of a JSON object; `None` for a missing key or a value
/// that is not an object.
pub open spec fn field(j: Json, key: Seq<char>) -> Option<Json> {
    match j {
        Json::Object(entries) => lookup(entries, key),
        _ => None,
    }
}

/// The integer that a JSON number denotes, when it is an integer.
pub open spec fn json_int(j: Json) -> Option<int> {
    match j {
        Json::Number(t) => int_of_text(t),
        _ => None,
    }
}

/// The integer that a JSON value denotes, when it is one within `[lo, hi]`.
pub open spec fn json_int_in(j: Json, lo: int, hi: int) -> Option<int> {
    match json_int(j) {
        Some(v) => if lo <= v <= hi { Some(v) } else { None },
        None => None,
    }
}

/// The entries of an object after setting `key` to `value`: every entry
/// with that key takes the new value, or the pair is appended when none has it.
pub open spec fn upsert(entries: Seq<(Seq<char>, Json)>, key: Seq<char>, value: Json) -> Seq<(Seq<char>, Json)> {
    if exists|i: int| 0 <= i < entries.len() && #[trigger] entries[i].0 == key {
        Seq::new(entries.len(), |i: int| if entries[i].0 == key { (key, value) } else { entries[i] })
    } else {
        entries.push((key, value))
    }
}

/// The model of an integer written in decimal.
pub open spec fn json_number(i: int) -> Json {
    Json::Number(signed_decimal(i))
}

impl JsonValue {
    /// A copy of this value.
    pub fn deep_clone(&self) -> (r: JsonValue)
        ensures
            r@ == self@,
        decreases self,
    {
        match self {
            JsonValue::Null => JsonValue::Null,
            JsonValue::Bool(b) => JsonValue::Bool(*b),
            JsonValue::Number(t) => JsonValue::Number(t.clone()),
            JsonValue::Str(s) => JsonValue::Str(s.clone()),
            JsonValue::Array(a) => {
                let mut out: Vec<JsonValue> = Vec::new();
                let mut i: usize = 0;
                while i < a.len()
                    invariant
                        i <= a.len(),
                        *self == JsonValue::Array(*a),
                        out@.len() == i,
                        forall|k: int| 0 <= k < i ==> (#[trigger] out@[k])@ == a@[k]@,
                    decreases a.len() - i,
                {
                    proof {
                        assert(decreases_to!(*self => (*self)->Array_0));
                        assert(decreases_to!(*a => a@));
                        assert(decreases_to!(a@ => a@[i as int]));
                    }
                    let c = a[i].deep_clone();
                    out.push(c);
                    i = i + 1;
                }
                let r = JsonValue::Array(out);
                assert(r@ == self@) by {
                    if let Json::Array(x) = r@ {
                        if let Json::Array(y) = self@ {
                            assert(x =~= y);
                        }
                    }
                }
                r
            },
            JsonValue::Object(o) => {
                let mut out: Vec<(String, JsonValue)> = Vec::new();
                let mut i: usize = 0;
                while i < o.len()
                    invariant
                        i <= o.len(),
                        *self == JsonValue::Object(*o),
                        out@.len() == i,
                        forall|k: int| 0 <= k < i ==> (#[trigger] out@[k]).0@ == o@[k].0@ && out@[k].1@ == o@[k].1@,
                    decreases o.len() - i,
                {
                    let k = o[i].0.clone();
                    proof {
                        assert(decreases_to!(*self => (*self)->Object_0));
                        assert(decreases_to!(*o => o@));
                        assert(decreases_to!(o@ => o@[i as int]));
                        assert(decreases_to!(o@[i as int] => o@[i as int].1));
                    }
                    let c = o[i].1.deep_clone();
                    out.push((k, c));
                    i = i + 1;
                }
                let r = JsonValue::Object(out);
                assert(r@ == self@) by {
                    if let Json::Object(x) = r@ {
                        if let Json::Object(y) = self@ {
                            assert(x =~= y);
                        }
                    }
                }
                r
            },
        }
    }

    /// The member `key` of this value, when it is an object that has it.
    pub fn get(&self, key: &str) -> (r: Option<&JsonValue>)
        ensures
            match r {
                Some(v) => field(self@, key@) == Some(v@),
                None => field(self@, key@) is None,
            },
    {
        match self {
            JsonValue::Object(o) => {
                let ghost m = match self@ {
                    Json::Object(e) => e,
                    _ => Seq::empty(),
                };
                assert(m.len() == o@.len());
                assert(m.skip(0) =~= m);
                let mut i: usize = 0;
                while i < o.len()
                    invariant
                        i <= o.len(),
                        m.len() == o@.len(),
                        self@ == Json::Object(m),
                        forall|k: int| 0 <= k < o@.len() ==> #[trigger] m[k] == (o@[k].0@, o@[k].1@),
                        lookup(m, key@) == lookup(m.skip(i as int), key@),
                    decreases o.len() - i,
                {
                    let ghost rest = m.skip(i as int);
                    assert(rest[0] == m[i as int]);
                    if str_eq(o[i].0.as_str(), key) {
                        return Some(&o[i].1);
                    }
                    assert(rest.drop_first() =~= m.skip(i + 1));
                    i = i + 1;
                }
                assert(m.skip(i as int).len() == 0);
                None
            },
            _ => None,
        }
    }

    /// The string of a string value.
    pub fn as_str(&self) -> (r: Option<&String>)
        ensures
            match r {
                Some(s) => self@ == Json::Str(s@),
                None => !(self@ is Str),
            },
    {
        match self {
            JsonValue::Str(s) => Some(s),
            _ => None,
        }
    }

    /// The value of a boolean.
    pub fn as_bool(&self) -> (r: Option<bool>)
        ensures
            match r {
                Some(b) => self@ == Json::Bool(b),
                None => !(self@ is Bool),
            },
    {
        match self {
            JsonValue::Bool(b) => Some(*b),
            _ => None,
        }
    }

    /// Whether this value is `null`.
    pub fn is_null(&self) -> (r: bool)
        ensures
            r == (self@ is Null),
    {
        match self {
            JsonValue::Null => true,
            _ => false,
        }
    }

    /// The integer this value denotes, when it is one within `[lo, hi]`.
    pub fn int_in(&self, lo: i128, hi: i128) -> (r: Option<i128>)
        requires
            -(u64::MAX as int) <= lo,
            hi <= u64::MAX,
        ensures
            match r {
                Some(v) => json_int_in(self@, lo as int, hi as int) == Some(v as int),
                None => json_int_in(self@, lo as int, hi as int) is None,
            },
    {
        match self {
            JsonValue::Number(t) => {
                let cs = chars_of(t.as_str());
                if cs.len() > 0 && cs[0] == '-' {
                    assert(cs@.skip(1) =~= cs@.drop_first());
                    match parse_digits(&cs, 1) {
                        Some(m) => {
                            let v: i128 = 0 - m as i128;
                            if lo <= v && v <= hi { Some(v) } else { None }
                        },
                        None => None,
                    }
                } else {
                    assert(cs@.skip(0) =~= cs@);
                    match parse_digits(&cs, 0) {
                        Some(m) => {
                            let v: i128 = m as i128;
                            if lo <= v && v <= hi { Some(v) } else { None }
                        },
                        None => None,
                    }
                }
            },
            _ => None,
        }
    }

    /// The number `n`.
    pub fn from_u64(n: u64) -> (r: JsonValue)
        ensures
            r@ == json_number(n as int),
    {
        let mut s = String::new();
        push_decimal(&mut s, n);
        assert(s@ =~= decimal(n as nat));
        JsonValue::Number(s)
    }

    /// The number `i`.
    pub fn from_i64(i: i64) -> (r: JsonValue)
        ensures
            r@ == json_number(i as int),
    {
        let mut s = String::new();
        push_signed_decimal(&mut s, i);
        assert(s@ =~= signed_decimal(i as int));
        JsonValue::Number(s)
    }

    /// The string `s`.
    pub fn from_str(s: &str) -> (r: JsonValue)
        ensures
            r@ == Json::Str(s@),
    {
        JsonValue::Str(string_of(s))
    }
}

/// The view of a list of object entries.
pub open spec fn entries_model(o: Seq<(String, JsonValue)>) -> Seq<(Seq<char>, Json)> {
    Seq::new(o.len(), |i: int| (o[i].0@, o[i].1@))
}

/// An object made of the given entries, in order.
pub fn object(entries: Vec<(String, JsonValue)>) -> (r: JsonValue)
    ensures
        r@ == Json::Object(entries_model(entries@)),
{
    let r = JsonValue::Object(entries);
    proof {
        if let Json::Object(x) = r@ {
            assert(x =~= entries_model(entries@));
        }
    }
    r
}

/// Sets `key` to `value` in a list of object entries: every entry with that
/// key takes the new value, or the pair is appended when none has it.
pub fn upsert_entry(entries: &mut Vec<(String, JsonValue)>, key: &str, value: &JsonValue)
    ensures
        entries_model(final(entries)@) == upsert(entries_model(old(entries)@), key@, value@),
{
    let ghost m = entries_model(entries@);
    let mut found = false;
    let mut i: usize = 0;
    while i < entries.len()
        invariant
            i <= entries.len(),
            entries@.len() == m.len(),
            m.len() == entries_model(old(entries)@).len(),
            m == entries_model(old(entries)@),
            found == exists|k: int| 0 <= k < i && #[trigger] m[k].0 == key@,
            forall|k: int| 0 <= k < i ==> #[trigger] entries_model(entries@)[k] == (if m[k].0 == key@ { (key@, value@) } else { m[k] }),
            forall|k: int| i <= k < entries@.len() ==> #[trigger] entries@[k] == old(entries)@[k],
        decreases entries.len() - i,
    {
        let ghost prev = entries@;
        assert(m[i as int] == (prev[i as int].0@, prev[i as int].1@));
        if str_eq(entries[i].0.as_str(), key) {
            let e = (string_of(key), value.deep_clone());
            entries.set(i, e);
            found = true;
            assert(m[i as int].0 == key@);
        } else {
            assert(m[i as int].0 != key@);
        }
        proof {
            assert forall|k: int| 0 <= k < i + 1 implies #[trigger] entries_model(entries@)[k] == (if m[k].0 == key@ { (key@, value@) } else { m[k] }) by {
                if k < i {
                    assert(entries@[k] == prev[k]);
                    assert(entries_model(prev)[k] == entries_model(entries@)[k]);
                }
            }
            if found {
                if m[i as int].0 == key@ {
                    assert(exists|k: int| 0 <= k < i + 1 && #[trigger] m[k].0 == key@);
                }
            }
            if exists|k: int| 0 <= k < i + 1 && #[trigger] m[k].0 == key@ {
                let k = choose|k: int| 0 <= k < i + 1 && #[trigger] m[k].0 == key@;
                if k < i {
                    assert(exists|k: int| 0 <= k < i && #[trigger] m[k].0 == key@);
                }
            }
        }
        i = i + 1;
    }
    if !found {
        let ghost prev = entries@;
        assert(!exists|k: int| 0 <= k < m.len() && #[trigger] m[k].0 == key@);
        assert(upsert(m, key@, value@) == m.push((key@, value@)));
        assert(entries_model(prev) =~= m);
        entries.push((string_of(key), value.deep_clone()));
        assert(entries_model(entries@) =~= upsert(m, key@, value@));
    } else {
        assert(exists|k: int| 0 <= k < m.len() && #[trigger] m[k].0 == key@);
        let ghost expect = Seq::new(m.len(), |k: int| if m[k].0 == key@ { (key@, value@) } else { m[k] });
        assert(upsert(m, key@, value@) == expect);
        assert(entries_model(entries@) =~= expect);
    }
}

/// What the JSON library reads from `text`: the model of the document, or
/// `None` where the text is not JSON.
pub uninterp spec fn json_text_model(text: Seq<char>) -> Option<Json>;

/// The JSON text that the JSON library writes for a document.
pub uninterp spec fn json_render(j: Json) -> Seq<char>;

/// Converts a document of the JSON library, variant for variant.
#[verifier::external_body]
fn from_serde(v: serde_json::Value) -> JsonValue {
    match v {
        serde_json::Value::Null => JsonValue::Null,
        serde_json::Value::Bool(b) => JsonValue::Bool(b),
        serde_json::Value::Number(n) => JsonValue::Number(n.to_string()),
        serde_json::Value::String(s) => JsonValue::Str(s),
        serde_json::Value::Array(a) => JsonValue::Array(a.into_iter().map(from_serde).collect()),
        serde_json::Value::Object(o) => JsonValue::Object(o.into_iter().map(|(k, x)| (k, from_serde(x))).collect()),
    }
}

/// Converts to a document of the JSON library, variant for variant (the
/// library keeps an object's members in the order they are inserted); a
/// number text that the library does not read becomes `null`.
#[verifier::external_body]
fn to_serde(v: &JsonValue) -> serde_json::Value {
    match v {
        JsonValue::Null => serde_json::Value::Null,
        JsonValue::Bool(b) => serde_json::Value::Bool(*b),
        JsonValue::Number(t) => t.parse::<serde_json::Number>().map_or(serde_json::Value::Null, serde_json::Value::Number),
        JsonValue::Str(s) => serde_json::Value::String(s.clone()),
        JsonValue::Array(a) => serde_json::Value::Array(a.iter().map(to_serde).collect()),
        JsonValue::Object(o) => serde_json::Value::Object(o.iter().map(|(k, x)| (k.clone(), to_serde(x))).collect()),
    }
}

/// Reads JSON text (`serde_json::from_str` into a `serde_json::Value`,
/// converted variant for variant). The contract names the result: the same
/// text always gives the same document, and an error exactly where the
/// library gives one.
#[verifier::external_body]
pub(crate) fn parse_json(text: &str) -> (r: Result<JsonValue, SerdeJsonError>)
    ensures
        match r {
            Ok(v) => json_text_model(text@) == Some(v@),
            Err(_) => json_text_model(text@) is None,
        },
{
    serde_json::from_str::<serde_json::Value>(text).map(from_serde)
}

/// Writes a document as JSON text (`serde_json::to_string` of the converted
/// `serde_json::Value`, which cannot fail), an object's members in the
/// order of its entries. The contract names the text.
#[verifier::external_body]
pub(crate) fn render_json(v: &JsonValue) -> (r: String)
    ensures
        r@ == json_render(v@),
{
    serde_json::to_string(&to_serde(v)).unwrap_or_default()
}

impl JsonValue {
    /// Reads a JSON document from text; text that is not JSON is a JSON
    /// syntax error, which carries the JSON library's error.
    pub fn from_text(text: &str) -> (r: crate::error::Result<JsonValue>)
        ensures
            match r {
                Ok(v) => json_text_model(text@) == Some(v@),
                Err(e) => json_text_model(text@) is None && e.kind() == ErrorKind::JsonSyntax,
            },
    {
        match parse_json(text) {
            Ok(v) => Ok(v),
            Err(e) => Err(Error::Json(JsonError::Syntax(e))),
        }
    }

    /// This document as JSON text.
    pub fn to_text(&self) -> (r: String)
        ensures
            r@ == json_render(self@),
    {
        render_json(self)
    }
}

/// The document type of the JSON library, converted at the edge.
#[verifier::external_type_specification]
#[verifier::external_body]
pub struct ExSerdeJsonValue(serde_json::Value);

/// The error type of the JSON library, carried as it is.
#[verifier::external_type_specification]
#[verifier::external_body]
pub struct ExSerdeJsonError(SerdeJsonError);

} // verus!

verus! {

/// The value stored under the key at position `i`, when no earlier entry
/// has that key, is the one at `i`.
pub proof fn lemma_lookup_first(entries: Seq<(Seq<char>, Json)>, i: int)
    requires
        0 <= i < entries.len(),
        forall|j: int| 0 <= j < i ==> #[trigger] entries[j].0 != entries[i].0,
    ensures
        lookup(entries, entries[i].0) == Some(entries[i].1),
    decreases i,
{
    if i > 0 {
        let rest = entries.drop_first();
        assert(rest[i - 1] == entries[i]);
        assert(entries[0].0 != entries[i].0);
        assert forall|j: int| 0 <= j < i - 1 implies #[trigger] rest[j].0 != rest[i - 1].0 by {
            assert(rest[j] == entries[j + 1]);
        }
        lemma_lookup_first(rest, i - 1);
    }
}

/// Looking a key up in two lists of entries, one after the other, finds it
/// in the first list, else in the second.
pub proof fn lemma_lookup_concat(a: Seq<(Seq<char>, Json)>, b: Seq<(Seq<char>, Json)>, key: Seq<char>)
    ensures
        lookup(a + b, key) == (if lookup(a, key) is Some { lookup(a, key) } else { lookup(b, key) }),
    decreases a.len(),
{
    if a.len() == 0 {
        assert(a + b =~= b);
    } else {
        assert((a + b).drop_first() =~= a.drop_first() + b);
        assert((a + b)[0] == a[0]);
        lemma_lookup_concat(a.drop_first(), b, key);
    }
}

/// A single entry holds only its own key.
pub proof fn lemma_lookup_single(k: Seq<char>, v: Json, key: Seq<char>)
    ensures
        lookup(seq![(k, v)], key) == (if k == key { Some(v) } else { None::<Json> }),
{
    if k != key {
        assert(seq![(k, v)].drop_first() =~= Seq::<(Seq<char>, Json)>::empty());
        assert(lookup(Seq::<(Seq<char>, Json)>::empty(), key) is None);
    }
}

/// A key that no entry has is not found.
pub proof fn lemma_lookup_absent(entries: Seq<(Seq<char>, Json)>, key: Seq<char>)
    requires
        forall|j: int| 0 <= j < entries.len() ==> #[trigger] entries[j].0 != key,
    ensures
        lookup(entries, key) is None,
    decreases entries.len(),
{
    if entries.len() > 0 {
        let rest = entries.drop_first();
        assert forall|j: int| 0 <= j < rest.len() implies #[trigger] rest[j].0 != key by {
            assert(rest[j] == entries[j + 1]);
        }
        lemma_lookup_absent(rest, key);
    }
}

/// A number written for an integer reads back as that integer.
pub proof fn lemma_json_number(i: int, lo: int, hi: int)
    requires
        lo <= i <= hi,
    ensures
        json_int_in(json_number(i), lo, hi) == Some(i),
{
    crate::text::lemma_int_text_roundtrip(i);
}

} // verus!
