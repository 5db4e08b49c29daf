//! A JSON document model for the values that the server and the live-response
//! channel exchange, with the accessors that the commands read them through.
//!
//! Parsing and printing JSON text is done by `serde_json`; the model here is
//! what the rest of the library reasons about.

use crate::text::{chars_of, chars_of_string, dec_i64, dec_int, dec_nat, dec_u64, string_of};
use vstd::prelude::*;

verus! {

/// A JSON number as `serde_json` holds it: a non-negative integer, a
/// negative integer, or a finite float kept as the text `serde_json` prints
/// for it.
#[derive(Debug)]
pub enum JsonNumber {
    PosInt(u64),
    NegInt(i64),
    Float(String),
}

/// A JSON value. An object keeps its members in the order `serde_json`
/// iterates them (sorted by key, each key once).
#[derive(Debug)]
pub enum JsonValue {
    Null,
    Bool(bool),
    Number(JsonNumber),
    Str(String),
    Array(Vec<JsonValue>),
    Object(Vec<(String, JsonValue)>),
}

/// The value stored under `key` among `members` (the first such member).
pub open spec fn member_lookup(members: Seq<(String, JsonValue)>, key: Seq<char>) -> Option<
    JsonValue,
>
    decreases members.len(),
{
    if members.len() == 0 {
        None
    } else if members[0].0@ == key {
        Some(members[0].1)
    } else {
        member_lookup(members.drop_first(), key)
    }
}

/// `value[key]` when `value` is an object holding `key` (`Value::get` with a
/// string index).
pub open spec fn json_get(value: JsonValue, key: Seq<char>) -> Option<JsonValue> {
    match value {
        JsonValue::Object(m) => member_lookup(m@, key),
        _ => None,
    }
}

/// The string held by `value` (`Value::as_str`).
pub open spec fn json_str(value: Option<JsonValue>) -> Option<Seq<char>> {
    match value {
        Some(JsonValue::Str(s)) => Some(s@),
        _ => None,
    }
}

/// The boolean held by `value` (`Value::as_bool`).
pub open spec fn json_bool(value: Option<JsonValue>) -> Option<bool> {
    match value {
        Some(JsonValue::Bool(b)) => Some(b),
        _ => None,
    }
}

/// The value as an `i64` (`Value::as_i64`).
pub open spec fn json_i64(value: Option<JsonValue>) -> Option<i64> {
    match value {
        Some(JsonValue::Number(JsonNumber::PosInt(u))) => if u <= i64::MAX as u64 {
            Some(u as i64)
        } else {
            None
        },
        Some(JsonValue::Number(JsonNumber::NegInt(i))) => Some(i),
        _ => None,
    }
}

/// The value as a `u64` (`Value::as_u64`).
pub open spec fn json_u64(value: Option<JsonValue>) -> Option<u64> {
    match value {
        Some(JsonValue::Number(JsonNumber::PosInt(u))) => Some(u),
        _ => None,
    }
}

/// The text `serde_json` prints for a number.
pub open spec fn number_text(n: JsonNumber) -> Seq<char> {
    match n {
        JsonNumber::PosInt(u) => dec_nat(u as nat),
        JsonNumber::NegInt(i) => dec_int(i as int),
        JsonNumber::Float(t) => t@,
    }
}

/// Text of a scalar: a string as is, a number as printed, a boolean as
/// `true`/`false`; nothing for null, arrays and objects.
pub open spec fn scalar_text(value: JsonValue) -> Option<Seq<char>> {
    match value {
        JsonValue::Str(s) => Some(s@),
        JsonValue::Number(n) => Some(number_text(n)),
        JsonValue::Bool(b) => Some(
            if b {
                seq!['t', 'r', 'u', 'e']
            } else {
                seq!['f', 'a', 'l', 's', 'e']
            },
        ),
        _ => None,
    }
}

/// The text of `value[key]` when it is a non-empty scalar, else `default`.
pub open spec fn string_field_spec(value: JsonValue, key: Seq<char>, default: Seq<char>) -> Seq<
    char,
> {
    match json_get(value, key) {
        Some(v) => match scalar_text(v) {
            Some(t) => if t.len() > 0 {
                t
            } else {
                default
            },
            None => default,
        },
        None => default,
    }
}

/// The value reached by following `keys` from `value`, if every key exists.
pub open spec fn json_path(value: JsonValue, keys: Seq<Seq<char>>) -> Option<JsonValue>
    decreases keys.len(),
{
    if keys.len() == 0 {
        Some(value)
    } else {
        match json_get(value, keys[0]) {
            Some(next) => json_path(next, keys.drop_first()),
            None => None,
        }
    }
}

/// The text at the end of `keys` when it is a non-empty scalar, else `default`.
pub open spec fn string_field_nested_spec(
    value: JsonValue,
    keys: Seq<Seq<char>>,
    default: Seq<char>,
) -> Seq<char> {
    match json_path(value, keys) {
        Some(v) => match scalar_text(v) {
            Some(t) => if t.len() > 0 {
                t
            } else {
                default
            },
            None => default,
        },
        None => default,
    }
}

impl JsonValue {
    /// The member stored under `key` when `self` is an object.
    pub fn get(&self, key: &str) -> (r: Option<&JsonValue>)
        ensures
            r matches Some(v) ==> json_get(*self, key@) == Some(*v),
            r is None ==> json_get(*self, key@) is None,
    {
        match self {
            JsonValue::Object(members) => {
                let k = chars_of(key);
                let mut i: usize = 0;
                assert(members@.subrange(0, members@.len() as int) =~= members@);
                while i < members.len()
                    invariant
                        *self == JsonValue::Object(*members),
                        0 <= i <= members@.len(),
                        k@ == key@,
                        member_lookup(members@, key@) == member_lookup(
                            members@.subrange(i as int, members@.len() as int),
                            key@,
                        ),
                    decreases members@.len() - i,
                {
                    let ghost rest = members@.subrange(i as int, members@.len() as int);
                    let name = chars_of_string(&members[i].0);
                    if crate::text::chars_eq(name.as_slice(), k.as_slice()) {
                        assert(rest[0] == members@[i as int]);
                        return Some(&members[i].1);
                    }
                    assert(rest.drop_first() =~= members@.subrange(i + 1, members@.len() as int));
                    i = i + 1;
                }
                None
            },
            _ => None,
        }
    }

    /// The string when `self` is a JSON string.
    pub fn as_str(&self) -> (r: Option<&str>)
        ensures
            r matches Some(s) ==> json_str(Some(*self)) == Some(s@),
            r is None ==> json_str(Some(*self)) is None,
    {
        match self {
            JsonValue::Str(s) => Some(s.as_str()),
            _ => None,
        }
    }

    /// The elements when `self` is an array.
    pub fn as_array(&self) -> (r: Option<&Vec<JsonValue>>)
        ensures
            r matches Some(a) ==> *self == JsonValue::Array(*a),
            r is None ==> !(*self is Array),
    {
        match self {
            JsonValue::Array(a) => Some(a),
            _ => None,
        }
    }

    /// The boolean when `self` is a JSON boolean.
    pub fn as_bool(&self) -> (r: Option<bool>)
        ensures
            r == json_bool(Some(*self)),
    {
        match self {
            JsonValue::Bool(b) => Some(*b),
            _ => None,
        }
    }

    /// The number as an `i64` when it is an integer in range.
    pub fn as_i64(&self) -> (r: Option<i64>)
        ensures
            r == json_i64(Some(*self)),
    {
        match self {
            JsonValue::Number(JsonNumber::PosInt(u)) => {
                if *u <= i64::MAX as u64 {
                    Some(*u as i64)
                } else {
                    None
                }
            },
            JsonValue::Number(JsonNumber::NegInt(i)) => Some(*i),
            _ => None,
        }
    }

    /// The number as a `u64` when it is a non-negative integer.
    pub fn as_u64(&self) -> (r: Option<u64>)
        ensures
            r == json_u64(Some(*self)),
    {
        match self {
            JsonValue::Number(JsonNumber::PosInt(u)) => Some(*u),
            _ => None,
        }
    }
}

/// The text of a number as `serde_json` prints it.
pub fn number_to_chars(n: &JsonNumber) -> (r: Vec<char>)
    ensures
        r@ == number_text(*n),
{
    match n {
        JsonNumber::PosInt(u) => dec_u64(*u),
        JsonNumber::NegInt(i) => dec_i64(*i),
        JsonNumber::Float(t) => chars_of_string(t),
    }
}

/// Text of a string, number or boolean value.
pub fn value_to_string(value: &JsonValue) -> (r: Option<String>)
    ensures
        r matches Some(s) ==> scalar_text(*value) == Some(s@),
        r is None ==> scalar_text(*value) is None,
{
    match value {
        JsonValue::Str(s) => Some(s.clone()),
        JsonValue::Number(n) => {
            let t = number_to_chars(n);
            Some(string_of(t.as_slice()))
        },
        JsonValue::Bool(b) => {
            let t = if *b {
                chars_of("true")
            } else {
                chars_of("false")
            };
            proof {
                reveal_strlit("true");
                reveal_strlit("false");
                if *b {
                    assert(t@ =~= seq!['t', 'r', 'u', 'e']);
                } else {
                    assert(t@ =~= seq!['f', 'a', 'l', 's', 'e']);
                }
            }
            Some(string_of(t.as_slice()))
        },
        _ => None,
    }
}

/// The text of `value[key]` when it is a non-empty string, number or
/// boolean; `default` otherwise.
pub fn string_field(value: &JsonValue, key: &str, default: &str) -> (r: String)
    ensures
        r@ == string_field_spec(*value, key@, default@),
{
    match value.get(key) {
        Some(v) => match value_to_string(v) {
            Some(t) => {
                let tc = chars_of_string(&t);
                if tc.len() > 0 {
                    t
                } else {
                    default.to_owned()
                }
            },
            None => default.to_owned(),
        },
        None => default.to_owned(),
    }
}

/// The text found by following `keys` from `value` when it is a non-empty
/// string, number or boolean; `default` otherwise.
pub fn string_field_nested(value: &JsonValue, keys: &[&str], default: &str) -> (r: String)
    ensures
        r@ == string_field_nested_spec(
            *value,
            Seq::new(keys@.len(), |i: int| keys@[i]@),
            default@,
        ),
{
    let ghost all = Seq::new(keys@.len(), |i: int| keys@[i]@);
    let mut current: &JsonValue = value;
    let mut i: usize = 0;
    assert(all.subrange(0, all.len() as int) =~= all);
    while i < keys.len()
        invariant
            0 <= i <= keys@.len(),
            all == Seq::new(keys@.len(), |i: int| keys@[i]@),
            json_path(*value, all) == json_path(*current, all.subrange(i as int, all.len() as int)),
        decreases keys@.len() - i,
    {
        let ghost rest = all.subrange(i as int, all.len() as int);
        assert(rest[0] == keys@[i as int]@);
        assert(rest.drop_first() =~= all.subrange(i + 1, all.len() as int));
        match current.get(keys[i]) {
            Some(next) => {
                current = next;
            },
            None => {
                return default.to_owned();
            },
        }
        i = i + 1;
    }
    assert(all.subrange(all.len() as int, all.len() as int) =~= Seq::<Seq<char>>::empty());
    match value_to_string(current) {
        Some(t) => {
            let tc = chars_of_string(&t);
            if tc.len() > 0 {
                t
            } else {
                default.to_owned()
            }
        },
        None => default.to_owned(),
    }
}

// ---------------------------------------------------------------------------
// JSON text, through serde_json
// ---------------------------------------------------------------------------

/// What `serde_json` reads from `text`: the value, or the text of the error
/// it reports.
pub uninterp spec fn spec_parse_json(text: Seq<char>) -> Result<JsonValue, Seq<char>>;

/// The compact text that `serde_json` prints for `value`.
pub uninterp spec fn spec_json_text(value: JsonValue) -> Seq<char>;

/// `serde_json::Value`, carried only through the conversion helpers.
#[verifier::external_type_specification]
#[verifier::external_body]
pub struct ExSerdeJsonValue(serde_json::Value);

/// `serde_json::Number`, carried only through the conversion helpers.
#[verifier::external_type_specification]
#[verifier::external_body]
pub struct ExSerdeJsonNumber(serde_json::Number);

/// Copies a `serde_json::Value` into the library's model, one variant for
/// one variant, objects in `serde_json`'s iteration order. Nothing is stated
/// of the result; `parse_json` states what the pair gives.
#[verifier::external_body]
fn from_serde(v: &serde_json::Value) -> JsonValue {
    match v {
        serde_json::Value::Null => JsonValue::Null,
        serde_json::Value::Bool(b) => JsonValue::Bool(*b),
        serde_json::Value::Number(n) => JsonValue::Number(number_from_serde(n)),
        serde_json::Value::String(s) => JsonValue::Str(s.clone()),
        serde_json::Value::Array(a) => JsonValue::Array(a.iter().map(from_serde).collect()),
        serde_json::Value::Object(m) => JsonValue::Object(
            m.iter().map(|(k, v)| (k.clone(), from_serde(v))).collect(),
        ),
    }
}

/// Copies a `serde_json::Number` by the kind `serde_json` stores: a
/// non-negative integer, a negative integer, or a float kept as its text.
#[verifier::external_body]
fn number_from_serde(n: &serde_json::Number) -> JsonNumber {
    match (n.as_u64(), n.as_i64()) {
        (Some(u), _) => JsonNumber::PosInt(u),
        (None, Some(i)) => JsonNumber::NegInt(i),
        (None, None) => JsonNumber::Float(n.to_string()),
    }
}

/// Copies the library's model into a `serde_json::Value`, one variant for
/// one variant. Nothing is stated of the result; `json_text` states what the
/// pair gives.
#[verifier::external_body]
fn to_serde(v: &JsonValue) -> serde_json::Value {
    match v {
        JsonValue::Null => serde_json::Value::Null,
        JsonValue::Bool(b) => serde_json::Value::Bool(*b),
        JsonValue::Number(n) => number_to_serde(n),
        JsonValue::Str(s) => serde_json::Value::String(s.clone()),
        JsonValue::Array(a) => serde_json::Value::Array(a.iter().map(to_serde).collect()),
        JsonValue::Object(m) => serde_json::Value::Object(
            m.iter().map(|(k, v)| (k.clone(), to_serde(v))).collect(),
        ),
    }
}

/// Copies a number of the library's model into `serde_json`; a float is read
/// back from the text it was kept as.
#[verifier::external_body]
fn number_to_serde(n: &JsonNumber) -> serde_json::Value {
    match n {
        JsonNumber::PosInt(u) => serde_json::Value::from(*u),
        JsonNumber::NegInt(i) => serde_json::Value::from(*i),
        JsonNumber::Float(t) => serde_json::from_str(t).unwrap_or(serde_json::Value::Null),
    }
}

/// A parse outcome with the error text taken by its view.
pub open spec fn parsed_view(r: Result<JsonValue, String>) -> Result<JsonValue, Seq<char>> {
    match r {
        Ok(v) => Ok(v),
        Err(e) => Err(e@),
    }
}

/// Parses JSON text (`serde_json::from_str::<serde_json::Value>`). Trusted:
/// the result is the value `serde_json` reads, or the text of the error it
/// reports (its `Display`); the result depends on the text alone.
#[verifier::external_body]
pub(crate) fn parse_json(text: &str) -> (r: Result<JsonValue, String>)
    ensures
        parsed_view(r) == spec_parse_json(text@),
{
    match serde_json::from_str::<serde_json::Value>(text) {
        Ok(v) => Ok(from_serde(&v)),
        Err(e) => Err(e.to_string()),
    }
}

/// Prints a value as compact JSON text (`Display for serde_json::Value`).
/// Trusted: the result is the text `serde_json` prints for the value.
#[verifier::external_body]
pub(crate) fn json_text(value: &JsonValue) -> (r: String)
    ensures
        r@ == spec_json_text(*value),
{
    to_serde(value).to_string()
}

} // verus!
