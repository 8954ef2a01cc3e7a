//! A plain JSON tree and the trusted boundary to `serde_json`.
//!
//! Payload text is handed to `serde_json` once; everything after that point
//! works on [`JsonValue`], an owned tree of plain values, and is verified.
//! Numbers keep their decimal rendering as text, so no floating point enters
//! the verified model.

use vstd::prelude::*;

use crate::time::{spec_parse_timestamp, Timestamp};
use crate::time::parse_timestamp;

verus! {

/// A parsed JSON document as plain values.  Object fields keep the order in
/// which `serde_json` hands them out; lookups take the first match.
#[derive(Debug)]
pub enum JsonValue {
    Null,
    Bool(bool),
    /// A number, kept as its decimal rendering.
    Num(String),
    Str(String),
    Arr(Vec<JsonValue>),
    Obj(Vec<(String, JsonValue)>),
}

/// The tree a body parses to, or `None` for text that is not well-formed
/// JSON.  The tree depends on the body text alone.
pub uninterp spec fn json_of(s: Seq<char>) -> Option<JsonValue>;

#[verifier::external_type_specification]
#[verifier::external_body]
pub struct ExJsonRaw(serde_json::Value);

/// Relies on `serde_json::Value`: one arm per variant, moving the payload.
/// Numbers keep `serde_json`'s decimal rendering; objects keep the order the
/// map iterator hands out.  Called only from `parse_json` below.
#[verifier::external_body]
fn json_tree(v: serde_json::Value) -> JsonValue {
    match v {
        serde_json::Value::Null => JsonValue::Null,
        serde_json::Value::Bool(b) => JsonValue::Bool(b),
        serde_json::Value::Number(n) => JsonValue::Num(n.to_string()),
        serde_json::Value::String(s) => JsonValue::Str(s),
        serde_json::Value::Array(a) => JsonValue::Arr(a.into_iter().map(json_tree).collect()),
        serde_json::Value::Object(m) => JsonValue::Obj(
            m.into_iter().map(|p| (p.0, json_tree(p.1))).collect(),
        ),
    }
}

/// Relies on `serde_json::from_str::<serde_json::Value>`: the parse depends
/// on the body text alone; `json_of` names its result as mirrored into
/// [`JsonValue`] by `json_tree`, with `None` for ill-formed JSON.
#[verifier::external_body]
pub fn parse_json(s: &str) -> (r: Option<JsonValue>)
    ensures
        r == json_of(s@),
{
    match serde_json::from_str::<serde_json::Value>(s) {
        Ok(v) => Some(json_tree(v)),
        Err(_) => None,
    }
}

/// Character-wise string equality.
pub fn str_eq(a: &str, b: &str) -> (r: bool)
    ensures
        r == (a@ == b@),
{
    let la = a.unicode_len();
    let lb = b.unicode_len();
    if la != lb {
        proof {
            assert(a@ != b@) by {
                if a@ == b@ {
                    assert(a@.len() == b@.len());
                }
            }
        }
        return false;
    }
    let mut i: usize = 0;
    while i < la
        invariant
            la as nat == a@.len(),
            lb as nat == b@.len(),
            la == lb,
            i <= la,
            forall|j: int| 0 <= j < i ==> a@[j] == b@[j],
        decreases la - i,
    {
        if a.get_char(i) != b.get_char(i) {
            proof {
                assert(a@[i as int] != b@[i as int]);
            }
            return false;
        }
        i += 1;
    }
    proof {
        assert(a@ =~= b@);
    }
    true
}

/// The value under `key` among `fields`, first match first.
pub open spec fn spec_obj_get(fields: Seq<(String, JsonValue)>, key: Seq<char>) -> Option<
    JsonValue,
>
    decreases fields.len(),
{
    if fields.len() == 0 {
        None
    } else if fields[0].0@ == key {
        Some(fields[0].1)
    } else {
        spec_obj_get(fields.drop_first(), key)
    }
}

proof fn lemma_obj_get_step(fields: Seq<(String, JsonValue)>, key: Seq<char>, i: int)
    requires
        0 <= i < fields.len(),
        fields[i].0@ != key,
    ensures
        spec_obj_get(fields.skip(i), key) == spec_obj_get(fields.skip(i + 1), key),
{
    assert(fields.skip(i).drop_first() =~= fields.skip(i + 1));
    assert(fields.skip(i)[0] == fields[i]);
}

/// Looks `key` up among the fields of an object, first match first.
pub fn obj_get<'a>(fields: &'a Vec<(String, JsonValue)>, key: &str) -> (r: Option<&'a JsonValue>)
    ensures
        match r {
            Some(v) => spec_obj_get(fields@, key@) == Some(*v),
            None => spec_obj_get(fields@, key@) is None,
        },
{
    let n = fields.len();
    let mut i: usize = 0;
    proof {
        assert(fields@.skip(0) =~= fields@);
    }
    while i < n
        invariant
            n == fields@.len(),
            i <= n,
            spec_obj_get(fields@, key@) == spec_obj_get(fields@.skip(i as int), key@),
        decreases n - i,
    {
        let p = &fields[i];
        if str_eq(p.0.as_str(), key) {
            proof {
                assert(fields@.skip(i as int)[0] == fields@[i as int]);
            }
            return Some(&p.1);
        }
        proof {
            lemma_obj_get_step(fields@, key@, i as int);
        }
        i += 1;
    }
    proof {
        assert(fields@.skip(n as int) =~= Seq::<(String, JsonValue)>::empty());
    }
    None
}

/// The timestamp under `key`: a string field holding a well-formed inbound
/// timestamp, anything else a failure.
pub open spec fn spec_field_timestamp(fields: Seq<(String, JsonValue)>, key: Seq<char>) -> Option<
    Timestamp,
> {
    match spec_obj_get(fields, key) {
        Some(JsonValue::Str(s)) => spec_parse_timestamp(s@),
        _ => None,
    }
}

pub fn field_timestamp(fields: &Vec<(String, JsonValue)>, key: &str) -> (r: Option<Timestamp>)
    ensures
        r == spec_field_timestamp(fields@, key@),
{
    match obj_get(fields, key) {
        Some(JsonValue::Str(s)) => parse_timestamp(s.as_str()),
        _ => None,
    }
}

/// The number under `key`, as its decimal rendering; anything else a
/// failure.
pub open spec fn spec_field_num(fields: Seq<(String, JsonValue)>, key: Seq<char>) -> Option<
    String,
> {
    match spec_obj_get(fields, key) {
        Some(JsonValue::Num(s)) => Some(s),
        _ => None,
    }
}

pub fn field_num(fields: &Vec<(String, JsonValue)>, key: &str) -> (r: Option<String>)
    ensures
        r == spec_field_num(fields@, key@),
{
    match obj_get(fields, key) {
        Some(JsonValue::Num(s)) => Some(s.clone()),
        _ => None,
    }
}

/// The string under `key`; anything else a failure.
pub open spec fn spec_field_str(fields: Seq<(String, JsonValue)>, key: Seq<char>) -> Option<
    String,
> {
    match spec_obj_get(fields, key) {
        Some(JsonValue::Str(s)) => Some(s),
        _ => None,
    }
}

pub fn field_str(fields: &Vec<(String, JsonValue)>, key: &str) -> (r: Option<String>)
    ensures
        r == spec_field_str(fields@, key@),
{
    match obj_get(fields, key) {
        Some(JsonValue::Str(s)) => Some(s.clone()),
        _ => None,
    }
}

/// An optional string: absent or `null` decodes to no value, a string to
/// that string, anything else is a failure (the outer `None`).
pub open spec fn spec_field_opt_str(fields: Seq<(String, JsonValue)>, key: Seq<char>) -> Option<
    Option<String>,
> {
    match spec_obj_get(fields, key) {
        None => Some(None),
        Some(JsonValue::Null) => Some(None),
        Some(JsonValue::Str(s)) => Some(Some(s)),
        _ => None,
    }
}

pub fn field_opt_str(fields: &Vec<(String, JsonValue)>, key: &str) -> (r: Option<Option<String>>)
    ensures
        r == spec_field_opt_str(fields@, key@),
{
    match obj_get(fields, key) {
        None => Some(None),
        Some(JsonValue::Null) => Some(None),
        Some(JsonValue::Str(s)) => Some(Some(s.clone())),
        _ => None,
    }
}

/// An optional number: absent or `null` decodes to no value, a number to
/// its decimal rendering, anything else is a failure (the outer `None`).
pub open spec fn spec_field_opt_num(fields: Seq<(String, JsonValue)>, key: Seq<char>) -> Option<
    Option<String>,
> {
    match spec_obj_get(fields, key) {
        None => Some(None),
        Some(JsonValue::Null) => Some(None),
        Some(JsonValue::Num(s)) => Some(Some(s)),
        _ => None,
    }
}

pub fn field_opt_num(fields: &Vec<(String, JsonValue)>, key: &str) -> (r: Option<Option<String>>)
    ensures
        r == spec_field_opt_num(fields@, key@),
{
    match obj_get(fields, key) {
        None => Some(None),
        Some(JsonValue::Null) => Some(None),
        Some(JsonValue::Num(s)) => Some(Some(s.clone())),
        _ => None,
    }
}

/// The array under `key`; anything else a failure.
pub open spec fn spec_field_arr(fields: Seq<(String, JsonValue)>, key: Seq<char>) -> Option<
    Seq<JsonValue>,
> {
    match spec_obj_get(fields, key) {
        Some(JsonValue::Arr(a)) => Some(a@),
        _ => None,
    }
}

pub fn field_arr<'a>(fields: &'a Vec<(String, JsonValue)>, key: &str) -> (r: Option<
    &'a Vec<JsonValue>,
>)
    ensures
        match r {
            Some(a) => spec_field_arr(fields@, key@) == Some(a@),
            None => spec_field_arr(fields@, key@) is None,
        },
{
    match obj_get(fields, key) {
        Some(JsonValue::Arr(a)) => Some(a),
        _ => None,
    }
}

} // verus!
