//! JSON documents as a tree, and the field readers that the records are
//! decoded with.

use vstd::prelude::*;
use serde_json::Value;

verus! {

/// A number as it stands in a JSON document.
#[derive(Debug, Clone, Copy, PartialEq, Eq)]
pub enum JsonNumber {
    /// A non-negative integer that fits in 64 bits.
    PosInt(u64),
    /// A negative integer that fits in 64 bits.
    NegInt(i64),
    /// Any other number: one with a fraction or an exponent, or an integer
    /// outside the 64-bit ranges. Its value is not kept: no record reads one.
    Fractional,
}

/// A JSON document as a tree. The members of an object stand in the order in
/// which the parser handed them out.
#[derive(Debug, PartialEq, Eq)]
pub enum Json {
    Null,
    Bool(bool),
    Number(JsonNumber),
    Str(String),
    Array(Vec<Json>),
    Object(Vec<(String, Json)>),
}

/// The value of the first member of `fields` named `key`.
pub open spec fn lookup(fields: Seq<(String, Json)>, key: Seq<char>) -> Option<Json>
    decreases fields.len(),
{
    if fields.len() == 0 {
        None
    } else if fields[0].0@ == key {
        Some(fields[0].1)
    } else {
        lookup(fields.drop_first(), key)
    }
}

/// The value of member `key` of `j`, where `j` is an object that has one.
pub open spec fn member(j: Json, key: Seq<char>) -> Option<Json> {
    match j {
        Json::Object(fields) => lookup(fields@, key),
        _ => None,
    }
}

/// The characters of a string value.
pub open spec fn text_of(v: Option<Json>) -> Option<Seq<char>> {
    match v {
        Some(Json::Str(s)) => Some(s@),
        _ => None,
    }
}

/// The value of an integer.
pub open spec fn integer_of(v: Option<Json>) -> Option<int> {
    match v {
        Some(Json::Number(JsonNumber::PosInt(n))) => Some(n as int),
        Some(Json::Number(JsonNumber::NegInt(n))) => Some(n as int),
        _ => None,
    }
}

/// `v` where it lies in `lo..=hi`.
pub open spec fn within(v: Option<int>, lo: int, hi: int) -> Option<int> {
    match v {
        Some(n) => if lo <= n <= hi {
            Some(n)
        } else {
            None
        },
        None => None,
    }
}

/// The items of an array.
pub open spec fn items_of(v: Option<Json>) -> Option<Seq<Json>> {
    match v {
        Some(Json::Array(items)) => Some(items@),
        _ => None,
    }
}

/// Each item decoded by `f`; `None` where any item does not decode.
pub open spec fn decode_each<T>(items: Seq<Json>, f: spec_fn(Json) -> Option<T>) -> Option<Seq<T>> {
    if forall|i: int| 0 <= i < items.len() ==> (#[trigger] f(items[i])) is Some {
        Some(Seq::new(items.len(), |i: int| f(items[i])->0))
    } else {
        None
    }
}

/// One item that does not decode makes the whole list fail.
pub proof fn lemma_decode_each_fails<T>(items: Seq<Json>, f: spec_fn(Json) -> Option<T>, i: int)
    requires
        0 <= i < items.len(),
        f(items[i]) is None,
    ensures
        decode_each(items, f) is None,
{
}

/// Where every item decodes, the list is the decoded items.
pub proof fn lemma_decode_each_holds<T>(items: Seq<Json>, f: spec_fn(Json) -> Option<T>, out: Seq<T>)
    requires
        out.len() == items.len(),
        forall|k: int| 0 <= k < items.len() ==> #[trigger] f(items[k]) == Some(out[k]),
    ensures
        decode_each(items, f) == Some(out),
{
    assert(Seq::new(items.len(), |i: int| f(items[i])->0) =~= out);
}

/// What an envelope `{ key: payload }` holds: `None` where `j` is no object,
/// `Some(None)` where the payload is absent or null.
pub open spec fn envelope_payload(j: Json, key: Seq<char>) -> Option<Option<Json>> {
    match j {
        Json::Object(fields) => match lookup(fields@, key) {
            Some(Json::Null) => Some(None),
            p => Some(p),
        },
        _ => None,
    }
}

/// Finds member `key` of `j`.
pub fn find_member<'a>(j: &'a Json, key: &str) -> (r: Option<&'a Json>)
    ensures
        match r {
            Some(v) => member(*j, key@) == Some(*v),
            None => member(*j, key@) is None,
        },
{
    match j {
        Json::Object(fields) => {
            let wanted = key.to_owned();
            let mut i: usize = 0;
            assert(fields@.subrange(0, fields@.len() as int) =~= fields@);
            while i < fields.len()
                invariant
                    i <= fields@.len(),
                    wanted@ == key@,
                    member(*j, key@) == lookup(fields@, key@),
                    lookup(fields@, key@) == lookup(
                        fields@.subrange(i as int, fields@.len() as int),
                        key@,
                    ),
                decreases fields@.len() - i,
            {
                let ghost rest = fields@.subrange(i as int, fields@.len() as int);
                if fields[i].0 == wanted {
                    assert(rest[0] == fields@[i as int]);
                    return Some(&fields[i].1);
                }
                assert(rest.drop_first() =~= fields@.subrange(i + 1, fields@.len() as int));
                i = i + 1;
            }
            None
        },
        _ => None,
    }
}

/// The text of member `key` of `j`.
pub fn text_member(j: &Json, key: &str) -> (r: Option<String>)
    ensures
        match r {
            Some(s) => text_of(member(*j, key@)) == Some(s@),
            None => text_of(member(*j, key@)) is None,
        },
{
    match find_member(j, key) {
        Some(Json::Str(s)) => Some(s.clone()),
        _ => None,
    }
}

/// The integer value of member `key` of `j`, where it lies in `0..=max`.
pub fn unsigned_member(j: &Json, key: &str, max: u64) -> (r: Option<u64>)
    ensures
        match r {
            Some(n) => within(integer_of(member(*j, key@)), 0, max as int) == Some(n as int),
            None => within(integer_of(member(*j, key@)), 0, max as int) is None,
        },
{
    match find_member(j, key) {
        Some(Json::Number(JsonNumber::PosInt(n))) => {
            if *n <= max {
                Some(*n)
            } else {
                None
            }
        },
        Some(Json::Number(JsonNumber::NegInt(n))) => {
            if 0 <= *n && (*n as u64) <= max {
                Some(*n as u64)
            } else {
                None
            }
        },
        _ => None,
    }
}

/// The integer value of member `key` of `j`, where it lies in `min..=max`.
pub fn signed_member(j: &Json, key: &str, min: i64, max: i64) -> (r: Option<i64>)
    ensures
        match r {
            Some(n) => within(integer_of(member(*j, key@)), min as int, max as int) == Some(
                n as int,
            ),
            None => within(integer_of(member(*j, key@)), min as int, max as int) is None,
        },
{
    match find_member(j, key) {
        Some(Json::Number(JsonNumber::PosInt(n))) => {
            if 0 <= max && *n <= max as u64 && (min <= 0 || *n >= min as u64) {
                Some(*n as i64)
            } else {
                None
            }
        },
        Some(Json::Number(JsonNumber::NegInt(n))) => {
            if min <= *n && *n <= max {
                Some(*n)
            } else {
                None
            }
        },
        _ => None,
    }
}

/// The items of member `key` of `j`, where it is an array.
pub fn array_member<'a>(j: &'a Json, key: &str) -> (r: Option<&'a Vec<Json>>)
    ensures
        match r {
            Some(items) => items_of(member(*j, key@)) == Some(items@),
            None => items_of(member(*j, key@)) is None,
        },
{
    match find_member(j, key) {
        Some(Json::Array(items)) => Some(items),
        _ => None,
    }
}

/// Opens the envelope `{ key: payload }`: `None` where `j` is no object,
/// `Some(None)` where the payload is absent or null.
pub fn open_envelope<'a>(j: &'a Json, key: &str) -> (r: Option<Option<&'a Json>>)
    ensures
        match r {
            Some(Some(p)) => envelope_payload(*j, key@) == Some(Some(*p)),
            Some(None) => envelope_payload(*j, key@) == Some(None::<Json>),
            None => envelope_payload(*j, key@) is None,
        },
{
    match j {
        Json::Object(_) => match find_member(j, key) {
            Some(Json::Null) => Some(None),
            Some(p) => Some(Some(p)),
            None => Some(None),
        },
        _ => None,
    }
}

/// The tree that serde_json builds from `text`, if `text` is one JSON document.
pub uninterp spec fn json_of_text(text: Seq<char>) -> Option<Json>;

#[verifier::external_type_specification]
#[verifier::external_body]
pub struct ExValue(Value);

/// Relies on serde_json::from_str::<serde_json::Value>: it reads one JSON
/// document, and what it reads depends on the text alone.
#[verifier::external_body]
pub(crate) fn parse_json(text: &str) -> (r: Option<Json>)
    ensures
        r == json_of_text(text@),
{
    serde_json::from_str::<Value>(text).ok().map(json_from_value)
}

/// Converts serde_json's tree into `Json`, variant for variant; Number reads
/// as serde_json::Number::as_u64 and as_i64 tell.
#[verifier::external_body]
fn json_from_value(v: Value) -> Json {
    match v {
        Value::Null => Json::Null,
        Value::Bool(b) => Json::Bool(b),
        Value::Number(n) => Json::Number(match (n.as_u64(), n.as_i64()) {
            (Some(u), _) => JsonNumber::PosInt(u),
            (None, Some(i)) => JsonNumber::NegInt(i),
            (None, None) => JsonNumber::Fractional,
        }),
        Value::String(s) => Json::Str(s),
        Value::Array(a) => Json::Array(a.into_iter().map(json_from_value).collect()),
        Value::Object(m) => Json::Object(m.into_iter().map(|(k, x)| (k, json_from_value(x))).collect()),
    }
}

} // verus!
