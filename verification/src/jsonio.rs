//! Trusted access to JSON text, through serde_json.
//!
//! Every function here reads (or writes) JSON text handed over as plain
//! values; what each returns is pinned to an uninterpreted name, so all
//! callers of one name agree on what one text contains.
use vstd::prelude::*;

verus! {

/// What one member of a JSON object looks like to the decoding logic.
#[derive(Clone, Debug)]
pub enum JsonField {
    /// The text is not valid JSON with an object at the top level, or the
    /// requested path does not lead through the expected containers.
    NotObject,
    /// The object has no member of the requested name.
    Absent,
    /// A string member.
    Text(String),
    /// A number member that fits in a `u64`.
    Uint(u64),
    /// A number member that does not fit in a `u64`.
    NumOther,
    /// A null member.
    Null,
    /// A boolean member.
    Bool,
    /// An array member.
    Arr,
    /// An object member.
    Obj,
}

/// The mathematical value of a [`JsonField`].
pub enum JsonFieldV {
    NotObject,
    Absent,
    Text(Seq<char>),
    Uint(u64),
    NumOther,
    Null,
    Bool,
    Arr,
    Obj,
}

impl View for JsonField {
    type V = JsonFieldV;

    open spec fn view(&self) -> JsonFieldV {
        match self {
            JsonField::NotObject => JsonFieldV::NotObject,
            JsonField::Absent => JsonFieldV::Absent,
            JsonField::Text(t) => JsonFieldV::Text(t@),
            JsonField::Uint(u) => JsonFieldV::Uint(*u),
            JsonField::NumOther => JsonFieldV::NumOther,
            JsonField::Null => JsonFieldV::Null,
            JsonField::Bool => JsonFieldV::Bool,
            JsonField::Arr => JsonFieldV::Arr,
            JsonField::Obj => JsonFieldV::Obj,
        }
    }
}

/// Whether the text is valid JSON whose top level is an object.
pub uninterp spec fn json_is_object(s: Seq<char>) -> bool;

/// What the named member of the top-level object of the text holds.
pub uninterp spec fn json_field_of(s: Seq<char>, name: Seq<char>) -> JsonFieldV;

/// What the member `inner` of the object member `name` of the text holds.
pub uninterp spec fn json_field2_of(s: Seq<char>, name: Seq<char>, inner: Seq<char>) -> JsonFieldV;

/// The length of the array member `name` of the text, if it is an array.
pub uninterp spec fn json_array_len_of(s: Seq<char>, name: Seq<char>) -> Option<nat>;

/// What the member `inner` of the object at position `index` of the array
/// member `name` of the text holds.
pub uninterp spec fn json_elem_field_of(
    s: Seq<char>,
    name: Seq<char>,
    index: nat,
    inner: Seq<char>,
) -> JsonFieldV;

/// The serialized form of a JSON object with the given members, in order.
pub uninterp spec fn json_object_text_of(entries: Seq<(Seq<char>, JsonFieldV)>) -> Seq<char>;

/// The mathematical value of a member list handed to the serializer.
pub open spec fn entries_view(entries: Seq<(String, JsonField)>) -> Seq<(Seq<char>, JsonFieldV)> {
    entries.map(|i: int, e: (String, JsonField)| (e.0@, e.1@))
}

#[verifier::external_type_specification]
#[verifier::external_body]
pub struct ExJsonValue(serde_json::Value);

/// Relies on nothing beyond moving fields: tells serde_json::Value's
/// variants apart, one arm each, keeping a string as it is and a number
/// when it fits a `u64`.
#[verifier::external_body]
fn classify_member(v: Option<&serde_json::Value>) -> JsonField {
    match v {
        None => JsonField::Absent,
        Some(serde_json::Value::String(t)) => JsonField::Text(t.clone()),
        Some(serde_json::Value::Number(n)) => match n.as_u64() {
            Some(u) => JsonField::Uint(u),
            None => JsonField::NumOther,
        },
        Some(serde_json::Value::Null) => JsonField::Null,
        Some(serde_json::Value::Bool(_)) => JsonField::Bool,
        Some(serde_json::Value::Array(_)) => JsonField::Arr,
        Some(serde_json::Value::Object(_)) => JsonField::Obj,
    }
}

/// Relies on serde_json::from_str::<Value> and Value::is_object: tells
/// whether the text parses as JSON with an object at the top level.
#[verifier::external_body]
pub fn json_text_is_object(s: &str) -> (r: bool)
    ensures
        r == json_is_object(s@),
{
    match serde_json::from_str::<serde_json::Value>(s) {
        Ok(v) => v.is_object(),
        Err(_) => false,
    }
}

/// Relies on serde_json::from_str::<Value> and serde_json::Map::get: reads
/// one member of the top-level object and reports its kind, keeping a string
/// as it is and a number when it fits a `u64`.
#[verifier::external_body]
pub fn json_field(s: &str, name: &str) -> (r: JsonField)
    ensures
        r@ == json_field_of(s@, name@),
        r is NotObject <==> !json_is_object(s@),
{
    let val: serde_json::Value = match serde_json::from_str(s) {
        Ok(v) => v,
        Err(_) => return JsonField::NotObject,
    };
    let obj = match val.as_object() { Some(o) => o, None => return JsonField::NotObject };
    classify_member(obj.get(name))
}

/// Relies on serde_json::from_str::<Value> and serde_json::Map::get: reads
/// one member of the object member `name` of the top-level object, reporting
/// `NotObject` when the path does not lead through objects.
#[verifier::external_body]
pub fn json_field2(s: &str, name: &str, inner: &str) -> (r: JsonField)
    ensures
        r@ == json_field2_of(s@, name@, inner@),
{
    let val: serde_json::Value = match serde_json::from_str(s) {
        Ok(v) => v,
        Err(_) => return JsonField::NotObject,
    };
    let obj = match val.as_object() { Some(o) => o, None => return JsonField::NotObject };
    let map = match obj.get(name) {
        Some(serde_json::Value::Object(m)) => m, _ => return JsonField::NotObject,
    };
    classify_member(map.get(inner))
}

/// Relies on serde_json::from_str::<Value> and Vec::len: the length of the
/// array member `name` of the top-level object, if there is one.
#[verifier::external_body]
pub fn json_array_len(s: &str, name: &str) -> (r: Option<usize>)
    ensures
        match r {
            Some(l) => json_array_len_of(s@, name@) == Some(l as nat),
            None => json_array_len_of(s@, name@) is None,
        },
{
    let val: serde_json::Value = match serde_json::from_str(s) {
        Ok(v) => v,
        Err(_) => return None,
    };
    let obj = match val.as_object() { Some(o) => o, None => return None };
    match obj.get(name) {
        Some(serde_json::Value::Array(a)) => Some(a.len()),
        _ => None,
    }
}

/// Relies on serde_json::from_str::<Value>, slice indexing and
/// serde_json::Map::get: reads one member of the object at position `index`
/// of the array member `name`, reporting `NotObject` when the path does not
/// lead through an object, an array, and an object again.
#[verifier::external_body]
pub fn json_elem_field(s: &str, name: &str, index: usize, inner: &str) -> (r: JsonField)
    ensures
        r@ == json_elem_field_of(s@, name@, index as nat, inner@),
{
    let val: serde_json::Value = match serde_json::from_str(s) {
        Ok(v) => v,
        Err(_) => return JsonField::NotObject,
    };
    let obj = match val.as_object() { Some(o) => o, None => return JsonField::NotObject };
    let arr = match obj.get(name) {
        Some(serde_json::Value::Array(a)) => a, _ => return JsonField::NotObject,
    };
    let elem = match arr.get(index) {
        Some(serde_json::Value::Object(m)) => m, _ => return JsonField::NotObject,
    };
    classify_member(elem.get(inner))
}

/// Relies on serde_json::Map::insert, Value::from and
/// serde_json::to_string_pretty: serializes an object with the given
/// members in order; a member that is neither text nor a `u64` becomes null.
#[verifier::external_body]
pub fn json_object_pretty(entries: &Vec<(String, JsonField)>) -> (r: String)
    ensures
        r@ == json_object_text_of(entries_view(entries@)),
{
    let mut m = serde_json::Map::new();
    for (k, f) in entries {
        let v = match f {
            JsonField::Text(t) => serde_json::Value::String(t.clone()),
            JsonField::Uint(u) => serde_json::Value::from(*u),
            _ => serde_json::Value::Null,
        };
        m.insert(k.clone(), v);
    }
    serde_json::to_string_pretty(&serde_json::Value::Object(m)).unwrap_or(String::new())
}

} // verus!
