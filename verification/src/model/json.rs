//! The JSON metadata attached to entries: its value model, the schema checks
//! that each entry type imposes on it, and its pretty-printed text.

use serde_json::{Number, Value};
use vstd::prelude::*;

verus! {

/// A JSON number, kept in the three forms a JSON number takes once read.
#[derive(Debug, Clone)]
pub enum JsonNumber {
    /// A non-negative integer.
    PosInt(u64),
    /// A negative integer.
    NegInt(i64),
    /// A number with a fraction or exponent, as its JSON text.
    Float(String),
}

/// A JSON value.
#[derive(Debug)]
pub enum JsonValue {
    Null,
    Bool(bool),
    Number(JsonNumber),
    Str(String),
    Array(Vec<JsonValue>),
    /// The members of an object, in the order they are written.
    Object(Vec<(String, JsonValue)>),
}

/// The kind of value a metadata field holds.
#[derive(Debug, Clone, Copy, PartialEq, Eq, Structural)]
pub enum FieldKind {
    /// A string.
    Text,
    /// An array of strings.
    TextList,
    /// An integer in `0..=u32::MAX`.
    Count,
    /// A count, `null`, or (in object form) absent.
    OptionalCount,
}

// ---------------------------------------------------------------------------
// Reading values
// ---------------------------------------------------------------------------

/// The value of the first member named `name`, if any.
pub open spec fn member(fields: Seq<(String, JsonValue)>, name: Seq<char>) -> Option<JsonValue>
    decreases fields.len(),
{
    if fields.len() == 0 {
        None
    } else if fields[0].0@ == name {
        Some(fields[0].1)
    } else {
        member(fields.drop_first(), name)
    }
}

/// The `status` string of an object value, if it has one.
pub open spec fn status_of(v: JsonValue) -> Option<Seq<char>> {
    match v {
        JsonValue::Object(fields) => match member(fields@, "status"@) {
            Some(JsonValue::Str(s)) => Some(s@),
            _ => None,
        },
        _ => None,
    }
}

/// Whether a number can be read as a `u32` count.
pub open spec fn is_count(n: JsonNumber) -> bool {
    match n {
        JsonNumber::PosInt(u) => u <= u32::MAX,
        JsonNumber::NegInt(i) => 0 <= i <= u32::MAX,
        JsonNumber::Float(_) => false,
    }
}

/// Whether `v` holds a value of kind `k`.
pub open spec fn kind_fits(k: FieldKind, v: JsonValue) -> bool {
    match k {
        FieldKind::Text => v is Str,
        FieldKind::TextList => match v {
            JsonValue::Array(items) => forall|i: int|
                0 <= i < items@.len() ==> (#[trigger] items@[i]) is Str,
            _ => false,
        },
        FieldKind::Count => match v {
            JsonValue::Number(n) => is_count(n),
            _ => false,
        },
        FieldKind::OptionalCount => match v {
            JsonValue::Null => true,
            JsonValue::Number(n) => is_count(n),
            _ => false,
        },
    }
}

/// The view of a static schema table.
pub open spec fn schema_view(s: Seq<(&'static str, FieldKind)>) -> Seq<(Seq<char>, FieldKind)> {
    s.map_values(|f: (&'static str, FieldKind)| (f.0@, f.1))
}

/// Whether `v` can be read as a record with the fields of `schema`: either an
/// object in which every field is present with its kind (an optional count
/// may be absent; other members are ignored), or an array holding exactly one
/// value per field, in order.
pub open spec fn fits_schema(v: JsonValue, schema: Seq<(Seq<char>, FieldKind)>) -> bool {
    match v {
        JsonValue::Object(fields) => forall|i: int|
            0 <= i < schema.len() ==> match member(fields@, (#[trigger] schema[i]).0) {
                Some(x) => kind_fits(schema[i].1, x),
                None => schema[i].1 == FieldKind::OptionalCount,
            },
        JsonValue::Array(items) => items@.len() == schema.len() && forall|i: int|
            0 <= i < schema.len() ==> kind_fits((#[trigger] schema[i]).1, items@[i]),
        _ => false,
    }
}

impl JsonValue {
    /// Whether this value is `null`.
    pub fn is_null(&self) -> (r: bool)
        ensures
            r == (*self is Null),
    {
        match self {
            JsonValue::Null => true,
            _ => false,
        }
    }

    /// The `status` string of an object value, if it has one.
    pub fn status(&self) -> (r: Option<&str>)
        ensures
            match r {
                Some(s) => status_of(*self) == Some(s@),
                None => status_of(*self) is None,
            },
    {
        match self {
            JsonValue::Object(fields) => {
                proof {
                    reveal_strlit("status");
                }
                match find_member(fields, "status") {
                    Some(JsonValue::Str(s)) => Some(s.as_str()),
                    _ => None,
                }
            },
            _ => None,
        }
    }
}

/// The first member of `fields` named `name`.
pub fn find_member<'a>(fields: &'a Vec<(String, JsonValue)>, name: &str) -> (r: Option<
    &'a JsonValue,
>)
    ensures
        match r {
            Some(x) => member(fields@, name@) == Some(*x),
            None => member(fields@, name@) is None,
        },
{
    let mut i: usize = 0;
    assert(fields@.skip(0) =~= fields@);
    while i < fields.len()
        invariant
            i <= fields@.len(),
            member(fields@, name@) == member(fields@.skip(i as int), name@),
        decreases fields@.len() - i,
    {
        let ghost rest = fields@.skip(i as int);
        assert(rest.drop_first() =~= fields@.skip(i + 1));
        if crate::text::same_text(fields[i].0.as_str(), name) {
            return Some(&fields[i].1);
        }
        i = i + 1;
    }
    assert(fields@.skip(i as int).len() == 0);
    None
}

fn number_is_count(n: &JsonNumber) -> (r: bool)
    ensures
        r == is_count(*n),
{
    match n {
        JsonNumber::PosInt(u) => *u <= 4294967295u64,
        JsonNumber::NegInt(i) => 0 <= *i && *i <= 4294967295i64,
        JsonNumber::Float(_) => false,
    }
}

/// Whether `v` holds a value of kind `k`.
pub fn check_kind(k: FieldKind, v: &JsonValue) -> (r: bool)
    ensures
        r == kind_fits(k, *v),
{
    match k {
        FieldKind::Text => matches!(v, JsonValue::Str(_)),
        FieldKind::TextList => match v {
            JsonValue::Array(items) => {
                let mut i: usize = 0;
                while i < items.len()
                    invariant
                        i <= items@.len(),
                        k == FieldKind::TextList,
                        *v == JsonValue::Array(*items),
                        forall|j: int| 0 <= j < i ==> (#[trigger] items@[j]) is Str,
                    decreases items@.len() - i,
                {
                    if !matches!(items[i], JsonValue::Str(_)) {
                        assert(!(items@[i as int] is Str));
                        return false;
                    }
                    i = i + 1;
                }
                true
            },
            _ => false,
        },
        FieldKind::Count => match v {
            JsonValue::Number(n) => number_is_count(n),
            _ => false,
        },
        FieldKind::OptionalCount => match v {
            JsonValue::Null => true,
            JsonValue::Number(n) => number_is_count(n),
            _ => false,
        },
    }
}

/// Whether `v` can be read as a record with the fields of `schema`.
pub fn check_schema(v: &JsonValue, schema: &[(&'static str, FieldKind)]) -> (r: bool)
    ensures
        r == fits_schema(*v, schema_view(schema@)),
{
    let ghost sv = schema_view(schema@);
    assert(sv.len() == schema@.len());
    match v {
        JsonValue::Object(fields) => {
            let mut i: usize = 0;
            while i < schema.len()
                invariant
                    i <= schema@.len(),
                    *v == JsonValue::Object(*fields),
                    sv == schema_view(schema@),
                    sv.len() == schema@.len(),
                    forall|j: int|
                        0 <= j < i ==> match member(fields@, (#[trigger] sv[j]).0) {
                            Some(x) => kind_fits(sv[j].1, x),
                            None => sv[j].1 == FieldKind::OptionalCount,
                        },
                decreases schema@.len() - i,
            {
                let (name, kind) = schema[i];
                assert(sv[i as int] == (name@, kind));
                let ok = match find_member(fields, name) {
                    Some(x) => check_kind(kind, x),
                    None => kind == FieldKind::OptionalCount,
                };
                assert(ok == match member(fields@, sv[i as int].0) {
                    Some(x) => kind_fits(sv[i as int].1, x),
                    None => sv[i as int].1 == FieldKind::OptionalCount,
                });
                if !ok {
                    return false;
                }
                i = i + 1;
            }
            true
        },
        JsonValue::Array(items) => {
            if items.len() != schema.len() {
                return false;
            }
            let mut i: usize = 0;
            while i < schema.len()
                invariant
                    i <= schema@.len(),
                    *v == JsonValue::Array(*items),
                    items@.len() == schema@.len(),
                    sv == schema_view(schema@),
                    sv.len() == schema@.len(),
                    forall|j: int| 0 <= j < i ==> kind_fits((#[trigger] sv[j]).1, items@[j]),
                decreases schema@.len() - i,
            {
                let (name, kind) = schema[i];
                assert(sv[i as int] == (name@, kind));
                if !check_kind(kind, &items[i]) {
                    assert(!kind_fits(sv[i as int].1, items@[i as int]));
                    return false;
                }
                i = i + 1;
            }
            true
        },
        _ => false,
    }
}

// ---------------------------------------------------------------------------
// Pretty-printed text
// ---------------------------------------------------------------------------

#[verifier::external_type_specification]
#[verifier::external_body]
pub struct ExSerdeJsonValue(serde_json::Value);

/// The text that `serde_json::to_string_pretty` writes for the `serde_json`
/// value that `v` stands for.
pub uninterp spec fn json_pretty_of(v: JsonValue) -> Seq<char>;

/// The `serde_json` value that `v` stands for, built variant by variant
/// (calls the `serde_json::Value` constructors, and `str::parse` into
/// `serde_json::Number` for a number kept as text).
///
/// Nothing is claimed of the result: it is only handed to `pretty_json_text`.
#[verifier::external_body]
fn serde_value_of(v: &JsonValue) -> (r: Value) {
    match v {
        JsonValue::Null => Value::Null,
        JsonValue::Bool(b) => Value::Bool(*b),
        JsonValue::Number(JsonNumber::PosInt(n)) => Value::from(*n),
        JsonValue::Number(JsonNumber::NegInt(n)) => Value::from(*n),
        JsonValue::Number(JsonNumber::Float(t)) => {
            t.parse::<Number>().map(Value::Number).unwrap_or_default()
        },
        JsonValue::Str(s) => Value::String(s.clone()),
        JsonValue::Array(items) => Value::Array(items.iter().map(serde_value_of).collect()),
        JsonValue::Object(m) => Value::Object(
            m.iter().map(|(k, x)| (k.clone(), serde_value_of(x))).collect(),
        ),
    }
}

/// The pretty-printed JSON text of `v` (calls `serde_json::to_string_pretty`).
///
/// Claims only that the text is the named `json_pretty_of(v)`: it depends on
/// `v` alone. Its layout (indentation, key order, escapes) is left unsaid;
/// serializing a `serde_json::Value` does not fail, and an error would give
/// the empty text.
#[verifier::external_body]
pub(crate) fn pretty_json_text(v: &JsonValue) -> (r: String)
    ensures
        r@ == json_pretty_of(*v),
{
    serde_json::to_string_pretty(&serde_value_of(v)).unwrap_or_default()
}

/// The model of the `serde_json` value `v`, variant by variant: an integer
/// that fits a `u64` is `PosInt`, another that fits an `i64` is `NegInt`, any
/// other number keeps its text (calls `serde_json::Number::as_u64`, `as_i64`
/// and its `to_string`).
///
/// Nothing is claimed of the result: it is only handed on by `json_from_text`.
#[verifier::external_body]
fn model_of(v: &Value) -> (r: JsonValue) {
    match v {
        Value::Null => JsonValue::Null,
        Value::Bool(b) => JsonValue::Bool(*b),
        Value::Number(n) => JsonValue::Number(match (n.as_u64(), n.as_i64()) {
            (Some(u), _) => JsonNumber::PosInt(u),
            (None, Some(i)) => JsonNumber::NegInt(i),
            (None, None) => JsonNumber::Float(n.to_string()),
        }),
        Value::String(s) => JsonValue::Str(s.clone()),
        Value::Array(items) => JsonValue::Array(items.iter().map(model_of).collect()),
        Value::Object(m) => JsonValue::Object(m.iter().map(|(k, x)| (k.clone(), model_of(x))).collect()),
    }
}

/// The compact text that `serde_json::to_string` writes for the `serde_json`
/// value that `v` stands for.
pub uninterp spec fn json_text_of(v: JsonValue) -> Seq<char>;

/// The compact JSON text of `v` (calls `serde_json::to_string`).
///
/// Claims only that the text is the named `json_text_of(v)`; writing a
/// `serde_json::Value` does not fail, and an error would give the empty text.
#[verifier::external_body]
pub(crate) fn json_text(v: &JsonValue) -> (r: String)
    ensures
        r@ == json_text_of(*v),
{
    serde_json::to_string(&serde_value_of(v)).unwrap_or_default()
}

/// The value that `serde_json::from_str` reads from `text`, modelled; `null`
/// when the text is not JSON.
pub uninterp spec fn json_of_text(text: Seq<char>) -> JsonValue;

/// Reads JSON text into its model (calls `serde_json::from_str` into a
/// `serde_json::Value`), giving `null` for text that is not JSON.
///
/// Claims only that the value is the named `json_of_text(text)`.
#[verifier::external_body]
pub(crate) fn json_from_text(text: &str) -> (r: JsonValue)
    ensures
        r == json_of_text(text@),
{
    model_of(&serde_json::from_str::<Value>(text).unwrap_or_default())
}

} // verus!
