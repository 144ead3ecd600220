//! JSON documents, as `serde_json` holds them.

use vstd::prelude::*;

verus! {

/// What a JSON value holds.
pub enum JsonModel {
    Null,
    Bool(bool),
    /// A number written without fraction or exponent that 64 bits hold.
    Integer(int),
    /// Any other number, by the bits of its double precision value.
    Float(u64),
    Text(Seq<char>),
    Array(Seq<JsonModel>),
    Object(Map<Seq<char>, JsonModel>),
}

/// `serde_json::Value`.
#[verifier::external_type_specification]
#[verifier::external_body]
pub struct ExValue(serde_json::Value);

/// What a `serde_json::Value` holds.
pub uninterp spec fn json_model(v: serde_json::Value) -> JsonModel;

/// What the JSON document `text` holds, where it is one that `serde_json::from_str` accepts,
/// and what that function says of it where it is not.
pub uninterp spec fn json_value(text: Seq<char>) -> Result<JsonModel, Seq<char>>;

/// The text that `serde_json::to_string` writes for a value.
pub uninterp spec fn json_text(v: JsonModel) -> Seq<char>;

/// Arrays and objects are nested at most `n` deep.
pub open spec fn nested_within(v: JsonModel, n: nat) -> bool
    decreases n,
{
    match v {
        JsonModel::Array(items) => n > 0 && forall|i: int|
            0 <= i < items.len() ==> nested_within(#[trigger] items[i], (n - 1) as nat),
        JsonModel::Object(members) => n > 0 && forall|k: Seq<char>|
            members.contains_key(k) ==> nested_within(#[trigger] members[k], (n - 1) as nat),
        _ => true,
    }
}

/// How deep arrays and objects may be nested in a document that is read.
pub open spec fn max_nesting() -> nat {
    127
}

/// `serde_json::from_str` into a `serde_json::Value`, with the words of its error. What it
/// accepts, what the document holds and what is said of one that is refused is a function of
/// the text; no accepted document is nested deeper than its recursion limit. A key that an
/// object repeats counts with its last value.
#[verifier::external_body]
pub(crate) fn parse_value(text: &str) -> (r: Result<serde_json::Value, String>)
    ensures
        match r {
            Ok(v) => json_value(text@) == Ok::<_, Seq<char>>(json_model(v)) && nested_within(
                json_model(v),
                max_nesting(),
            ),
            Err(fault) => json_value(text@) == Err::<JsonModel, _>(fault@),
        },
{
    serde_json::from_str(text).map_err(|e| e.to_string())
}

/// `Value::to_string` writes a value as compact JSON. What it writes is read back as
/// the same value by `serde_json::from_str`, unless it is nested deeper than the
/// latter's recursion limit.
#[verifier::external_body]
pub(crate) fn value_text(v: &serde_json::Value) -> (text: String)
    ensures
        text@ == json_text(json_model(*v)),
        nested_within(json_model(*v), max_nesting()) ==> (json_value(text@) == Ok::<_, Seq<char>>(
            json_model(*v),
        )),
{
    v.to_string()
}

/// `Value::is_object`.
#[verifier::external_body]
pub(crate) fn is_object(v: &serde_json::Value) -> (r: bool)
    ensures
        r == (json_model(*v) is Object),
{
    v.is_object()
}

/// `Value::is_null`.
#[verifier::external_body]
pub(crate) fn is_null(v: &serde_json::Value) -> (r: bool)
    ensures
        r == (json_model(*v) is Null),
{
    v.is_null()
}

/// `Value::get` with a key gives the member of that name, of an object only.
#[verifier::external_body]
pub(crate) fn member<'a>(v: &'a serde_json::Value, key: &str) -> (r: Option<&'a serde_json::Value>)
    ensures
        match json_model(*v) {
            JsonModel::Object(members) => match r {
                Some(m) => members.contains_key(key@) && members[key@] == json_model(*m),
                None => !members.contains_key(key@),
            },
            _ => r is None,
        },
{
    v.get(key)
}

/// `Value::as_array` gives the items of an array, of nothing else.
#[verifier::external_body]
pub(crate) fn items(v: &serde_json::Value) -> (r: Option<&Vec<serde_json::Value>>)
    ensures
        match json_model(*v) {
            JsonModel::Array(models) => match r {
                Some(all) => all@.map_values(|item: serde_json::Value| json_model(item)) == models,
                None => false,
            },
            _ => r is None,
        },
{
    v.as_array()
}

/// `Value::as_str` gives the text of a string, of nothing else.
#[verifier::external_body]
pub(crate) fn as_text(v: &serde_json::Value) -> (r: Option<&str>)
    ensures
        match json_model(*v) {
            JsonModel::Text(text) => match r {
                Some(s) => s@ == text,
                None => false,
            },
            _ => r is None,
        },
{
    v.as_str()
}

/// `Value::as_i64` gives an integer that an `i64` holds, and of nothing else.
#[verifier::external_body]
pub(crate) fn as_integer(v: &serde_json::Value) -> (r: Option<i64>)
    ensures
        r == match json_model(*v) {
            JsonModel::Integer(n) => if i64::MIN <= n <= i64::MAX {
                Some(n as i64)
            } else {
                None
            },
            _ => None,
        },
{
    v.as_i64()
}

/// `Value::String` holds the text.
#[verifier::external_body]
pub(crate) fn text_value(text: &str) -> (v: serde_json::Value)
    ensures
        json_model(v) == JsonModel::Text(text@),
{
    serde_json::Value::String(text.to_owned())
}

/// `Value::from(i64)` holds the integer.
#[verifier::external_body]
pub(crate) fn integer_value(n: i64) -> (v: serde_json::Value)
    ensures
        json_model(v) == JsonModel::Integer(n as int),
{
    serde_json::Value::from(n)
}

/// `Value::Array` holds the items.
#[verifier::external_body]
pub(crate) fn array_value(all: Vec<serde_json::Value>) -> (v: serde_json::Value)
    ensures
        json_model(v) == JsonModel::Array(
            all@.map_values(|item: serde_json::Value| json_model(item)),
        ),
{
    serde_json::Value::Array(all)
}

/// `Value::Object` of an empty `serde_json::Map`.
#[verifier::external_body]
pub(crate) fn empty_object() -> (v: serde_json::Value)
    ensures
        json_model(v) == JsonModel::Object(Map::empty()),
{
    serde_json::Value::Object(serde_json::Map::new())
}

/// `Map::insert` on the members of an object sets the one of that name and leaves the
/// others as they were.
#[verifier::external_body]
pub(crate) fn set_member(v: &mut serde_json::Value, key: &str, value: serde_json::Value)
    requires
        json_model(*old(v)) is Object,
    ensures
        json_model(*final(v)) == JsonModel::Object(
            json_model(*old(v))->Object_0.insert(key@, json_model(value)),
        ),
{
    if let Some(members) = v.as_object_mut() {
        members.insert(key.to_owned(), value);
    }
}

/// `Map::remove` on the members of an object takes out the one of that name, if there
/// is one, and leaves the others as they were.
#[verifier::external_body]
pub(crate) fn take_member(v: &mut serde_json::Value, key: &str) -> (r: Option<serde_json::Value>)
    requires
        json_model(*old(v)) is Object,
    ensures
        json_model(*final(v)) == JsonModel::Object(json_model(*old(v))->Object_0.remove(key@)),
        match r {
            Some(m) => json_model(*old(v))->Object_0.contains_key(key@) && json_model(
                *old(v),
            )->Object_0[key@] == json_model(m),
            None => !json_model(*old(v))->Object_0.contains_key(key@),
        },
{
    v.as_object_mut().and_then(|members| members.remove(key))
}

// ---- records ----------------------------------------------------------------

/// A document with `count` named fields: an object, or an array that gives the fields in
/// order.
pub open spec fn is_record(v: JsonModel, count: int) -> bool {
    match v {
        JsonModel::Object(_) => true,
        JsonModel::Array(items) => items.len() == count,
        _ => false,
    }
}

/// The field of a record that has the given name and place.
pub open spec fn record_field(v: JsonModel, key: Seq<char>, index: int) -> Option<JsonModel> {
    match v {
        JsonModel::Object(members) => if members.contains_key(key) {
            Some(members[key])
        } else {
            None
        },
        JsonModel::Array(items) => if 0 <= index < items.len() {
            Some(items[index])
        } else {
            None
        },
        _ => None,
    }
}

pub(crate) fn check_record(v: &serde_json::Value, count: usize) -> (r: bool)
    ensures
        r == is_record(json_model(*v), count as int),
{
    match items(v) {
        Some(all) => {
            assert(json_model(*v)->Array_0.len() == all@.len());
            all.len() == count
        },
        None => is_object(v),
    }
}

pub(crate) fn field<'a>(v: &'a serde_json::Value, key: &str, index: usize) -> (r: Option<
    &'a serde_json::Value,
>)
    ensures
        match r {
            Some(m) => record_field(json_model(*v), key@, index as int) == Some(json_model(*m)),
            None => record_field(json_model(*v), key@, index as int) is None,
        },
{
    match items(v) {
        Some(all) => {
            assert(json_model(*v)->Array_0.len() == all@.len());
            if index < all.len() {
                assert(json_model(*v)->Array_0[index as int] == json_model(all@[index as int]));
                Some(&all[index])
            } else {
                None
            }
        },
        None => member(v, key),
    }
}

/// An optional text field: absent or null gives nothing, a string its text; anything else
/// is a fault.
pub open spec fn optional_text(v: Option<JsonModel>) -> Result<Option<Seq<char>>, ()> {
    match v {
        None => Ok(None),
        Some(JsonModel::Null) => Ok(None),
        Some(JsonModel::Text(t)) => Ok(Some(t)),
        _ => Err(()),
    }
}

/// An optional integer field between `low` and `high`.
pub open spec fn optional_integer(v: Option<JsonModel>, low: int, high: int) -> Result<
    Option<int>,
    (),
> {
    match v {
        None => Ok(None),
        Some(JsonModel::Null) => Ok(None),
        Some(JsonModel::Integer(n)) => if low <= n <= high {
            Ok(Some(n))
        } else {
            Err(())
        },
        _ => Err(()),
    }
}

pub(crate) fn read_optional_text(v: Option<&serde_json::Value>) -> (r: Result<Option<String>, ()>)
    ensures
        ({
            let m = match v {
                Some(x) => Some(json_model(*x)),
                None => None,
            };
            match r {
                Ok(Some(t)) => optional_text(m) == Ok::<_, ()>(Some(t@)),
                Ok(None) => optional_text(m) == Ok::<Option<Seq<char>>, ()>(None),
                Err(_) => optional_text(m) is Err,
            }
        }),
{
    match v {
        None => Ok(None),
        Some(x) => if is_null(x) {
            Ok(None)
        } else {
            match as_text(x) {
                Some(t) => Ok(Some(t.to_owned())),
                None => Err(()),
            }
        },
    }
}

pub(crate) fn read_optional_i32(v: Option<&serde_json::Value>) -> (r: Result<Option<i32>, ()>)
    ensures
        ({
            let m = match v {
                Some(x) => Some(json_model(*x)),
                None => None,
            };
            let expected = optional_integer(m, i32::MIN as int, i32::MAX as int);
            match r {
                Ok(Some(n)) => expected == Ok::<_, ()>(Some(n as int)),
                Ok(None) => expected == Ok::<Option<int>, ()>(None),
                Err(_) => expected is Err,
            }
        }),
{
    match v {
        None => Ok(None),
        Some(x) => if is_null(x) {
            Ok(None)
        } else {
            match as_integer(x) {
                Some(n) => if i32::MIN as i64 <= n && n <= i32::MAX as i64 {
                    Ok(Some(n as i32))
                } else {
                    Err(())
                },
                None => Err(()),
            }
        },
    }
}

} // verus!
