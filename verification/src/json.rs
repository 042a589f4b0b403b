use vstd::prelude::*;

verus! {

#[verifier::external_type_specification]
#[verifier::external_body]
pub struct ExValue(serde_json::Value);

/// The shape of a JSON value, as far as the pipeline reads one: a number
/// carries its decimal display text and, when it is an integer in signed
/// 64-bit range, that integer.
pub ghost enum JsonModel {
    Null,
    Bool(bool),
    Num { text: Seq<char>, int_val: Option<int> },
    Str(Seq<char>),
    Arr(Seq<JsonModel>),
    Obj(Map<Seq<char>, JsonModel>),
}

/// What a parsed JSON value holds; the accessors below are specified over
/// this model, so verified code can follow a value's shape.
pub uninterp spec fn model_of(v: serde_json::Value) -> JsonModel;

/// What parsing a text yields: the model of its JSON value for JSON text,
/// nothing otherwise. Parsing is a function of the text alone.
pub uninterp spec fn spec_json(text: Seq<char>) -> Option<JsonModel>;

/// Relies on serde_json::from_str::<Value>: parses JSON text into a value
/// tree, deterministically, and fails exactly on text that is not JSON.
#[verifier::external_body]
pub(crate) fn parse_value(text: &str) -> (r: Option<serde_json::Value>)
    ensures
        r is Some <==> spec_json(text@) is Some,
        r matches Some(v) ==> Some(model_of(v)) == spec_json(text@),
{
    serde_json::from_str(text).ok()
}

/// Relies on serde_json::Value::get: looks a key up in an object value;
/// a missing key or a non-object value yields nothing.
#[verifier::external_body]
pub(crate) fn get_field<'a>(v: &'a serde_json::Value, key: &str) -> (r: Option<
    &'a serde_json::Value,
>)
    ensures
        model_of(*v) matches JsonModel::Obj(map) ==> (r is Some <==> map.contains_key(key@)),
        model_of(*v) matches JsonModel::Obj(map) ==> (r matches Some(f) ==> model_of(*f)
            == map[key@]),
        !(model_of(*v) is Obj) ==> r is None,
{
    v.get(key)
}

/// Relies on serde_json::Value::as_str: hands the text of a string value
/// back, and nothing for a value of any other kind.
#[verifier::external_body]
pub(crate) fn as_text(v: &serde_json::Value) -> (r: Option<String>)
    ensures
        r is Some <==> model_of(*v) is Str,
        model_of(*v) matches JsonModel::Str(t) ==> (r matches Some(s) ==> s@ == t),
{
    match v.as_str() {
        Some(s) => Some(s.to_owned()),
        None => None,
    }
}

/// Relies on serde_json::Value::as_i64: hands an integer number back, and
/// nothing for a non-number, a fractional number, or one outside the
/// signed 64-bit range.
#[verifier::external_body]
pub(crate) fn as_int(v: &serde_json::Value) -> (r: Option<i64>)
    ensures
        model_of(*v) matches JsonModel::Num { int_val, .. } ==> (r is Some <==> int_val is Some),
        model_of(*v) matches JsonModel::Num { int_val, .. } ==> (r matches Some(n) ==> int_val
            == Some(n as int)),
        !(model_of(*v) is Num) ==> r is None,
{
    v.as_i64()
}

/// Relies on serde_json::Number's display form: hands the decimal text of a
/// number value back, and nothing for a value of any other kind.
#[verifier::external_body]
pub(crate) fn number_text(v: &serde_json::Value) -> (r: Option<String>)
    ensures
        r is Some <==> model_of(*v) is Num,
        model_of(*v) matches JsonModel::Num { text, .. } ==> (r matches Some(s) ==> s@ == text),
{
    match v {
        serde_json::Value::Number(n) => Some(n.to_string()),
        _ => None,
    }
}

/// Relies on serde_json::Value::is_null.
#[verifier::external_body]
pub(crate) fn is_null(v: &serde_json::Value) -> (r: bool)
    ensures
        r == (model_of(*v) is Null),
{
    v.is_null()
}

/// Relies on serde_json::Value::as_array: hands the elements of an array
/// value back in order, and nothing for a value of any other kind.
#[verifier::external_body]
pub(crate) fn as_list<'a>(v: &'a serde_json::Value) -> (r: Option<&'a Vec<serde_json::Value>>)
    ensures
        r is Some <==> model_of(*v) is Arr,
        model_of(*v) matches JsonModel::Arr(items) ==> (r matches Some(l) ==> l@.len()
            == items.len() && (forall|i: int|
            0 <= i < items.len() ==> model_of(#[trigger] l@[i]) == items[i])),
{
    v.as_array()
}

} // verus!
