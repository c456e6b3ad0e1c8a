//! JSON values and schema validators of `serde_json` and `jsonschema`, as the
//! schema registry uses them. Values are carried through opaquely; the
//! registry's decisions depend only on what these calls report.
use vstd::prelude::*;
use serde_json::Value;
use jsonschema::Validator;

verus! {

#[verifier::external_type_specification]
#[verifier::external_body]
pub struct ExValue(Value);

#[verifier::external_type_specification]
#[verifier::external_body]
#[verifier::reject_recursive_types(K)]
#[verifier::reject_recursive_types(V)]
pub struct ExJsonMap<K, V>(serde_json::Map<K, V>);

/// A compiled JSON Schema. `jsonschema::Validator` has a type parameter
/// bound by an outside trait, so it cannot be declared as an outside type;
/// it is held here as an opaque field instead.
#[verifier::external_body]
pub struct CompiledSchema {
    validator: Validator,
}

/// The JSON value that a text holds; `None` for text that is not JSON.
pub uninterp spec fn json_text_of(s: Seq<char>) -> Option<Value>;

/// The JSON value that a byte string holds; `None` for bytes that are not JSON.
pub uninterp spec fn json_of(b: Seq<u8>) -> Option<Value>;

/// Whether a JSON value is a schema that compiles.
pub uninterp spec fn schema_compiles(v: Value) -> bool;

/// The compiled form of a schema value.
pub uninterp spec fn compiled_of(v: Value) -> CompiledSchema;

/// The messages of the validation errors of an instance, in order.
pub uninterp spec fn schema_messages(s: CompiledSchema, v: Value) -> Seq<Seq<char>>;

/// Relies on `serde_json::from_str`, which depends on the text alone.
#[verifier::external_body]
pub(crate) fn parse_json_text(s: &str) -> (r: Result<Value, serde_json::Error>)
    ensures
        r is Ok <==> json_text_of(s@) is Some,
        r matches Ok(v) ==> json_text_of(s@) == Some(v),
{
    serde_json::from_str(s)
}

/// Relies on `serde_json::from_slice`, which depends on the bytes alone.
#[verifier::external_body]
pub(crate) fn parse_json_bytes(b: &[u8]) -> (r: Result<Value, serde_json::Error>)
    ensures
        r is Ok <==> json_of(b@) is Some,
        r matches Ok(v) ==> json_of(b@) == Some(v),
{
    serde_json::from_slice(b)
}

/// Relies on `jsonschema::validator_for`, which depends on the schema alone:
/// compiles it, or reports why it cannot.
#[verifier::external_body]
pub(crate) fn compile_schema(schema: &Value) -> (r: Result<CompiledSchema, String>)
    ensures
        r is Ok <==> schema_compiles(*schema),
        r matches Ok(c) ==> c == compiled_of(*schema),
{
    match jsonschema::validator_for(schema) {
        Ok(validator) => Ok(CompiledSchema { validator }),
        Err(e) => Err(e.to_string()),
    }
}

/// Relies on `Validator::iter_errors`: the messages of every validation
/// error of `instance`, in the validator's order; none for a valid instance.
#[verifier::external_body]
pub(crate) fn validation_messages(schema: &CompiledSchema, instance: &Value) -> (r: Vec<String>)
    ensures
        r@.map_values(|m: String| m@) == schema_messages(*schema, *instance),
{
    schema.validator.iter_errors(instance).map(|e| e.to_string()).collect()
}

/// Relies on `Value`'s `Clone`: an equal value.
#[verifier::external_body]
pub(crate) fn clone_value(v: &Value) -> (r: Value)
    ensures
        r == *v,
{
    v.clone()
}

/// Relies on the `Value::Object` variant: takes the map out of an object
/// value; gives any other value back.
#[verifier::external_body]
pub(crate) fn into_object(v: Value) -> (r: Result<serde_json::Map<String, Value>, Value>) {
    match v {
        Value::Object(m) => Ok(m),
        other => Err(other),
    }
}

/// Relies on the `Value::Array` variant: takes the items out of an array
/// value; gives any other value back.
#[verifier::external_body]
pub(crate) fn into_array(v: Value) -> (r: Result<Vec<Value>, Value>) {
    match v {
        Value::Array(items) => Ok(items),
        other => Err(other),
    }
}

/// Relies on `Value::Object`: an object value of the map.
#[verifier::external_body]
pub(crate) fn object_value(m: serde_json::Map<String, Value>) -> (r: Value) {
    Value::Object(m)
}

/// Relies on `Value::Array`: an array value of the items.
#[verifier::external_body]
pub(crate) fn array_value(items: Vec<Value>) -> (r: Value) {
    Value::Array(items)
}

/// Relies on `Value::Bool`: a boolean value.
#[verifier::external_body]
pub(crate) fn bool_value(b: bool) -> (r: Value) {
    Value::Bool(b)
}

/// Relies on `Map::contains_key`.
#[verifier::external_body]
pub(crate) fn map_contains_key(m: &serde_json::Map<String, Value>, key: &str) -> (r: bool) {
    m.contains_key(key)
}

/// Relies on `Map::remove`: takes the entry of `key` out, if any.
#[verifier::external_body]
pub(crate) fn map_remove(m: &mut serde_json::Map<String, Value>, key: &str) -> (r: Option<Value>) {
    m.remove(key)
}

/// Relies on `Map::insert`.
#[verifier::external_body]
pub(crate) fn map_insert(m: &mut serde_json::Map<String, Value>, key: String, v: Value) {
    m.insert(key, v);
}

/// Relies on `Map::keys`: the keys, each copied.
#[verifier::external_body]
pub(crate) fn map_keys(m: &serde_json::Map<String, Value>) -> (r: Vec<String>) {
    m.keys().cloned().collect()
}

/// Relies on `Map::get`.
#[verifier::external_body]
pub(crate) fn map_get<'a>(m: &'a serde_json::Map<String, Value>, key: &str) -> (r: Option<&'a Value>) {
    m.get(key)
}

/// Relies on `Value::as_str`: the text of a string value.
#[verifier::external_body]
pub(crate) fn value_as_str(v: &Value) -> (r: Option<&str>) {
    v.as_str()
}

/// Relies on `Value::as_array`: the items of an array value.
#[verifier::external_body]
pub(crate) fn value_as_array(v: &Value) -> (r: Option<&Vec<Value>>) {
    v.as_array()
}

} // verus!
