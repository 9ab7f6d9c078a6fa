//! The JSON documents that the gateway sends, built and written out by
//! `serde_json`.
//!
//! The documents are built from the same calls that `serde_json` offers to
//! any of its users. What those calls do is not proved here: each of them
//! stands behind a small function of this module whose contract says what
//! is believed of it. What is proved is which document the gateway builds.

use vstd::prelude::*;

verus! {

/// `serde_json::Value`, of which nothing is seen here but what the
/// functions of this module say.
#[verifier::external_type_specification]
#[verifier::external_body]
pub struct ExValue(serde_json::Value);

/// `serde_json::Map`, of which nothing is seen here but what the functions
/// of this module say.
#[verifier::external_type_specification]
#[verifier::external_body]
#[verifier::reject_recursive_types(K)]
#[verifier::reject_recursive_types(V)]
pub struct ExObject<K, V>(serde_json::Map<K, V>);

/// A JSON document, as far as the gateway writes one: a boolean, a whole
/// number, a string, or an object, which has one member for each of its
/// names.
pub enum Json {
    Bool(bool),
    Number(int),
    Text(Seq<char>),
    Object(Map<Seq<char>, Json>),
}

/// The document that a `serde_json::Value` holds.
pub uninterp spec fn document(value: serde_json::Value) -> Json;

/// The members that a `serde_json::Map` holds, each under its name.
pub uninterp spec fn members(object: serde_json::Map<String, serde_json::Value>) -> Map<Seq<char>, Json>;

/// The text that `serde_json` writes for a document in its compact form,
/// which has no white space between the parts. The members of an object
/// are written in the order of their names, which is how `serde_json`
/// keeps them unless it is built with `preserve_order`.
pub uninterp spec fn compact_text(doc: Json) -> Seq<char>;

/// Calls `serde_json::Value::from` on a `bool`. Believed of it: the value
/// holds that boolean.
#[verifier::external_body]
fn value_bool(flag: bool) -> (value: serde_json::Value)
    ensures
        document(value) == Json::Bool(flag),
{
    serde_json::Value::from(flag)
}

/// Calls `serde_json::Value::from` on an `i64`. Believed of it: the value
/// holds that number.
#[verifier::external_body]
fn value_number(number: i64) -> (value: serde_json::Value)
    ensures
        document(value) == Json::Number(number as int),
{
    serde_json::Value::from(number)
}

/// Calls `serde_json::Value::from` on a `&str`. Believed of it: the value
/// holds a string of the same characters.
#[verifier::external_body]
fn value_text(text: &str) -> (value: serde_json::Value)
    ensures
        document(value) == Json::Text(text@),
{
    serde_json::Value::from(text)
}

/// Calls `serde_json::Map::new`. Believed of it: the map has no members.
#[verifier::external_body]
fn object_new() -> (object: serde_json::Map<String, serde_json::Value>)
    ensures
        members(object) == (Map::<Seq<char>, Json>::empty()),
{
    serde_json::Map::new()
}

/// Calls `serde_json::Map::insert`. Believed of it: afterwards the map
/// holds `value` under `name`, in place of what it held under that name
/// before, and its other members are as they were.
#[verifier::external_body]
fn object_insert(
    object: &mut serde_json::Map<String, serde_json::Value>,
    name: &str,
    value: serde_json::Value,
)
    ensures
        members(*final(object)) == members(*old(object)).insert(name@, document(value)),
{
    object.insert(name.to_owned(), value);
}

/// Makes a `serde_json::Value::Object` of a map. Believed of it: the value
/// holds the object with the members of the map.
#[verifier::external_body]
fn value_object(object: serde_json::Map<String, serde_json::Value>) -> (value: serde_json::Value)
    ensures
        document(value) == Json::Object(members(object)),
{
    serde_json::Value::Object(object)
}

/// Calls `to_string` on a `serde_json::Value`. Believed of it: the text
/// is the compact text of the document that the value holds, and the same
/// for every value that holds that document.
#[verifier::external_body]
pub(crate) fn value_to_string(value: &serde_json::Value) -> (text: String)
    ensures
        text@ == compact_text(document(*value)),
{
    value.to_string()
}

/// The document `{"result": true}`, which answers an operation that
/// succeeded without a value to return.
pub open spec fn success_json() -> Json {
    Json::Object(map!["result"@ => Json::Bool(true)])
}

/// The document `{"error": {"code": code, "message": message}}`.
pub open spec fn error_json(code: int, message: Seq<char>) -> Json {
    Json::Object(
        map![
            "error"@ => Json::Object(
                map!["code"@ => Json::Number(code), "message"@ => Json::Text(message)],
            ),
        ],
    )
}

/// The document `{"name": name, "version": version}`, which describes the
/// service.
pub open spec fn index_json(name: Seq<char>, version: Seq<char>) -> Json {
    Json::Object(map!["name"@ => Json::Text(name), "version"@ => Json::Text(version)])
}

/// Builds the document that reports success.
pub fn success_document() -> (value: serde_json::Value)
    ensures
        document(value) == success_json(),
{
    let mut envelope = object_new();
    object_insert(&mut envelope, "result", value_bool(true));
    value_object(envelope)
}

/// Builds the document that reports an error by its code and message.
pub fn error_document(code: i64, message: &str) -> (value: serde_json::Value)
    ensures
        document(value) == error_json(code as int, message@),
{
    let mut detail = object_new();
    object_insert(&mut detail, "code", value_number(code));
    object_insert(&mut detail, "message", value_text(message));
    let mut envelope = object_new();
    object_insert(&mut envelope, "error", value_object(detail));
    value_object(envelope)
}

/// Builds the document that describes the service.
pub fn index_document(name: &str, version: &str) -> (value: serde_json::Value)
    ensures
        document(value) == index_json(name@, version@),
{
    let mut description = object_new();
    object_insert(&mut description, "name", value_text(name));
    object_insert(&mut description, "version", value_text(version));
    value_object(description)
}

} // verus!
