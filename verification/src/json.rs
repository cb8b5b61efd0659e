//! The structured document of a snapshot, and its JSON text.
//!
//! The document is built and written by `serde_json`. What is known of
//! that crate's values is stated over `JsonModel`.

use vstd::prelude::*;
use vstd::string::*;
use crate::system_info::{memory_text, uptime_text, SystemInfo, SystemInfoView};

verus! {

/// `serde_json::Value`: a JSON value. Nothing is read from it here.
#[verifier::external_type_specification]
#[verifier::external_body]
pub struct ExJsonValue(serde_json::Value);

/// `serde_json::Error`: what the serializer reports when it fails.
#[verifier::external_type_specification]
#[verifier::external_body]
pub struct ExJsonError(serde_json::Error);

/// `serde_json::Map`: the members of a JSON object.
#[verifier::external_type_specification]
#[verifier::external_body]
#[verifier::reject_recursive_types(K)]
#[verifier::reject_recursive_types(V)]
pub struct ExJsonMap<K, V>(serde_json::Map<K, V>);

/// A JSON object under construction.
pub type JsonObject = serde_json::Map<String, serde_json::Value>;

/// The JSON documents that this library writes: texts, whole numbers, and
/// objects of them.
pub enum JsonModel {
    Text(Seq<char>),
    Number(nat),
    Object(Map<Seq<char>, JsonModel>),
}

/// The document that a `serde_json::Value` holds.
pub uninterp spec fn json_model(value: serde_json::Value) -> JsonModel;

/// The members that a `serde_json::Map` holds, by key.
pub uninterp spec fn json_fields(object: JsonObject) -> Map<Seq<char>, JsonModel>;

/// What `serde_json::to_string_pretty` makes of a document: the text that
/// it writes, or nothing where it fails.
pub uninterp spec fn pretty_json(document: JsonModel) -> Option<Seq<char>>;

/// `Value::from(&str)` makes the string value with the same characters.
#[verifier::external_body]
fn json_text(s: &str) -> (value: serde_json::Value)
    ensures
        json_model(value) == JsonModel::Text(s@),
{
    serde_json::Value::from(s)
}

/// `Value::from(u64)` makes the number value of the same number.
#[verifier::external_body]
fn json_number(n: u64) -> (value: serde_json::Value)
    ensures
        json_model(value) == JsonModel::Number(n as nat),
{
    serde_json::Value::from(n)
}

/// `Map::new` makes a map without members.
#[verifier::external_body]
fn json_object_new() -> (object: JsonObject)
    ensures
        json_fields(object) =~= Map::empty(),
{
    serde_json::Map::new()
}

/// `Map::insert` sets the member of the given key, whether or not the map
/// had one, and leaves the other members as they were.
#[verifier::external_body]
fn json_object_insert(object: &mut JsonObject, key: &str, value: serde_json::Value)
    ensures
        json_fields(*final(object)) == json_fields(*old(object)).insert(key@, json_model(value)),
{
    object.insert(key.to_string(), value);
}

/// `Value::Object` makes the object value with the members of the map.
#[verifier::external_body]
fn json_object(object: JsonObject) -> (value: serde_json::Value)
    ensures
        json_model(value) == JsonModel::Object(json_fields(object)),
{
    serde_json::Value::Object(object)
}

/// `serde_json::to_string_pretty` on a value. The serializer walks the
/// value and writes into memory, and an object's members are written in
/// the order of their keys: whether it succeeds, and the text that it
/// writes, depend on the document alone. Nothing is claimed of the
/// documents on which it fails.
#[verifier::external_body]
fn json_pretty(value: &serde_json::Value) -> (result: Result<String, serde_json::Error>)
    ensures
        match result {
            Ok(text) => pretty_json(json_model(*value)) == Some(text@),
            Err(_) => pretty_json(json_model(*value)) is None,
        },
{
    serde_json::to_string_pretty(value)
}

/// The message of a `serde_json::Error`, as its `Display` writes it.
#[verifier::external_body]
fn json_error_message(error: &serde_json::Error) -> String {
    error.to_string()
}

/// The structured document could not be written.
#[derive(Debug, Clone)]
pub struct JsonError {
    /// What the serializer reported.
    pub message: String,
}

/// The memory part of the structured document: the raw counters in bytes,
/// and the text made of them.
pub open spec fn memory_document(info: SystemInfoView) -> JsonModel {
    JsonModel::Object(
        map![
            "total"@ => JsonModel::Number(info.memory_total),
            "used"@ => JsonModel::Number(info.memory_used),
            "available"@ => JsonModel::Number(info.memory_available),
            "formatted"@ => JsonModel::Text(memory_text(info.memory_used, info.memory_total)),
        ],
    )
}

/// The structured document of a snapshot: every fact under its key, the
/// uptime both in seconds and as text.
pub open spec fn document(info: SystemInfoView) -> JsonModel {
    JsonModel::Object(
        map![
            "username"@ => JsonModel::Text(info.username),
            "hostname"@ => JsonModel::Text(info.hostname),
            "os_name"@ => JsonModel::Text(info.os_name),
            "kernel_version"@ => JsonModel::Text(info.kernel_version),
            "shell"@ => JsonModel::Text(info.shell),
            "terminal"@ => JsonModel::Text(info.terminal),
            "desktop_environment"@ => JsonModel::Text(info.desktop_environment),
            "cpu_info"@ => JsonModel::Text(info.cpu_info),
            "gpu_info"@ => JsonModel::Text(info.gpu_info),
            "memory"@ => memory_document(info),
            "uptime"@ => JsonModel::Number(info.uptime),
            "uptime_formatted"@ => JsonModel::Text(uptime_text(info.uptime)),
        ],
    )
}

/// In the document of any snapshot, the member `uptime` is the number of
/// seconds of which the member `uptime_formatted` is the text.
pub proof fn lemma_uptime_round_trip(info: SystemInfoView)
    ensures
        document(info) matches JsonModel::Object(members) && members.contains_key("uptime"@)
            && members.contains_key("uptime_formatted"@) && members["uptime"@]
            == JsonModel::Number(info.uptime) && members["uptime_formatted"@] == JsonModel::Text(
            uptime_text(info.uptime),
        ),
{
    reveal_strlit("uptime");
    reveal_strlit("uptime_formatted");
    assert("uptime"@.len() != "uptime_formatted"@.len());
}

/// The memory part of the structured document.
fn build_memory_document(info: &SystemInfo) -> (value: serde_json::Value)
    ensures
        json_model(value) == memory_document(info@),
{
    let mut object = json_object_new();
    json_object_insert(&mut object, "total", json_number(info.memory_info.total));
    json_object_insert(&mut object, "used", json_number(info.memory_info.used));
    json_object_insert(&mut object, "available", json_number(info.memory_info.available));
    json_object_insert(&mut object, "formatted", json_text(info.format_memory().as_str()));
    json_object(object)
}

/// The structured document of a snapshot.
fn build_document(info: &SystemInfo) -> (value: serde_json::Value)
    ensures
        json_model(value) == document(info@),
{
    let mut object = json_object_new();
    json_object_insert(&mut object, "username", json_text(info.username.as_str()));
    json_object_insert(&mut object, "hostname", json_text(info.hostname.as_str()));
    json_object_insert(&mut object, "os_name", json_text(info.os_name.as_str()));
    json_object_insert(&mut object, "kernel_version", json_text(info.kernel_version.as_str()));
    json_object_insert(&mut object, "shell", json_text(info.shell.as_str()));
    json_object_insert(&mut object, "terminal", json_text(info.terminal.as_str()));
    json_object_insert(
        &mut object,
        "desktop_environment",
        json_text(info.desktop_environment.as_str()),
    );
    json_object_insert(&mut object, "cpu_info", json_text(info.cpu_info.as_str()));
    json_object_insert(&mut object, "gpu_info", json_text(info.gpu_info.as_str()));
    json_object_insert(&mut object, "memory", build_memory_document(info));
    json_object_insert(&mut object, "uptime", json_number(info.uptime));
    json_object_insert(&mut object, "uptime_formatted", json_text(info.format_uptime().as_str()));
    json_object(object)
}

/// What writing a document comes to: the text that was written, or the
/// serializer's message.
pub fn written(result: Result<String, serde_json::Error>) -> (outcome: Result<String, JsonError>)
    ensures
        match result {
            Ok(text) => outcome == Ok::<String, JsonError>(text),
            Err(_) => outcome is Err,
        },
{
    match result {
        Ok(text) => Ok(text),
        Err(error) => Err(JsonError { message: json_error_message(&error) }),
    }
}

/// The JSON text of the structured document of a snapshot. It is there
/// exactly if the serializer writes that document, and is then the text
/// that the serializer writes for it.
pub fn render_document(info: &SystemInfo) -> (outcome: Result<String, JsonError>)
    ensures
        match outcome {
            Ok(text) => pretty_json(document(info@)) == Some(text@),
            Err(_) => pretty_json(document(info@)) is None,
        },
{
    let value = build_document(info);
    written(json_pretty(&value))
}

} // verus!
