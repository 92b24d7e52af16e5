use vstd::prelude::*;

verus! {

/// `serde_json::Value`, carried through as an opaque value. What one holds
/// is spoken of through `json_model` alone.
#[verifier::external_type_specification]
#[verifier::external_body]
pub struct ExJsonValue(serde_json::Value);

/// The mathematical content of a JSON value, as far as this library builds
/// one: no fractional numbers.
pub enum Json {
    Null,
    Bool(bool),
    Number(int),
    Text(Seq<char>),
    List(Seq<Json>),
    Object(Map<Seq<char>, Json>),
}

/// What a `serde_json::Value` holds. The functions below say what it is for
/// the values that they build; of any other value nothing is known.
pub uninterp spec fn json_model(value: serde_json::Value) -> Json;

/// The models of a sequence of values, one for one.
pub open spec fn json_models(values: Seq<serde_json::Value>) -> Seq<Json> {
    Seq::new(values.len(), |i: int| json_model(values[i]))
}

/// `serde_json::Value::Null`.
#[verifier::external_body]
pub(crate) fn json_null() -> (value: serde_json::Value)
    ensures
        json_model(value) == Json::Null,
{
    serde_json::Value::Null
}

/// `serde_json::Value::Bool`.
#[verifier::external_body]
pub(crate) fn json_bool(b: bool) -> (value: serde_json::Value)
    ensures
        json_model(value) == Json::Bool(b),
{
    serde_json::Value::Bool(b)
}

/// `serde_json::Value::from` on a `u64`: the number itself.
#[verifier::external_body]
pub(crate) fn json_unsigned(n: u64) -> (value: serde_json::Value)
    ensures
        json_model(value) == Json::Number(n as int),
{
    serde_json::Value::from(n)
}

/// `serde_json::Value::from` on an `i64`: the number itself.
#[verifier::external_body]
pub(crate) fn json_signed(n: i64) -> (value: serde_json::Value)
    ensures
        json_model(value) == Json::Number(n as int),
{
    serde_json::Value::from(n)
}

/// `serde_json::Value::String`: a JSON string with the given text.
#[verifier::external_body]
pub(crate) fn json_text(text: String) -> (value: serde_json::Value)
    ensures
        json_model(value) == Json::Text(text@),
{
    serde_json::Value::String(text)
}

/// `serde_json::Value::Array`: a JSON array of the given values, in order.
#[verifier::external_body]
pub(crate) fn json_list(items: Vec<serde_json::Value>) -> (value: serde_json::Value)
    ensures
        json_model(value) == Json::List(json_models(items@)),
{
    serde_json::Value::Array(items)
}

/// `serde_json::Value::Object` on `serde_json::Map::new`: the empty object.
#[verifier::external_body]
pub(crate) fn json_empty_object() -> (value: serde_json::Value)
    ensures
        json_model(value) == Json::Object(Map::empty()),
{
    serde_json::Value::Object(serde_json::Map::new())
}

/// Index assignment on a `serde_json::Value` with a string key. On an object
/// it sets the entry under `key`, replacing an earlier one, and leaves the
/// other entries alone. It panics on a value that is neither object nor null,
/// which the precondition leaves out.
#[verifier::external_body]
pub(crate) fn json_set(object: &mut serde_json::Value, key: &str, value: serde_json::Value)
    requires
        json_model(*old(object)) is Object,
    ensures
        json_model(*final(object)) == Json::Object(
            json_model(*old(object))->Object_0.insert(key@, json_model(value)),
        ),
{
    object[key] = value;
}

/// The compact JSON text of a value, as `serde_json` writes it.
pub uninterp spec fn json_rendering(model: Json) -> Seq<char>;

/// `entries` lists the object `model` entry by entry: every key once, with
/// its value, in some order. Of a value that is no object it lists nothing.
pub open spec fn lists(entries: Seq<(Seq<char>, Json)>, model: Json) -> bool {
    match model {
        Json::Object(map) => {
            &&& forall|i: int| 0 <= i < entries.len() ==> map.contains_key(
                (#[trigger] entries[i]).0,
            ) && map[entries[i].0] == entries[i].1
            &&& forall|i: int, j: int|
                0 <= i < j < entries.len() ==> (#[trigger] entries[i]).0 != (#[trigger] entries[j]).0
            &&& forall|key: Seq<char>| #[trigger]
                map.contains_key(key) ==> exists|i: int|
                    0 <= i < entries.len() && (#[trigger] entries[i]).0 == key
        },
        _ => entries.len() == 0,
    }
}

/// The keys and value models of a vector of entries, one for one.
pub open spec fn entry_models(entries: Seq<(String, serde_json::Value)>) -> Seq<(Seq<char>, Json)> {
    Seq::new(entries.len(), |i: int| (entries[i].0@, json_model(entries[i].1)))
}

/// `serde_json::Value::is_object`.
#[verifier::external_body]
pub(crate) fn json_is_object(value: &serde_json::Value) -> (is_object: bool)
    ensures
        is_object == (json_model(*value) is Object),
{
    value.is_object()
}

/// `serde_json::Value::to_string`, through its `Display`: the compact JSON
/// text. An object is written in the order of its keys, so the text depends
/// on what the value holds alone; it is named `json_rendering`. Writing a
/// value to a string cannot fail.
#[verifier::external_body]
pub(crate) fn json_to_string(value: &serde_json::Value) -> (text: String)
    ensures
        text@ == json_rendering(json_model(*value)),
{
    value.to_string()
}

/// `serde_json::Value::as_object` and `serde_json::Map::iter`: copies of the
/// entries of an object, each key once, in the order in which the map walks
/// them, of which nothing is claimed here. A value that is no object has none.
#[verifier::external_body]
pub(crate) fn json_entries(value: &serde_json::Value) -> (entries: Vec<(String, serde_json::Value)>)
    ensures
        lists(entry_models(entries@), json_model(*value)),
{
    match value.as_object() {
        Some(map) => map.iter().map(|(k, v)| (k.clone(), v.clone())).collect(),
        None => Vec::new(),
    }
}

} // verus!
