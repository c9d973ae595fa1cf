//! The boundary to `serde_json`: a mathematical view of JSON values, and the
//! accessors that the wire rules use, each stated over that view.
use vstd::prelude::*;

verus! {

/// A JSON document as a mathematical value.
pub enum Json {
    Null,
    Bool(bool),
    Number(JsonNumber),
    Text(Seq<char>),
    Array(Seq<Json>),
    Object(Map<Seq<char>, Json>),
}

/// A JSON number: an integer where it is one, else the bits of its double.
pub enum JsonNumber {
    Unsigned(u64),
    Negative(i64),
    Float(u64),
}

impl Json {
    /// The field `key`, if this is an object that has it.
    pub open spec fn field(self, key: Seq<char>) -> Option<Json> {
        match self {
            Json::Object(fields) => if fields.contains_key(key) {
                Some(fields[key])
            } else {
                None
            },
            _ => None,
        }
    }

    /// The text of a JSON string.
    pub open spec fn text(self) -> Option<Seq<char>> {
        match self {
            Json::Text(text) => Some(text),
            _ => None,
        }
    }

    /// The elements of a JSON array.
    pub open spec fn elements(self) -> Option<Seq<Json>> {
        match self {
            Json::Array(elements) => Some(elements),
            _ => None,
        }
    }

    /// The value of a JSON boolean.
    pub open spec fn boolean(self) -> Option<bool> {
        match self {
            Json::Bool(b) => Some(b),
            _ => None,
        }
    }

    /// The value of a JSON number that is an unsigned integer.
    pub open spec fn unsigned(self) -> Option<u64> {
        match self {
            Json::Number(JsonNumber::Unsigned(n)) => Some(n),
            _ => None,
        }
    }
}

/// `serde_json::Value`, opaque; see [`json`] for what it holds.
#[verifier::external_type_specification]
#[verifier::external_body]
pub struct ExValue(serde_json::Value);

/// `serde_json::Map`, opaque; see [`fields`] for what it holds.
#[verifier::external_type_specification]
#[verifier::external_body]
#[verifier::reject_recursive_types(K)]
#[verifier::reject_recursive_types(V)]
pub struct ExMap<K, V>(serde_json::Map<K, V>);

/// What a `serde_json::Value` holds.
pub uninterp spec fn json(value: serde_json::Value) -> Json;

/// What a `serde_json::Map` of values holds.
pub uninterp spec fn fields(map: serde_json::Map<String, serde_json::Value>) -> Map<Seq<char>, Json>;

/// What a sequence of `serde_json` values holds.
pub open spec fn jsons(values: Seq<serde_json::Value>) -> Seq<Json> {
    values.map_values(|value: serde_json::Value| json(value))
}

/// The fields of an empty object.
pub open spec fn no_fields() -> Map<Seq<char>, Json> {
    Map::empty()
}

/// `serde_json::Error`, opaque: why a text is not a JSON document.
#[verifier::external_type_specification]
#[verifier::external_body]
pub struct ExError(serde_json::Error);

/// The document that `serde_json` reads from a text, if it is one.
pub uninterp spec fn document(text: Seq<char>) -> Option<Json>;

/// The most characters of a text that is parsed: the digits of a number are counted
/// in a signed 32-bit number.
pub const MAX_DOCUMENT_CHARS: usize = 0x7fff_ffff;

/// `serde_json::from_str` into a `serde_json::Value`: the document of the text,
/// and an error where it is none. Longer texts are left out: counting their digits
/// may overflow.
#[verifier::external_body]
pub(crate) fn parse(text: &str) -> (parsed: Result<serde_json::Value, serde_json::Error>)
    requires
        text@.len() <= MAX_DOCUMENT_CHARS,
    ensures
        parsed is Ok <==> document(text@) is Some,
        parsed matches Ok(value) ==> document(text@) == Some(json(value)),
{
    serde_json::from_str(text)
}

/// `serde_json::Value::get` with a string index: the field of that name of an
/// object, and `None` for a missing field or any other kind of value.
#[verifier::external_body]
pub(crate) fn get<'a>(value: &'a serde_json::Value, key: &str) -> (found: Option<&'a serde_json::Value>)
    ensures
        found is Some <==> json(*value).field(key@) is Some,
        found matches Some(found) ==> json(*value).field(key@) == Some(json(*found)),
{
    value.get(key)
}

/// `serde_json::Map::get`: the field of that name.
#[verifier::external_body]
pub(crate) fn map_get<'a>(
    map: &'a serde_json::Map<String, serde_json::Value>,
    key: &str,
) -> (found: Option<&'a serde_json::Value>)
    ensures
        found is Some <==> fields(*map).contains_key(key@),
        found matches Some(found) ==> fields(*map)[key@] == json(*found),
{
    map.get(key)
}

/// `serde_json::Value::as_str`: the text of a JSON string.
#[verifier::external_body]
pub(crate) fn as_str<'a>(value: &'a serde_json::Value) -> (text: Option<&'a str>)
    ensures
        text is Some <==> json(*value).text() is Some,
        text matches Some(text) ==> json(*value).text() == Some(text@),
{
    value.as_str()
}

/// `serde_json::Value::as_bool`: the value of a JSON boolean.
#[verifier::external_body]
pub(crate) fn as_bool(value: &serde_json::Value) -> (boolean: Option<bool>)
    ensures
        boolean == json(*value).boolean(),
{
    value.as_bool()
}

/// `serde_json::Value::as_u64`: the number, where it is an unsigned integer.
#[verifier::external_body]
pub(crate) fn as_u64(value: &serde_json::Value) -> (number: Option<u64>)
    ensures
        number == json(*value).unsigned(),
{
    value.as_u64()
}

/// The bits of the double nearest to a JSON number.
pub uninterp spec fn double_bits(number: JsonNumber) -> u64;

/// `serde_json::Value::as_f64`, by its bits: every JSON number has a double,
/// its own bits where it is kept as one, and no other value has any.
#[verifier::external_body]
pub(crate) fn as_double_bits(value: &serde_json::Value) -> (bits: Option<u64>)
    ensures
        bits is Some <==> json(*value) is Number,
        bits matches Some(bits) ==> {
            &&& bits == double_bits(json(*value)->Number_0)
            &&& json(*value)->Number_0 matches JsonNumber::Float(own) ==> bits == own
        },
{
    value.as_f64().map(|double| double.to_bits())
}

/// `serde_json::Value::as_array`: the elements of a JSON array.
#[verifier::external_body]
pub(crate) fn as_array<'a>(value: &'a serde_json::Value) -> (elements: Option<
    &'a Vec<serde_json::Value>,
>)
    ensures
        elements is Some <==> json(*value) is Array,
        elements matches Some(elements) ==> json(*value) == Json::Array(jsons(elements@)),
{
    value.as_array()
}

/// `serde_json::Value::is_object`.
#[verifier::external_body]
pub(crate) fn is_object(value: &serde_json::Value) -> (object: bool)
    ensures
        object == (json(*value) is Object),
{
    value.is_object()
}

/// `serde_json::Value::as_object_mut`: the fields of an object, through which
/// they can be changed, and `None` for any other kind of value.
#[verifier::external_body]
pub(crate) fn object_mut(value: &mut serde_json::Value) -> (found: Option<
    &mut serde_json::Map<String, serde_json::Value>,
>)
    ensures
        found is Some <==> json(*old(value)) is Object,
        found matches Some(map) ==> {
            &&& json(*old(value)) == Json::Object(fields(*map))
            &&& json(*final(value)) == Json::Object(fields(*final(map)))
        },
        found is None ==> *final(value) == *old(value),
{
    value.as_object_mut()
}

/// `serde_json::Map::insert`: sets the field, replacing an earlier value.
#[verifier::external_body]
pub(crate) fn insert(
    map: &mut serde_json::Map<String, serde_json::Value>,
    key: &str,
    value: serde_json::Value,
)
    ensures
        fields(*final(map)) == fields(*old(map)).insert(key@, json(value)),
{
    map.insert(key.to_owned(), value);
}

/// `serde_json::Map::remove`: drops the field, if there is one.
#[verifier::external_body]
pub(crate) fn remove(map: &mut serde_json::Map<String, serde_json::Value>, key: &str)
    ensures
        fields(*final(map)) == fields(*old(map)).remove(key@),
{
    map.remove(key);
}

/// `serde_json::Value::from` of a `usize`: the unsigned integer.
#[verifier::external_body]
pub(crate) fn from_usize(n: usize) -> (value: serde_json::Value)
    ensures
        json(value) == Json::Number(JsonNumber::Unsigned(n as u64)),
{
    serde_json::Value::from(n)
}

/// `serde_json::Value::from` of a `bool`.
#[verifier::external_body]
pub(crate) fn from_bool(b: bool) -> (value: serde_json::Value)
    ensures
        json(value) == Json::Bool(b),
{
    serde_json::Value::from(b)
}

/// `serde_json::Value::from` of a `&str`: the JSON string.
#[verifier::external_body]
pub(crate) fn from_str(text: &str) -> (value: serde_json::Value)
    ensures
        json(value) == Json::Text(text@),
{
    serde_json::Value::from(text)
}

/// `serde_json::Map::new`: no fields.
#[verifier::external_body]
pub(crate) fn new_map() -> (map: serde_json::Map<String, serde_json::Value>)
    ensures
        fields(map) == no_fields(),
{
    serde_json::Map::new()
}

/// `serde_json::Value::from` of a `serde_json::Map`: the object of its fields.
#[verifier::external_body]
pub(crate) fn from_map(map: serde_json::Map<String, serde_json::Value>) -> (value: serde_json::Value)
    ensures
        json(value) == Json::Object(fields(map)),
{
    serde_json::Value::from(map)
}

/// `serde_json::Value::from` of a `Vec` of values: the array of them.
#[verifier::external_body]
pub(crate) fn from_vec(values: Vec<serde_json::Value>) -> (value: serde_json::Value)
    ensures
        json(value) == Json::Array(jsons(values@)),
{
    serde_json::Value::from(values)
}

/// The object of one text field.
pub(crate) fn singleton(key: &str, text: &str) -> (value: serde_json::Value)
    ensures
        json(value) == Json::Object(
            no_fields().insert(key@, Json::Text(text@)),
        ),
{
    let mut map = new_map();
    insert(&mut map, key, from_str(text));
    from_map(map)
}

} // verus!
