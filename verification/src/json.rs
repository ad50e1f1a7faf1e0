//! JSON values and objects, as `serde_json` holds them.
//!
//! A `serde_json::Value` is a container: [`json_content`] names what one holds, and
//! [`fields_content`] what an object's members are. Everything that the library does to
//! such a value goes through the functions below, whose contracts say over those two names
//! what `serde_json` does.
use serde::de::Unexpected;
use serde_json::Value;
use vstd::prelude::*;

verus! {

/// The members of a JSON object, by name.
pub type Fields = serde_json::Map<String, Value>;

#[verifier::external_type_specification]
#[verifier::external_body]
pub struct ExValue(serde_json::Value);

#[verifier::external_type_specification]
#[verifier::external_body]
#[verifier::reject_recursive_types(K)]
#[verifier::reject_recursive_types(V)]
pub struct ExMap<K, V>(serde_json::Map<K, V>);

/// What a JSON value holds.
#[verifier::ext_equal]
pub enum Json {
    Null,
    Bool(bool),
    /// A number that is held as an integer.
    Integer(int),
    /// A number that is held as a float, by its bits.
    Float(u64),
    Text(Seq<char>),
    Array(Seq<Json>),
    Object(Map<Seq<char>, Json>),
}

/// The members of an object that has none.
pub open spec fn no_members() -> Map<Seq<char>, Json> {
    Map::empty()
}

/// What a `serde_json::Value` holds.
pub uninterp spec fn json_content(value: Value) -> Json;

/// What a `serde_json::Map` maps each name to.
pub uninterp spec fn fields_content(fields: Fields) -> Map<Seq<char>, Json>;

/// The compact text that `serde_json` writes for a value. Objects are written in the order
/// of their names, so the text depends on what the value holds and on nothing else. That is so
/// where `serde_json` is built without its feature `preserve_order`, as it is here; with it, the
/// text would depend on the order in which members were put in too.
pub uninterp spec fn json_text(content: Json) -> Seq<char>;

/// What `serde_json` reads a text as, or, where it refuses it, the debug rendering of its error.
pub uninterp spec fn json_parsed(text: Seq<char>) -> Result<Json, Seq<char>>;

/// What the error of `serde_json` displays where a value is of another type than expected.
pub uninterp spec fn invalid_type_text(found: Json, expected: Seq<char>) -> Seq<char>;

/// `serde_json::Value::String`: a value that holds the text.
#[verifier::external_body]
pub(crate) fn text_value(text: String) -> (value: Value)
    ensures
        json_content(value) == Json::Text(text@),
{
    Value::String(text)
}

/// `serde_json::Value::Bool`: a value that holds the truth value.
#[verifier::external_body]
pub(crate) fn bool_value(flag: bool) -> (value: Value)
    ensures
        json_content(value) == Json::Bool(flag),
{
    Value::Bool(flag)
}

/// `serde_json::Value::from` on an `i64`: a value that holds the number as an integer.
#[verifier::external_body]
pub(crate) fn i64_value(number: i64) -> (value: Value)
    ensures
        json_content(value) == Json::Integer(number as int),
{
    Value::from(number)
}

/// `serde_json::Value::from` on a `u64`: a value that holds the number as an integer.
#[verifier::external_body]
pub(crate) fn u64_value(number: u64) -> (value: Value)
    ensures
        json_content(value) == Json::Integer(number as int),
{
    Value::from(number)
}

/// `serde_json::Value::Object`: a value that holds the members.
#[verifier::external_body]
pub(crate) fn object_value(fields: Fields) -> (value: Value)
    ensures
        json_content(value) == Json::Object(fields_content(fields)),
{
    Value::Object(fields)
}

/// Tells a `serde_json::Value::String` from the other variants: its text, or the value
/// unchanged where it is another.
#[verifier::external_body]
pub(crate) fn into_text(value: Value) -> (res: Result<String, Value>)
    ensures
        match res {
            Ok(text) => json_content(value) == Json::Text(text@),
            Err(other) => other == value && json_content(value) !is Text,
        },
{
    match value {
        Value::String(text) => Ok(text),
        other => Err(other),
    }
}

/// Tells a `serde_json::Value::Object` from the other variants: its members, or `None`
/// where it is another.
#[verifier::external_body]
pub(crate) fn as_fields(value: &Value) -> (res: Option<&Fields>)
    ensures
        match res {
            Some(fields) => json_content(*value) == Json::Object(fields_content(*fields)),
            None => json_content(*value) !is Object,
        },
{
    match value {
        Value::Object(fields) => Some(fields),
        _ => None,
    }
}

/// `serde_json::Value::clone`: a value that holds the same.
#[verifier::external_body]
pub(crate) fn copied_value(value: &Value) -> (copy: Value)
    ensures
        json_content(copy) == json_content(*value),
{
    value.clone()
}

/// `serde_json::Value::to_string`: the compact text of the value.
#[verifier::external_body]
pub(crate) fn value_text(value: &Value) -> (text: String)
    ensures
        text@ == json_text(json_content(*value)),
{
    value.to_string()
}

/// `serde_json::from_str`: the value that a text is read as, or the debug rendering of the error
/// where it is refused. Both depend on the text alone.
#[verifier::external_body]
pub(crate) fn parse_value(text: &str) -> (res: Result<Value, String>)
    ensures
        match res {
            Ok(value) => json_parsed(text@) == Ok::<Json, Seq<char>>(json_content(value)),
            Err(error) => json_parsed(text@) == Err::<Json, Seq<char>>(error@),
        },
{
    serde_json::from_str(text).map_err(|e: serde_json::Error| format!("{e:?}"))
}

/// `serde_json::Error::invalid_type`: what the error displays for a value of a type that was
/// not expected. The error names the type, and for a plain value the value too; the match only
/// puts each variant as the one of `serde::de::Unexpected` that stands for it.
#[verifier::external_body]
pub(crate) fn invalid_type(value: &Value, expected: &str) -> (text: String)
    ensures
        text@ == invalid_type_text(json_content(*value), expected@),
{
    let found = match value {
        Value::Null => Unexpected::Unit,
        Value::Bool(flag) => Unexpected::Bool(*flag),
        Value::Number(n) => n.as_u64().map(Unexpected::Unsigned)
            .or(n.as_i64().map(Unexpected::Signed))
            .or(n.as_f64().map(Unexpected::Float)).unwrap_or(Unexpected::Other("number")),
        Value::String(text) => Unexpected::Str(text),
        Value::Array(_) => Unexpected::Seq,
        Value::Object(_) => Unexpected::Map,
    };
    <serde_json::Error as serde::de::Error>::invalid_type(found, &expected).to_string()
}

/// `serde_json::Value::get` with a name: the member of that name, or `None` where there is
/// none or the value is no object.
#[verifier::external_body]
pub(crate) fn member<'a>(value: &'a Value, name: &str) -> (res: Option<&'a Value>)
    ensures
        match res {
            Some(found) => json_content(*value) matches Json::Object(members)
                && members.contains_key(name@) && json_content(*found) == members[name@],
            None => json_content(*value) matches Json::Object(members) ==> !members.contains_key(
                name@,
            ),
        },
{
    value.get(name)
}

/// `serde_json::Map::new`: an object without members.
#[verifier::external_body]
pub(crate) fn no_fields() -> (fields: Fields)
    ensures
        fields_content(fields) == no_members(),
{
    Fields::new()
}

/// `serde_json::Map::is_empty`: whether there are no members.
#[verifier::external_body]
pub(crate) fn fields_are_empty(fields: &Fields) -> (res: bool)
    ensures
        res == (fields_content(*fields) == no_members()),
{
    fields.is_empty()
}

/// `serde_json::Map::clone`: an object with the same members.
#[verifier::external_body]
pub(crate) fn copied_fields(fields: &Fields) -> (copy: Fields)
    ensures
        fields_content(copy) == fields_content(*fields),
{
    fields.clone()
}

/// `serde_json::Map::insert`: the name gets the value, and the value that it had before, if
/// any, is handed back.
#[verifier::external_body]
pub(crate) fn insert_field(fields: &mut Fields, name: String, value: Value) -> (previous: Option<
    Value,
>)
    ensures
        fields_content(*final(fields)) == fields_content(*old(fields)).insert(
            name@,
            json_content(value),
        ),
        match previous {
            Some(v) => fields_content(*old(fields)).contains_key(name@) && json_content(v)
                == fields_content(*old(fields))[name@],
            None => !fields_content(*old(fields)).contains_key(name@),
        },
{
    fields.insert(name, value)
}

/// `serde_json::Map::extend`: every member of `more` is put in, replacing one of the same
/// name.
#[verifier::external_body]
pub(crate) fn extend_fields(fields: &mut Fields, more: Fields)
    ensures
        fields_content(*final(fields)) == fields_content(*old(fields)).union_prefer_right(
            fields_content(more),
        ),
{
    fields.extend(more)
}

} // verus!
