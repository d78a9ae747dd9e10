//! The configuration layer: TOML text is parsed by the `toml` crate, and the
//! resulting value tree is read through a handful of accessors. What the
//! tree holds is modelled by [`ConfigValue`]; the items in this file that
//! carry a contract without a proof are marked as such in their comments.

use vstd::prelude::*;

verus! {

/// Mathematical model of a configuration value: the part of a TOML value
/// that the metadata schema reads. Integers, floats and date-times are
/// all `Other`.
pub ghost enum ConfigValue {
    Text(Seq<char>),
    Flag(bool),
    List(Seq<ConfigValue>),
    Table(Map<Seq<char>, ConfigValue>),
    Other,
}

/// Model of a table: its keys and the values they map to.
pub type ConfigTable = Map<Seq<char>, ConfigValue>;

/// Declares `toml::Value` as an opaque type.
#[verifier::external_type_specification]
#[verifier::external_body]
pub struct ExValue(toml::Value);

/// Declares `toml::map::Map` as an opaque type.
#[verifier::external_type_specification]
#[verifier::external_body]
#[verifier::reject_recursive_types(K)]
#[verifier::reject_recursive_types(V)]
pub struct ExMap<K, V>(toml::map::Map<K, V>);

/// Declares `toml::de::Error` as an opaque type.
#[verifier::external_type_specification]
#[verifier::external_body]
pub struct ExError(toml::de::Error);

/// What a `toml::Value` holds: `Text` for a string, `Flag` for a boolean,
/// `List` for an array, `Table` for a table. Nothing is proved of it; the
/// accessors below say how it relates to what they return.
pub uninterp spec fn value_model(v: toml::Value) -> ConfigValue;

/// What a `toml::Table` holds: its keys, each with the model of its value.
pub uninterp spec fn table_model(t: toml::map::Map<String, toml::Value>) -> ConfigTable;

/// The table that `toml::from_str` reads from `text`, or `None` where it
/// reports an error. Which texts are valid TOML is left to that function.
pub uninterp spec fn toml_document(text: Seq<char>) -> Option<ConfigTable>;

/// The table without any key.
pub open spec fn empty_table() -> ConfigTable {
    Map::empty()
}

/// The table that a configuration text stands for. An empty text is a
/// valid document without any key.
pub open spec fn document_model(text: Seq<char>) -> Option<ConfigTable> {
    if text.len() == 0 {
        Some(empty_table())
    } else {
        toml_document(text)
    }
}

/// Calls `toml::from_str` for a `toml::Table`. Trusted: whether it succeeds,
/// and with which table, is a function of the text alone, and an empty text
/// gives an empty table.
#[verifier::external_body]
pub(crate) fn parse_document(text: &str) -> (r: Result<
    toml::map::Map<String, toml::Value>,
    toml::de::Error,
>)
    ensures
        match r {
            Ok(t) => toml_document(text@) == Some(table_model(t)),
            Err(_) => toml_document(text@) is None,
        },
        text@.len() == 0 ==> r is Ok && table_model(r->Ok_0) == empty_table(),
{
    toml::from_str::<toml::map::Map<String, toml::Value>>(text)
}

/// Calls `toml::map::Map::get`. Trusted: it returns the value stored under
/// `key`, or `None` where the table has no such key.
#[verifier::external_body]
pub(crate) fn table_get<'a>(t: &'a toml::map::Map<String, toml::Value>, key: &str) -> (r: Option<
    &'a toml::Value,
>)
    ensures
        match r {
            Some(v) => table_model(*t).contains_key(key@) && table_model(*t)[key@] == value_model(
                *v,
            ),
            None => !table_model(*t).contains_key(key@),
        },
{
    t.get(key)
}

/// Calls `toml::Value::as_str`. Trusted: it returns the string of a string
/// value, and `None` for every other kind of value.
#[verifier::external_body]
pub(crate) fn value_text<'a>(v: &'a toml::Value) -> (r: Option<&'a str>)
    ensures
        match r {
            Some(s) => value_model(*v) == ConfigValue::Text(s@),
            None => !(value_model(*v) is Text),
        },
{
    v.as_str()
}

/// Calls `toml::Value::as_bool`. Trusted: it returns the boolean of a
/// boolean value, and `None` for every other kind of value.
#[verifier::external_body]
pub(crate) fn value_flag(v: &toml::Value) -> (r: Option<bool>)
    ensures
        match r {
            Some(b) => value_model(*v) == ConfigValue::Flag(b),
            None => !(value_model(*v) is Flag),
        },
{
    v.as_bool()
}

/// Calls `toml::Value::as_array`. Trusted: it returns the elements of an
/// array value, in order, and `None` for every other kind of value.
#[verifier::external_body]
pub(crate) fn value_items<'a>(v: &'a toml::Value) -> (r: Option<&'a Vec<toml::Value>>)
    ensures
        match r {
            Some(items) => {
                &&& value_model(*v) is List
                &&& value_model(*v)->List_0.len() == items@.len()
                &&& forall|i: int|
                    0 <= i < items@.len() ==> value_model(*v)->List_0[i] == #[trigger] value_model(
                        items@[i],
                    )
            },
            None => !(value_model(*v) is List),
        },
{
    v.as_array()
}

/// Calls `toml::Value::as_table`. Trusted: it returns the table of a table
/// value, and `None` for every other kind of value.
#[verifier::external_body]
pub(crate) fn value_table<'a>(v: &'a toml::Value) -> (r: Option<
    &'a toml::map::Map<String, toml::Value>,
>)
    ensures
        match r {
            Some(t) => value_model(*v) == ConfigValue::Table(table_model(*t)),
            None => !(value_model(*v) is Table),
        },
{
    v.as_table()
}

} // verus!
