//! The trusted boundary to the `toml` crate, which does the manifest
//! parsing. Each wrapper makes one call into `toml`; its contract states
//! what the call returns in terms of the document model of [`crate::model`].
//!
//! The model of a concrete parse is given by two names: `doc_of` for what
//! parsing a given text yields, and `view_of` / `table_model` for what a
//! parsed value or table holds. The wrappers below tie the names to the
//! values that `toml` hands out; nothing else says anything about them.

use vstd::prelude::*;

verus! {

use crate::model::{seq_lookup, TomlView};

#[verifier::external_type_specification]
#[verifier::external_body]
pub struct ExTomlValue(toml::Value);

#[verifier::external_type_specification]
#[verifier::external_body]
#[verifier::reject_recursive_types(K)]
#[verifier::reject_recursive_types(V)]
pub struct ExTomlMap<K, V>(toml::map::Map<K, V>);

#[verifier::external_type_specification]
#[verifier::external_body]
pub struct ExTomlDeError(toml::de::Error);

/// What parsing a text as TOML yields: the model of the top-level table,
/// or nothing when the text is not valid TOML. Parsing is a function of
/// the text alone.
pub uninterp spec fn doc_of(text: Seq<char>) -> Option<Seq<(Seq<char>, TomlView)>>;

/// The model of a parsed TOML value.
pub uninterp spec fn view_of(value: toml::Value) -> TomlView;

/// The model of a parsed TOML table: its (key, value) pairs, in the order
/// the table hands them out.
pub uninterp spec fn table_model(table: toml::map::Map<String, toml::Value>) -> Seq<
    (Seq<char>, TomlView),
>;

/// Relies on `toml::from_str::<toml::Table>`: it returns the parsed
/// top-level table exactly when the text is valid TOML.
#[verifier::external_body]
pub(crate) fn parse_toml(text: &str) -> (r: Result<
    toml::map::Map<String, toml::Value>,
    toml::de::Error,
>)
    ensures
        (r is Ok) == (doc_of(text@) is Some),
        r matches Ok(t) ==> doc_of(text@) == Some(table_model(t)),
{
    toml::from_str(text)
}

/// Relies on `toml::map::Map::get`: it returns the value bound to the key,
/// and nothing when the key is not bound.
#[verifier::external_body]
pub(crate) fn table_get<'a>(
    table: &'a toml::map::Map<String, toml::Value>,
    key: &str,
) -> (r: Option<&'a toml::Value>)
    ensures
        match seq_lookup(table_model(*table), key@) {
            Some(m) => r matches Some(v) && view_of(*v) == m,
            None => r is None,
        },
{
    table.get(key)
}

/// Relies on `toml::Value::as_table`: it returns the held table exactly
/// when the value is a table.
#[verifier::external_body]
pub(crate) fn value_as_table<'a>(value: &'a toml::Value) -> (r: Option<
    &'a toml::map::Map<String, toml::Value>,
>)
    ensures
        match view_of(*value) {
            TomlView::Table(entries) => r matches Some(t) && table_model(*t) == entries,
            _ => r is None,
        },
{
    value.as_table()
}

/// Relies on `toml::Value::as_str`: it returns the held string exactly
/// when the value is a string.
#[verifier::external_body]
pub(crate) fn value_as_str<'a>(value: &'a toml::Value) -> (r: Option<&'a str>)
    ensures
        match view_of(*value) {
            TomlView::Str(s) => r matches Some(x) && x@ == s,
            _ => r is None,
        },
{
    value.as_str()
}

/// Relies on `toml::map::Map::iter`: it hands the table's entries out in
/// the table's own order.
#[verifier::external_body]
pub(crate) fn table_entries(table: &toml::map::Map<String, toml::Value>) -> (r: Vec<
    (String, toml::Value),
>)
    ensures
        r@.len() == table_model(*table).len(),
        forall|i: int|
            0 <= i < r@.len() ==> r@[i].0@ == table_model(*table)[i].0 && view_of(r@[i].1)
                == table_model(*table)[i].1,
{
    table.iter().map(|(k, v)| (k.clone(), v.clone())).collect()
}

} // verus!
