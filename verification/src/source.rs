//! The configuration file as a TOML document: parsing it, and looking up a top-level key.

use toml::{Table, Value};
use vstd::prelude::*;

verus! {

/// The value under a top-level key, as far as the configuration reads it.
pub enum Entry {
    /// A string.
    Text(Seq<char>),
    /// An integer.
    Integer(i64),
    /// A boolean.
    Flag(bool),
    /// An array; each item that is a string is given, each other item is `None`.
    List(Seq<Option<Seq<char>>>),
    /// A float, a date or time, or a table.
    Other,
}

/// An [`Entry`] as the program holds it.
#[derive(Clone, Debug, PartialEq, Eq)]
pub enum Field {
    Text(String),
    Integer(i64),
    Flag(bool),
    List(Vec<Option<String>>),
    Other,
}

/// The character sequences of a list of optional strings, in order.
pub open spec fn optional_texts(items: Seq<Option<String>>) -> Seq<Option<Seq<char>>> {
    items.map_values(|item: Option<String>| item.deep_view())
}

impl View for Field {
    type V = Entry;

    open spec fn view(&self) -> Entry {
        match self {
            Field::Text(text) => Entry::Text(text@),
            Field::Integer(n) => Entry::Integer(*n),
            Field::Flag(b) => Entry::Flag(*b),
            Field::List(items) => Entry::List(optional_texts(items@)),
            Field::Other => Entry::Other,
        }
    }
}

/// `toml::map::Map`, of which `toml::Table` is the instance that a document parses to;
/// what one holds is visible only through `table_entries`.
#[verifier::external_type_specification]
#[verifier::external_body]
#[verifier::reject_recursive_types(K)]
#[verifier::reject_recursive_types(V)]
pub struct ExTomlMap<K, V>(toml::map::Map<K, V>);

/// `toml::Value`, the type of the values in a `toml::Table`; declared because the table
/// names it.
#[verifier::external_type_specification]
#[verifier::external_body]
pub struct ExTomlValue(toml::Value);

/// What a parsed table holds: under each of its keys, the value as an [`Entry`].
pub uninterp spec fn table_entries(table: Table) -> Map<Seq<char>, Entry>;

/// What parsing `text` as a TOML document gives: the entries of its top-level table, or
/// the parser's message if `text` is no TOML document.
pub uninterp spec fn toml_document(text: Seq<char>) -> Result<Map<Seq<char>, Entry>, Seq<char>>;

/// Parses `text` with `toml::from_str` into a `toml::Table`, and turns an error into its
/// message. Parsing reads nothing but `text`, so its outcome is a function of `text`; that
/// function is `toml_document`, and nothing more is claimed of it.
#[verifier::external_body]
pub(crate) fn parse_table(text: &str) -> (parsed: Result<Table, String>)
    ensures
        match parsed {
            Ok(table) => toml_document(text@) == Ok::<_, Seq<char>>(table_entries(table)),
            Err(message) => toml_document(text@) == Err::<Map<Seq<char>, Entry>, _>(message@),
        },
{
    toml::from_str::<Table>(text).map_err(|error| error.to_string())
}

/// Looks `key` up with `toml::map::Map::get`, which gives the value stored under the key
/// if there is one, and tells the variants of `toml::Value` apart. An array comes out
/// item by item through `toml::Value::as_str`, which gives the string of a string value
/// and `None` for any other.
#[verifier::external_body]
pub(crate) fn lookup(table: &Table, key: &str) -> (found: Option<Field>)
    ensures
        match found {
            Some(field) => table_entries(*table).contains_key(key@) && field@ == table_entries(
                *table,
            )[key@],
            None => !table_entries(*table).contains_key(key@),
        },
{
    match table.get(key)? {
        Value::String(text) => Some(Field::Text(text.clone())),
        Value::Integer(n) => Some(Field::Integer(*n)),
        Value::Boolean(b) => Some(Field::Flag(*b)),
        Value::Array(items) => Some(
            Field::List(items.iter().map(|item| item.as_str().map(String::from)).collect()),
        ),
        _ => Some(Field::Other),
    }
}

} // verus!
