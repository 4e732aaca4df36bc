//! TOML documents: the tree that the `toml` crate reads from a text and
//! writes back to one, seen through a mathematical model of its contents.
//!
//! The crate's own types stay as they are. What is assumed of each of its
//! functions is stated on a small private function that makes the call.

use vstd::prelude::*;

verus! {

/// A TOML value, as the `toml` crate holds it.
#[verifier::external_type_specification]
#[verifier::external_body]
pub struct ExValue(toml::Value);

/// A TOML table with its keys in lexicographic order; `toml::Table` is this
/// type with `String` keys and `toml::Value` values.
#[verifier::external_type_specification]
#[verifier::external_body]
#[verifier::reject_recursive_types(K)]
#[verifier::reject_recursive_types(V)]
pub struct ExMap<K, V>(toml::map::Map<K, V>);

/// The reason for which a text is no TOML document.
#[verifier::external_type_specification]
#[verifier::external_body]
pub struct ExDeError(toml::de::Error);

/// The reason for which a table could not be written as text.
#[verifier::external_type_specification]
#[verifier::external_body]
pub struct ExSerError(toml::ser::Error);

/// What a TOML value holds.
pub enum Node {
    /// A string.
    Text(Seq<char>),
    /// An array, item by item.
    List(Seq<Node>),
    /// A table, key by key.
    Table(Map<Seq<char>, Node>),
    /// An integer, float, boolean or date-time, kept as the value itself.
    Scalar(toml::Value),
}

/// The contents of a value.
pub uninterp spec fn value_node(value: toml::Value) -> Node;

/// The contents of a table: each key with what its value holds.
pub uninterp spec fn table_nodes(table: toml::Table) -> Map<Seq<char>, Node>;

/// The document that a text denotes, or `None` where the text is no TOML.
pub uninterp spec fn toml_parse(text: Seq<char>) -> Option<Map<Seq<char>, Node>>;

/// The text that the `toml` crate writes for a document, or `None` where it
/// refuses to write it.
pub uninterp spec fn toml_text(document: Map<Seq<char>, Node>) -> Option<Seq<char>>;

/// What the values of a vector hold, in order.
pub open spec fn nodes_of(values: Seq<toml::Value>) -> Seq<Node> {
    values.map_values(|v: toml::Value| value_node(v))
}

/// `toml::from_str` at the type `toml::Table`. The outcome depends on the
/// text alone: a table whose contents are `toml_parse` of the text, or an
/// error where `toml_parse` gives `None`.
#[verifier::external_body]
pub(crate) fn parse_table(text: &str) -> (parsed: Result<toml::Table, toml::de::Error>)
    ensures
        match parsed {
            Ok(table) => toml_parse(text@) == Some(table_nodes(table)),
            Err(_) => toml_parse(text@) is None,
        },
{
    toml::from_str::<toml::Table>(text)
}

/// `toml::to_string` on a table. The outcome depends on the contents of
/// the table alone: the text `toml_text` of them, or an error where
/// `toml_text` gives `None`.
#[verifier::external_body]
pub(crate) fn render_table(table: &toml::Table) -> (rendered: Result<String, toml::ser::Error>)
    ensures
        match rendered {
            Ok(text) => toml_text(table_nodes(*table)) == Some(text@),
            Err(_) => toml_text(table_nodes(*table)) is None,
        },
{
    toml::to_string(table)
}

/// `toml::map::Map::get` with a string key: the value under the key, or
/// `None` where the table has no such key.
#[verifier::external_body]
pub(crate) fn table_get<'a>(table: &'a toml::Table, key: &str) -> (found: Option<&'a toml::Value>)
    ensures
        match found {
            Some(value) => table_nodes(*table).contains_key(key@) && table_nodes(*table)[key@]
                == value_node(*value),
            None => !table_nodes(*table).contains_key(key@),
        },
{
    table.get(key)
}

/// `toml::Value::as_str`: the string of a string value, `None` of any other.
#[verifier::external_body]
pub(crate) fn value_as_str<'a>(value: &'a toml::Value) -> (text: Option<&'a str>)
    ensures
        match value_node(*value) {
            Node::Text(s) => text matches Some(t) && t@ == s,
            _ => text is None,
        },
{
    value.as_str()
}

/// `toml::Value::as_array`: the items of an array, `None` of any other value.
#[verifier::external_body]
pub(crate) fn value_as_array<'a>(value: &'a toml::Value) -> (items: Option<&'a Vec<toml::Value>>)
    ensures
        match value_node(*value) {
            Node::List(nodes) => items matches Some(v) && nodes_of(v@) == nodes,
            _ => items is None,
        },
{
    value.as_array()
}

/// `toml::Value::as_table`: the table of a table value, `None` of any other.
#[verifier::external_body]
pub(crate) fn value_as_table<'a>(value: &'a toml::Value) -> (table: Option<&'a toml::Table>)
    ensures
        match value_node(*value) {
            Node::Table(nodes) => table matches Some(t) && table_nodes(*t) == nodes,
            _ => table is None,
        },
{
    value.as_table()
}

/// The variant `toml::Value::String`: a value that holds the given string.
#[verifier::external_body]
pub(crate) fn text_value(text: String) -> (value: toml::Value)
    ensures
        value_node(value) == Node::Text(text@),
{
    toml::Value::String(text)
}

/// The variant `toml::Value::Array`: a value that holds the given items.
#[verifier::external_body]
pub(crate) fn list_value(items: Vec<toml::Value>) -> (value: toml::Value)
    ensures
        value_node(value) == Node::List(nodes_of(items@)),
{
    toml::Value::Array(items)
}

/// The variant `toml::Value::Table`: a value that holds the given table.
#[verifier::external_body]
pub(crate) fn table_value(table: toml::Table) -> (value: toml::Value)
    ensures
        value_node(value) == Node::Table(table_nodes(table)),
{
    toml::Value::Table(table)
}

/// `toml::map::Map::new`: a table without keys.
#[verifier::external_body]
pub(crate) fn empty_table() -> (made: toml::Table)
    ensures
        table_nodes(made) =~= Map::empty(),
{
    toml::Table::new()
}

/// `toml::map::Map::insert`: puts the value under the key, in place of the
/// value that the key had, if it had one, and hands that value back.
#[verifier::external_body]
pub(crate) fn table_insert(table: &mut toml::Table, key: String, value: toml::Value) -> (previous:
    Option<toml::Value>)
    ensures
        table_nodes(*final(table)) == table_nodes(*old(table)).insert(key@, value_node(value)),
        match previous {
            Some(before) => table_nodes(*old(table)).contains_key(key@) && table_nodes(
                *old(table),
            )[key@] == value_node(before),
            None => !table_nodes(*old(table)).contains_key(key@),
        },
{
    table.insert(key, value)
}

} // verus!
