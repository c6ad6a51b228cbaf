//! The stored form of the registry as JSON text, which `serde_json` writes
//! and reads. A stored document is an object whose members are tables; a
//! table is an array of rows; a row is an object whose members are texts.

use std::collections::BTreeMap;
use vstd::prelude::*;

verus! {

/// A row as it is written: its members in order, each a name and a text.
pub type WrittenRow = Vec<(String, String)>;

/// A row as it is read: its members, each a name and a text or `null`.
pub type ReadRow = Vec<(String, Option<String>)>;

/// A document as it is read: its tables, each a name and its rows.
pub type ReadDocument = Vec<(String, Vec<ReadRow>)>;

/// `serde_json::Error`, as an opaque value.
#[verifier::external_type_specification]
#[verifier::external_body]
pub struct ExJsonError(serde_json::Error);

/// The pretty JSON text of the object whose one member, named `name`, is the
/// array of `rows`, each row an object of text members; nothing where
/// `serde_json` fails to write it.
pub uninterp spec fn pretty_json(name: Seq<char>, rows: Seq<Seq<(Seq<char>, Seq<char>)>>) -> Option<
    Seq<char>,
>;

/// The tables of the JSON document `text`, each with its rows, tables and
/// members ordered by name; nothing where `text` is not JSON of that form.
pub uninterp spec fn parsed_json(text: Seq<char>) -> Option<
    Seq<(Seq<char>, Seq<Seq<(Seq<char>, Option<Seq<char>>)>>)>,
>;

/// Builds the `serde_json::Value` of the object `{ name: [row, ..] }` and
/// calls `serde_json::to_string_pretty` on it. Whether that succeeds, and
/// the text it gives, depend on `name` and `rows` alone.
#[verifier::external_body]
pub(crate) fn to_pretty_json(name: &str, rows: &Vec<WrittenRow>) -> (written: Result<
    String,
    serde_json::Error,
>)
    ensures
        match written {
            Ok(text) => pretty_json(name@, rows.deep_view()) == Some(text@),
            Err(_) => pretty_json(name@, rows.deep_view()) is None,
        },
{
    let object = |row: &WrittenRow| {
        serde_json::Value::Object(
            row.iter().map(|(k, v)| (k.clone(), serde_json::Value::String(v.clone()))).collect(),
        )
    };
    let mut document = serde_json::Map::new();
    document.insert(name.to_owned(), serde_json::Value::Array(rows.iter().map(object).collect()));
    serde_json::to_string_pretty(&serde_json::Value::Object(document))
}

/// Calls `serde_json::from_str` for a map of arrays of maps of optional
/// texts, and hands the maps out as sequences in the order of their keys.
/// Whether that succeeds, and what it gives, depend on `text` alone.
#[verifier::external_body]
pub(crate) fn parse_json(text: &str) -> (read: Result<ReadDocument, serde_json::Error>)
    ensures
        match read {
            Ok(document) => parsed_json(text@) == Some(document.deep_view()),
            Err(_) => parsed_json(text@) is None,
        },
{
    let document: BTreeMap<String, Vec<BTreeMap<String, Option<String>>>> = serde_json::from_str(
        text,
    )?;
    let rows = |table: Vec<BTreeMap<String, Option<String>>>| {
        table.into_iter().map(|row| row.into_iter().collect()).collect()
    };
    Ok(document.into_iter().map(|(name, table)| (name, rows(table))).collect())
}

/// Formats a `serde_json::Error` with `{}`. Nothing is claimed of the text.
#[verifier::external_body]
pub(crate) fn json_error_text(error: &serde_json::Error) -> (text: String) {
    error.to_string()
}

} // verus!
