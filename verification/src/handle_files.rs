//! Reading the JSON descriptions of the tables and of their rows.

use vstd::prelude::*;
use crate::str_map::{StrMap, entries_map, unique_keys, string_views};

verus! {

/// Table name to the SQL that creates the table.
pub type Tables = StrMap<String>;

/// Table name to the SQL statements that fill the table, in order.
pub type Rows = StrMap<Vec<String>>;

#[verifier::external_type_specification]
#[verifier::external_body]
pub struct ExJsonError(serde_json::Error);

/// What serde_json reads from `text` as a JSON object of strings, or `None`
/// where it refuses the text.
pub uninterp spec fn json_string_map(text: Seq<char>) -> Option<Map<Seq<char>, Seq<char>>>;

/// What serde_json reads from `text` as a JSON object of arrays of strings,
/// or `None` where it refuses the text.
pub uninterp spec fn json_string_list_map(text: Seq<char>) -> Option<
    Map<Seq<char>, Seq<Seq<char>>>,
>;

/// The texts of a list of (name, SQL) entries, as a map.
pub open spec fn tables_view(s: Seq<(String, String)>) -> Map<Seq<char>, Seq<char>> {
    entries_map(s).map_values(|v: String| v@)
}

/// The texts of a list of (name, SQL statements) entries, as a map.
pub open spec fn rows_view(s: Seq<(String, Vec<String>)>) -> Map<Seq<char>, Seq<Seq<char>>> {
    entries_map(s).map_values(|v: Vec<String>| string_views(v@))
}

/// The texts held by a `Tables` map.
pub open spec fn tables_text(t: Tables) -> Map<Seq<char>, Seq<char>> {
    t@.map_values(|v: String| v@)
}

/// The texts held by a `Rows` map.
pub open spec fn rows_text(r: Rows) -> Map<Seq<char>, Seq<Seq<char>>> {
    r@.map_values(|v: Vec<String>| string_views(v@))
}

/// Calls `serde_json::from_str` for a map from strings to strings and hands
/// its entries out. Claimed of it: it succeeds exactly where the named
/// reading does, the entries carry distinct keys and describe that map. The
/// order of the entries (that of a hash map) is not stated.
#[verifier::external_body]
fn parse_tables_json(text: &str) -> (r: Result<Vec<(String, String)>, serde_json::Error>)
    ensures
        r is Ok <==> json_string_map(text@) is Some,
        r matches Ok(v) ==> unique_keys(v@) && json_string_map(text@) == Some(tables_view(v@)),
{
    match serde_json::from_str::<std::collections::HashMap<String, String>>(text) {
        Ok(m) => Ok(m.into_iter().collect()),
        Err(e) => Err(e),
    }
}

/// Calls `serde_json::from_str` for a map from strings to lists of strings
/// and hands its entries out. Claimed of it: it succeeds exactly where the
/// named reading does, the entries carry distinct keys and describe that
/// map. The order of the entries (that of a hash map) is not stated.
#[verifier::external_body]
fn parse_rows_json(text: &str) -> (r: Result<Vec<(String, Vec<String>)>, serde_json::Error>)
    ensures
        r is Ok <==> json_string_list_map(text@) is Some,
        r matches Ok(v) ==> unique_keys(v@) && json_string_list_map(text@) == Some(rows_view(v@)),
{
    match serde_json::from_str::<std::collections::HashMap<String, Vec<String>>>(text) {
        Ok(m) => Ok(m.into_iter().collect()),
        Err(e) => Err(e),
    }
}

/// Which of the two JSON texts could not be read, with serde_json's error.
#[derive(Debug)]
pub enum LoadError {
    Tables(serde_json::Error),
    Rows(serde_json::Error),
}

/// Reads the table descriptions from `tables` and the rows from `rows`.
pub fn make_tables_and_rows(tables: String, rows: String) -> (r: Result<(Tables, Rows), LoadError>)
    ensures
        r is Ok <==> json_string_map(tables@) is Some && json_string_list_map(rows@) is Some,
        r matches Err(LoadError::Tables(_)) <==> json_string_map(tables@) is None,
        r matches Ok((t, w)) ==> json_string_map(tables@) == Some(tables_text(t))
            && json_string_list_map(rows@) == Some(rows_text(w)),
{
    let tables_entries = match parse_tables_json(tables.as_str()) {
        Ok(v) => v,
        Err(e) => return Err(LoadError::Tables(e)),
    };
    let rows_entries = match parse_rows_json(rows.as_str()) {
        Ok(v) => v,
        Err(e) => return Err(LoadError::Rows(e)),
    };
    let t = StrMap::from_unique_entries(tables_entries);
    let w = StrMap::from_unique_entries(rows_entries);
    Ok((t, w))
}

} // verus!
