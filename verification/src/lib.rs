//! Verified core of a small terminal front end that rebuilds PostgreSQL
//! tables from JSON descriptions: the menus and how they react to what is
//! typed, the reading of the JSON files, and the order of the statements
//! that rebuild a table.

pub mod text;
pub mod screen;
pub mod str_map;
pub mod err_tools;
pub mod handle_files;
pub mod db_tools;
pub mod menu;
pub mod pages;
pub mod laws;

pub use handle_files::{make_tables_and_rows, LoadError, Rows, Tables};
