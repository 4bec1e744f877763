use dbmod_tui3::str_map::StrMap;
use dbmod_tui3::{make_tables_and_rows, LoadError};
use dbmod_tui3::db_tools::postgresql_json_table_names;

#[test]
fn str_map_insert_get_remove() {
    let mut m: StrMap<u32> = StrMap::new();
    assert_eq!(m.get("a"), None);
    assert_eq!(m.insert("a".to_string(), 1), None);
    assert_eq!(m.insert("b".to_string(), 2), None);
    assert_eq!(m.get("a"), Some(&1));
    assert_eq!(m.insert("a".to_string(), 3), Some(1));
    assert_eq!(m.get("a"), Some(&3));
    assert_eq!(m.remove("a"), Some(3));
    assert_eq!(m.get("a"), None);
    assert_eq!(m.remove("a"), None);
    assert_eq!(m.get("b"), Some(&2));
}

#[test]
fn str_map_take_and_return_law_on_values() {
    let mut m: StrMap<String> = StrMap::new();
    m.insert("homepage".to_string(), "h".to_string());
    m.insert("rebuild".to_string(), "r".to_string());
    let v = m.remove("homepage").unwrap();
    m.insert("homepage".to_string(), v);
    assert_eq!(m.get("homepage"), Some(&"h".to_string()));
    assert_eq!(m.get("rebuild"), Some(&"r".to_string()));
    let mut keys = m.keys();
    keys.sort();
    assert_eq!(keys, vec!["homepage".to_string(), "rebuild".to_string()]);
}

#[test]
fn str_map_keys_each_once() {
    let mut m: StrMap<u8> = StrMap::new();
    m.insert("x".to_string(), 1);
    m.insert("y".to_string(), 2);
    m.insert("x".to_string(), 3);
    let mut keys = m.keys();
    keys.sort();
    assert_eq!(keys, vec!["x".to_string(), "y".to_string()]);
}

#[test]
fn make_tables_and_rows_reads_json() {
    let tables = r#"{"users": "CREATE TABLE users (id int);", "posts": "CREATE TABLE posts (id int);"}"#;
    let rows = r#"{"users": ["INSERT INTO users VALUES (1);", "INSERT INTO users VALUES (2);"]}"#;
    let (t, r) = make_tables_and_rows(tables.to_string(), rows.to_string()).unwrap();
    assert_eq!(t.get("users"), Some(&"CREATE TABLE users (id int);".to_string()));
    assert_eq!(t.get("posts"), Some(&"CREATE TABLE posts (id int);".to_string()));
    assert_eq!(t.get("comments"), None);
    assert_eq!(
        r.get("users"),
        Some(&vec![
            "INSERT INTO users VALUES (1);".to_string(),
            "INSERT INTO users VALUES (2);".to_string()
        ])
    );
    let r = postgresql_json_table_names(r);
    assert_eq!(r.keys(), vec!["users".to_string()]);
}

#[test]
fn make_tables_and_rows_bad_tables() {
    let res = make_tables_and_rows("not json".to_string(), "{}".to_string());
    assert!(matches!(res, Err(LoadError::Tables(_))));
}

#[test]
fn make_tables_and_rows_bad_rows() {
    let res = make_tables_and_rows("{}".to_string(), r#"{"a": "b"}"#.to_string());
    assert!(matches!(res, Err(LoadError::Rows(_))));
}
