use dbmod_tui3::db_tools::{
    check_if_table_exists, drop_table, execute_rebuild, is_undroppable, DbCommand, DbReply,
    RebuildAction, RebuildError, RebuildMachine,
};
use dbmod_tui3::str_map::StrMap;
use dbmod_tui3::{Rows, Tables};

fn tables() -> Tables {
    let mut t = StrMap::new();
    t.insert("users".to_string(), "CREATE TABLE users (id int);".to_string());
    t
}

fn rows() -> Rows {
    let mut r = StrMap::new();
    r.insert(
        "users".to_string(),
        vec!["INSERT INTO users VALUES (1);".to_string(), "INSERT INTO users VALUES (2);".to_string()],
    );
    r
}

fn batch(a: &RebuildAction) -> String {
    match a {
        RebuildAction::Run(DbCommand::Batch(q)) => q.clone(),
        other => panic!("expected a batch, got {:?}", other),
    }
}

fn failed(message: &str, code: Option<&str>) -> DbReply {
    DbReply::Failed { message: message.to_string(), code: code.map(|c| c.to_string()) }
}

fn start(t: Tables, r: Option<Rows>, table: &str) -> RebuildMachine {
    let (m, a) = execute_rebuild(t, r, &table.to_string());
    assert!(matches!(a, RebuildAction::Run(DbCommand::Connect)));
    m
}

#[test]
fn queries_are_built() {
    assert_eq!(
        check_if_table_exists(&"users".to_string()),
        "SELECT EXISTS ( SELECT FROM pg_tables WHERE schemaname = 'public' AND tablename = 'users');"
    );
    assert_eq!(drop_table(&"users".to_string()), "DROP TABLE users;");
    assert!(is_undroppable(&Some("2BP01".to_string())));
    assert!(!is_undroppable(&Some("42P01".to_string())));
    assert!(!is_undroppable(&None));
}

#[test]
fn rebuild_existing_table_with_rows() {
    let mut m = start(tables(), Some(rows()), "users");
    match m.step(DbReply::Done) {
        RebuildAction::Run(DbCommand::Exists(q)) => assert_eq!(q, check_if_table_exists(&"users".to_string())),
        other => panic!("{:?}", other),
    }
    assert_eq!(batch(&m.step(DbReply::Exists(true))), "DROP TABLE users;");
    assert_eq!(batch(&m.step(DbReply::Done)), "CREATE TABLE users (id int);");
    assert_eq!(batch(&m.step(DbReply::Done)), "INSERT INTO users VALUES (1);");
    assert_eq!(batch(&m.step(DbReply::Done)), "INSERT INTO users VALUES (2);");
    assert!(matches!(m.step(DbReply::Done), RebuildAction::Run(DbCommand::Close)));
    assert!(matches!(m.step(DbReply::Done), RebuildAction::Finish(Ok(()))));
    assert!(matches!(m.step(DbReply::Done), RebuildAction::Finish(Err(RebuildError::Unexpected))));
}

#[test]
fn rebuild_new_table_without_rows() {
    let mut m = start(tables(), None, "users");
    assert!(matches!(m.step(DbReply::Done), RebuildAction::Run(DbCommand::Exists(_))));
    assert_eq!(batch(&m.step(DbReply::Exists(false))), "CREATE TABLE users (id int);");
    assert!(matches!(m.step(DbReply::Done), RebuildAction::Run(DbCommand::Close)));
    assert!(matches!(m.step(DbReply::Done), RebuildAction::Finish(Ok(()))));
}

#[test]
fn undroppable_table_is_let_pass() {
    let mut m = start(tables(), None, "users");
    m.step(DbReply::Done);
    m.step(DbReply::Exists(true));
    assert_eq!(
        batch(&m.step(failed("cannot drop table users", Some("2BP01")))),
        "CREATE TABLE users (id int);"
    );
}

#[test]
fn other_drop_failure_stops() {
    let mut m = start(tables(), None, "users");
    m.step(DbReply::Done);
    m.step(DbReply::Exists(true));
    match m.step(failed("permission denied", Some("42501"))) {
        RebuildAction::Finish(Err(RebuildError::Db(msg))) => assert_eq!(msg, "permission denied"),
        other => panic!("{:?}", other),
    }
}

#[test]
fn connection_failure_stops() {
    let mut m = start(tables(), None, "users");
    match m.step(failed("connection refused", None)) {
        RebuildAction::Finish(Err(RebuildError::Db(msg))) => assert_eq!(msg, "connection refused"),
        other => panic!("{:?}", other),
    }
}

#[test]
fn missing_table_is_reported_after_check() {
    let mut m = start(tables(), None, "posts");
    assert!(matches!(m.step(DbReply::Done), RebuildAction::Run(DbCommand::Exists(_))));
    match m.step(DbReply::Exists(false)) {
        RebuildAction::Finish(Err(RebuildError::MissingKey(e))) => {
            assert_eq!(e.description(), "failed to get value from table: bad key:posts")
        },
        other => panic!("{:?}", other),
    }
}

#[test]
fn missing_rows_are_reported_after_create() {
    let mut r: Rows = StrMap::new();
    r.insert("other".to_string(), vec![]);
    let mut m = start(tables(), Some(r), "users");
    m.step(DbReply::Done);
    m.step(DbReply::Exists(false));
    match m.step(DbReply::Done) {
        RebuildAction::Finish(Err(RebuildError::MissingKey(e))) => {
            assert_eq!(e.description(), "failed to get value from table: bad key:users")
        },
        other => panic!("{:?}", other),
    }
}

#[test]
fn row_failure_stops() {
    let mut m = start(tables(), Some(rows()), "users");
    m.step(DbReply::Done);
    m.step(DbReply::Exists(false));
    m.step(DbReply::Done);
    match m.step(failed("duplicate key", Some("23505"))) {
        RebuildAction::Finish(Err(RebuildError::Db(msg))) => assert_eq!(msg, "duplicate key"),
        other => panic!("{:?}", other),
    }
}

#[test]
fn close_failure_is_its_own_error() {
    let mut m = start(tables(), None, "users");
    m.step(DbReply::Done);
    m.step(DbReply::Exists(false));
    m.step(DbReply::Done);
    match m.step(failed("broken pipe", None)) {
        RebuildAction::Finish(Err(RebuildError::Close(msg))) => assert_eq!(msg, "broken pipe"),
        other => panic!("{:?}", other),
    }
}

#[test]
fn unexpected_reply_is_refused() {
    let mut m = start(tables(), None, "users");
    assert!(matches!(m.step(DbReply::Exists(true)), RebuildAction::Finish(Err(RebuildError::Unexpected))));
}
