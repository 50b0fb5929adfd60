use nschool::bootstrap::{MIGRATION_ADD_ADMIN, MIGRATION_INIT};
use nschool::executor::{execute_sql_script, ScriptExecutionError};
use nschool::migrate::run_migrations;
use nschool::store::{open_database, Store};
use rusqlite::Connection;

const HEADER: &str = "-- Migration Version: 900\n-- Created On: 2024-02-01\n-- Author: test\n";

fn migrated_store(uri: &str) -> Store {
    let mut store = open_database(uri).expect("open");
    run_migrations(&mut store, vec![MIGRATION_INIT, MIGRATION_ADD_ADMIN]).expect("migrate");
    store
}

fn count(conn: &Connection, sql: &str) -> i64 {
    conn.query_row(sql, (), |row| row.get(0)).expect("count query")
}

#[test]
fn empty_script_is_rejected() {
    let uri = "file:exec_empty?mode=memory&cache=shared";
    let mut store = migrated_store(uri);
    let r = execute_sql_script(&mut store, "   \n\t  ", false);
    assert!(matches!(r, Err(ScriptExecutionError::EmptyScript)));
    let r = execute_sql_script(&mut store, "", true);
    assert!(matches!(r, Err(ScriptExecutionError::EmptyScript)));
    // Unicode whitespace counts as blank, exactly as str::trim sees it
    let r = execute_sql_script(&mut store, "\u{a0}\u{2003}\u{3000}", false);
    assert!(matches!(r, Err(ScriptExecutionError::EmptyScript)));
}

#[test]
fn missing_header_is_rejected_and_applies_nothing() {
    let uri = "file:exec_header?mode=memory&cache=shared";
    let mut store = migrated_store(uri);
    let watcher = Connection::open(uri).expect("watcher");

    // version and date present, author missing
    let script = "-- Migration Version: 900\n-- Created On: 2024-02-01\n\
                  CREATE TABLE header_probe (x INTEGER);";
    let r = execute_sql_script(&mut store, script, true);
    assert!(matches!(r, Err(ScriptExecutionError::MissingMigrationHeader)));
    let n = count(
        &watcher,
        "SELECT COUNT(*) FROM sqlite_master WHERE type='table' AND name='header_probe'",
    );
    assert_eq!(n, 0);

    // the same text passes once header validation is not required
    let r = execute_sql_script(&mut store, script, false);
    assert!(r.is_ok());
    let n = count(
        &watcher,
        "SELECT COUNT(*) FROM sqlite_master WHERE type='table' AND name='header_probe'",
    );
    assert_eq!(n, 1);
}

#[test]
fn header_is_accepted_when_required() {
    let uri = "file:exec_header_ok?mode=memory&cache=shared";
    let mut store = migrated_store(uri);
    let script = format!("{HEADER}CREATE TABLE header_ok_probe (x INTEGER);");
    let r = execute_sql_script(&mut store, &script, true);
    assert!(r.is_ok());
}

#[test]
fn failing_final_statement_rolls_back_the_whole_script() {
    let uri = "file:exec_atomic?mode=memory&cache=shared";
    let mut store = migrated_store(uri);
    let watcher = Connection::open(uri).expect("watcher");

    let seed = "INSERT INTO students (matricule, name, surname, class) \
                VALUES ('S001', 'Alice', 'Smith', '10A');";
    execute_sql_script(&mut store, seed, false).expect("seed row");
    assert_eq!(count(&watcher, "SELECT COUNT(*) FROM students"), 1);

    // first statement is fine, the last one is malformed: nothing of the
    // script may remain visible
    let broken = "INSERT INTO students (matricule, name, surname, class) \
                  VALUES ('S002', 'Bob', 'Jones', '10A');\n\
                  THIS IS NOT SQL;";
    let r = execute_sql_script(&mut store, broken, false);
    assert!(matches!(r, Err(ScriptExecutionError::ScriptExecutionFailed(_))));
    assert_eq!(count(&watcher, "SELECT COUNT(*) FROM students"), 1);
    let n = count(&watcher, "SELECT COUNT(*) FROM students WHERE matricule = 'S002'");
    assert_eq!(n, 0);
}

#[test]
fn multi_statement_script_commits_as_a_unit() {
    let uri = "file:exec_multi?mode=memory&cache=shared";
    let mut store = migrated_store(uri);
    let watcher = Connection::open(uri).expect("watcher");

    let script = "INSERT INTO students (matricule, name, surname, class) \
                  VALUES ('S010', 'Ann', 'Lee', '11B');\n\
                  INSERT INTO students (matricule, name, surname, class) \
                  VALUES ('S011', 'Ben', 'Ray', '11B');";
    execute_sql_script(&mut store, script, false).expect("batch");
    assert_eq!(count(&watcher, "SELECT COUNT(*) FROM students"), 2);
}

#[test]
fn error_messages_carry_their_fixed_text() {
    let uri = "file:exec_msg?mode=memory&cache=shared";
    let mut store = migrated_store(uri);

    let r = execute_sql_script(&mut store, " ", false);
    let e = r.expect_err("empty script");
    assert_eq!(e.message(), "SQL script is empty or contains only whitespace");

    let r = execute_sql_script(&mut store, "SELECT 1;", true);
    let e = r.expect_err("missing header");
    assert_eq!(e.message(), "SQL migration header is missing required metadata");

    let r = execute_sql_script(&mut store, "THIS IS NOT SQL;", false);
    let e = r.expect_err("malformed script");
    assert!(e.message().starts_with("SQL script execution failed: "));
}
