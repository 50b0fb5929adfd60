use nschool::bootstrap::{MIGRATION_ADD_ADMIN, MIGRATION_INIT, SEED_INITIAL};
use nschool::migrate::run_migrations;
use nschool::seeder::{
    apply_conditional_seed, has_data, run_seeder, run_seeder_force, students_present,
    SeedRunError, SeederError,
};
use nschool::store::{open_database, Store};
use rusqlite::Connection;

fn migrated_store(uri: &str) -> Store {
    let mut store = open_database(uri).expect("open");
    run_migrations(&mut store, vec![MIGRATION_INIT, MIGRATION_ADD_ADMIN]).expect("migrate");
    store
}

fn count(conn: &Connection, sql: &str) -> i64 {
    conn.query_row(sql, (), |row| row.get(0)).expect("count query")
}

#[test]
fn has_data_reports_absent_table_as_empty() {
    let uri = "file:seed_nodata?mode=memory&cache=shared";
    let store = open_database(uri).expect("open");
    // no migration ran: the students table does not exist
    assert_eq!(has_data(&store).expect("probe"), false);
}

#[test]
fn has_data_follows_the_students_rows() {
    let uri = "file:seed_hasdata?mode=memory&cache=shared";
    let store = migrated_store(uri);
    assert_eq!(has_data(&store).expect("probe"), false);

    let watcher = Connection::open(uri).expect("watcher");
    watcher
        .execute_batch(
            "INSERT INTO students (matricule, name, surname, class) \
             VALUES ('S001', 'Alice', 'Smith', '10A');",
        )
        .expect("insert");
    assert_eq!(has_data(&store).expect("probe"), true);
}

#[test]
fn conditional_seed_runs_on_an_empty_store() {
    let uri = "file:seed_cond_empty?mode=memory&cache=shared";
    let mut store = migrated_store(uri);
    let watcher = Connection::open(uri).expect("watcher");
    assert_eq!(count(&watcher, "SELECT COUNT(*) FROM subjects"), 0);

    run_seeder(&mut store, SEED_INITIAL).expect("seed");
    assert_eq!(count(&watcher, "SELECT COUNT(*) FROM subjects"), 3);
    // the seed loads reference subjects, not students
    assert_eq!(count(&watcher, "SELECT COUNT(*) FROM students"), 0);
}

#[test]
fn conditional_seed_is_a_strict_no_op_on_a_populated_store() {
    let uri = "file:seed_cond_full?mode=memory&cache=shared";
    let mut store = migrated_store(uri);
    let watcher = Connection::open(uri).expect("watcher");
    watcher
        .execute_batch(
            "INSERT INTO students (matricule, name, surname, class) \
             VALUES ('S001', 'Alice', 'Smith', '10A');",
        )
        .expect("insert");

    let subjects_before = count(&watcher, "SELECT COUNT(*) FROM subjects");
    let students_before = count(&watcher, "SELECT COUNT(*) FROM students");
    run_seeder(&mut store, SEED_INITIAL).expect("seed");
    assert_eq!(count(&watcher, "SELECT COUNT(*) FROM subjects"), subjects_before);
    assert_eq!(count(&watcher, "SELECT COUNT(*) FROM students"), students_before);
}

#[test]
fn forced_seed_runs_even_with_existing_data() {
    let uri = "file:seed_force?mode=memory&cache=shared";
    let mut store = migrated_store(uri);
    let watcher = Connection::open(uri).expect("watcher");
    watcher
        .execute_batch(
            "INSERT INTO students (matricule, name, surname, class) \
             VALUES ('S001', 'Alice', 'Smith', '10A');",
        )
        .expect("insert");

    let seed = "INSERT OR IGNORE INTO admins (login, password) VALUES ('root', 'pw');";
    run_seeder_force(&mut store, seed).expect("forced seed");
    assert_eq!(count(&watcher, "SELECT COUNT(*) FROM admins WHERE login = 'root'"), 1);
}

#[test]
fn forced_seed_twice_with_idempotent_script_yields_the_same_rows() {
    let uri = "file:seed_force_twice?mode=memory&cache=shared";
    let mut store = migrated_store(uri);
    let watcher = Connection::open(uri).expect("watcher");

    let seed = "INSERT OR IGNORE INTO admins (login, password) VALUES ('root', 'pw');\n\
                INSERT OR IGNORE INTO admins (login, password) VALUES ('aide', 'pw2');";
    run_seeder_force(&mut store, seed).expect("first run");
    let rows_before = count(&watcher, "SELECT COUNT(*) FROM admins");
    let roots_before = count(&watcher, "SELECT COUNT(*) FROM admins WHERE login = 'root'");

    run_seeder_force(&mut store, seed).expect("second run");
    assert_eq!(count(&watcher, "SELECT COUNT(*) FROM admins"), rows_before);
    assert_eq!(count(&watcher, "SELECT COUNT(*) FROM admins WHERE login = 'root'"), roots_before);
}

#[test]
fn the_row_interpretation_is_count_positive() {
    assert!(students_present(1));
    assert!(students_present(40));
    assert!(!students_present(0));
    assert!(!students_present(-1));
}

#[test]
fn with_data_present_the_script_is_not_even_validated() {
    let uri = "file:seed_policy_skip?mode=memory&cache=shared";
    let mut store = migrated_store(uri);
    // blank and malformed scripts are fine when the policy skips
    assert!(apply_conditional_seed(&mut store, "", true).is_ok());
    assert!(apply_conditional_seed(&mut store, "THIS IS NOT SQL;", true).is_ok());
}

#[test]
fn with_no_data_the_policy_runs_the_script() {
    let uri = "file:seed_policy_run?mode=memory&cache=shared";
    let mut store = migrated_store(uri);
    let watcher = Connection::open(uri).expect("watcher");
    apply_conditional_seed(&mut store, SEED_INITIAL, false).expect("seed");
    assert_eq!(count(&watcher, "SELECT COUNT(*) FROM subjects"), 3);
}

#[test]
fn a_blank_script_is_no_error_on_a_populated_store() {
    let uri = "file:seed_blank_populated?mode=memory&cache=shared";
    let mut store = migrated_store(uri);
    let watcher = Connection::open(uri).expect("watcher");
    watcher
        .execute_batch(
            "INSERT INTO students (matricule, name, surname, class) \
             VALUES ('S001', 'Alice', 'Smith', '10A');",
        )
        .expect("insert");
    // validation happens only when seeding actually runs
    assert!(run_seeder(&mut store, "").is_ok());
}

#[test]
fn blank_seed_scripts_are_rejected() {
    let uri = "file:seed_blank?mode=memory&cache=shared";
    let mut store = migrated_store(uri);
    let r = run_seeder_force(&mut store, "  \n ");
    assert!(matches!(r, Err(SeederError::EmptyScript)));
    let r = run_seeder(&mut store, "");
    assert!(matches!(r, Err(SeedRunError::Script(SeederError::EmptyScript))));
}

#[test]
fn seed_error_messages_carry_their_fixed_text() {
    let uri = "file:seed_msg?mode=memory&cache=shared";
    let mut store = migrated_store(uri);
    let e = run_seeder_force(&mut store, " ").expect_err("blank");
    assert_eq!(e.message(), "SQL seeder script is empty or contains only whitespace");
    let e = run_seeder_force(&mut store, "THIS IS NOT SQL;").expect_err("malformed");
    assert!(e.message().starts_with("SQL seeder script execution failed: "));
}
