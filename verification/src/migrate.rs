//! The migration runner: applies an ordered list of schema scripts, or skips
//! the whole list when the expected schema is already present.
//!
//! The skip condition is deliberately coarse: the store's catalog is probed
//! for a fixed set of expected table names, and only when *all* of them
//! exist is the set of scripts skipped — the runner is all-or-nothing at
//! the set level, with no per-script bookkeeping and no partial schema
//! repair.

use vstd::prelude::*;
use crate::executor::{
    execute_sql_script, spec_script_error_cause, spec_script_valid, ScriptExecutionError,
};
use crate::script::trim_spec;
use crate::store::{session_preserved, Store};

verus! {

/// Why running the migration set failed: either the catalog probe itself
/// failed, or one of the scripts was rejected or could not be committed.
#[derive(Debug)]
pub enum MigrationError {
    /// The existence probe against the store's catalog failed.
    TableProbeFailed(rusqlite::Error),
    /// A migration script failed; the scripts before it are committed.
    Script(ScriptExecutionError),
}

/// The trimmed text of each script of an ordered list, in order.
pub open spec fn trimmed_views(scripts: Seq<&str>) -> Seq<Seq<char>> {
    scripts.map_values(|s: &str| trim_spec(s@))
}

/// The migration-set decision, over the four existence probes: the scripts
/// run unless every expected table is already present.
pub fn migrations_needed(students: bool, subjects: bool, notes: bool, admins: bool) -> (r: bool)
    ensures
        r == !(students && subjects && notes && admins),
{
    !(students && subjects && notes && admins)
}

/// The catalog probe's interpretation: the probed table is taken to exist
/// exactly when the catalog query counted at least one entry of that name.
pub fn table_count_present(count: i64) -> (r: bool)
    ensures
        r == (count > 0),
{
    count > 0
}

/// Whether the store's catalog lists `table_name` as a table: the
/// [`table_count_present`] interpretation of a COUNT(*) probe against
/// sqlite_master. The count itself comes from the store, so only that
/// interpretation carries a contract. A read-only probe: the committed
/// trace is untouched.
pub fn table_exists(store: &Store, table_name: &str) -> Result<bool, rusqlite::Error> {
    let params: [&str; 1] = [table_name];
    match store.probe_count(
        "SELECT COUNT(*) FROM sqlite_master WHERE type='table' AND name=?1",
        &params,
    ) {
        Ok(count) => Ok(table_count_present(count)),
        Err(e) => Err(e),
    }
}

/// Applies the ordered migration scripts through the script executor, with
/// header validation enabled — unless the expected tables (students,
/// subjects, notes, admins) all exist already, in which case every script is
/// skipped.
///
/// On success the committed trace either is unchanged (schema already
/// established) or grows by exactly the trimmed scripts, in the supplied
/// order, each of them validated. On failure the trace grows by the trimmed
/// prefix of scripts that committed before the failing one.
pub fn run_migrations(store: &mut Store, migrations: Vec<&str>) -> (r: Result<(), MigrationError>)
    ensures
        session_preserved(*old(store), *final(store)),
        r is Ok ==> final(store).committed() == old(store).committed() || (
            final(store).committed() == old(store).committed() + trimmed_views(migrations@)
                && forall|k: int|
                    0 <= k < migrations@.len() ==> spec_script_valid(#[trigger] migrations@[k]@, true)
        ),
        r matches Err(MigrationError::TableProbeFailed(_)) ==> final(store).committed() == old(
            store,
        ).committed(),
        r matches Err(MigrationError::Script(e)) ==> exists|c: int|
            {
                &&& 0 <= c < migrations@.len()
                &&& final(store).committed() == old(store).committed() + trimmed_views(
                    migrations@,
                ).take(c)
                &&& spec_script_error_cause(e, #[trigger] migrations@[c]@, true)
                &&& forall|k: int| 0 <= k < c ==> spec_script_valid(#[trigger] migrations@[k]@, true)
            },
{
    let students = match table_exists(store, "students") {
        Ok(b) => b,
        Err(e) => {
            return Err(MigrationError::TableProbeFailed(e));
        },
    };
    let subjects = match table_exists(store, "subjects") {
        Ok(b) => b,
        Err(e) => {
            return Err(MigrationError::TableProbeFailed(e));
        },
    };
    let notes = match table_exists(store, "notes") {
        Ok(b) => b,
        Err(e) => {
            return Err(MigrationError::TableProbeFailed(e));
        },
    };
    let admins = match table_exists(store, "admins") {
        Ok(b) => b,
        Err(e) => {
            return Err(MigrationError::TableProbeFailed(e));
        },
    };
    let needed = migrations_needed(students, subjects, notes, admins);
    apply_migration_set(store, migrations, !needed)
}

/// The migration-set policy, for a settled probe outcome: when the schema
/// is already established, not one script is handed to the executor and
/// the committed trace is exactly what it was; otherwise every script runs
/// in order through the executor with header validation enabled, stopping
/// at the first failure.
pub fn apply_migration_set(
    store: &mut Store,
    migrations: Vec<&str>,
    schema_established: bool,
) -> (r: Result<(), MigrationError>)
    ensures
        session_preserved(*old(store), *final(store)),
        schema_established ==> r is Ok && final(store).committed() == old(store).committed(),
        !schema_established && r is Ok ==> final(store).committed() == old(store).committed()
            + trimmed_views(migrations@) && forall|k: int|
            0 <= k < migrations@.len() ==> spec_script_valid(#[trigger] migrations@[k]@, true),
        r is Err ==> r matches Err(MigrationError::Script(_)),
        r matches Err(MigrationError::Script(e)) ==> exists|c: int|
            {
                &&& 0 <= c < migrations@.len()
                &&& final(store).committed() == old(store).committed() + trimmed_views(
                    migrations@,
                ).take(c)
                &&& spec_script_error_cause(e, #[trigger] migrations@[c]@, true)
                &&& forall|k: int| 0 <= k < c ==> spec_script_valid(#[trigger] migrations@[k]@, true)
            },
{
    if schema_established {
        return Ok(());
    }
    let mut idx: usize = 0;
    while idx < migrations.len()
        invariant
            idx <= migrations@.len(),
            store.committed() == old(store).committed() + trimmed_views(migrations@).take(
                idx as int,
            ),
            forall|k: int| 0 <= k < idx ==> spec_script_valid(#[trigger] migrations@[k]@, true),
            session_preserved(*old(store), *store),
            !schema_established,
        decreases migrations@.len() - idx,
    {
        let ghost prev = store.committed();
        match execute_sql_script(store, migrations[idx], true) {
            Ok(()) => {
                proof {
                    assert(old(store).committed() + trimmed_views(migrations@).take(
                        idx + 1,
                    ) =~= prev.push(trim_spec(migrations@[idx as int]@)));
                }
            },
            Err(e) => {
                proof {
                    let c = idx as int;
                    assert(0 <= c < migrations@.len() && store.committed() == old(store).committed()
                        + trimmed_views(migrations@).take(c) && spec_script_error_cause(
                        e,
                        migrations@[c]@,
                        true,
                    ) && forall|k: int|
                        0 <= k < c ==> spec_script_valid(#[trigger] migrations@[k]@, true));
                }
                return Err(MigrationError::Script(e));
            },
        }
        idx = idx + 1;
    }
    proof {
        assert(trimmed_views(migrations@).take(migrations@.len() as int) =~= trimmed_views(
            migrations@,
        ));
    }
    Ok(())
}

} // verus!
