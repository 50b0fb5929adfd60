//! The seed runner: loads reference data through the script executor,
//! either only when the designated probe table (students) is absent or
//! empty, or unconditionally ("forced"). Seed scripts are not held to the
//! migration header check.

use vstd::prelude::*;
use vstd::string::StringExecFns;
use crate::executor::{execute_sql_script, ScriptExecutionError};
use crate::migrate::table_count_present;
use crate::script::trim_spec;
use crate::store::{session_preserved, Store};

verus! {

/// Why executing a seed script failed. Same taxonomy as the script
/// executor, minus the header check, which seeds are not subject to.
#[derive(Debug)]
pub enum SeederError {
    /// The script is empty, or whitespace only, after trimming.
    EmptyScript,
    /// The store rejected re-enabling foreign-key enforcement.
    ForeignKeyPragmaFailed(rusqlite::Error),
    /// A transaction could not be opened.
    TransactionBeginFailed(rusqlite::Error),
    /// A statement of the script failed; the transaction was rolled back.
    ScriptExecutionFailed(rusqlite::Error),
    /// The commit failed after the statements ran; nothing was committed.
    TransactionCommitFailed(rusqlite::Error),
}

/// Why the conditional seed runner failed: either the emptiness probe
/// itself failed, or the seed script did.
#[derive(Debug)]
pub enum SeedRunError {
    /// The probe for existing data failed.
    ProbeFailed(rusqlite::Error),
    /// The seed script was rejected or could not be committed.
    Script(SeederError),
}

/// The fixed first part of each seeding error's description.
pub open spec fn spec_seeder_error_prefix(e: &SeederError) -> Seq<char> {
    match e {
        SeederError::EmptyScript => "SQL seeder script is empty or contains only whitespace"@,
        SeederError::ForeignKeyPragmaFailed(_) => "Failed to enable foreign keys: "@,
        SeederError::TransactionBeginFailed(_) => "Failed to start transaction: "@,
        SeederError::ScriptExecutionFailed(_) => "SQL seeder script execution failed: "@,
        SeederError::TransactionCommitFailed(_) => "Failed to commit transaction: "@,
    }
}

impl SeederError {
    /// A description of the failure: the variant's fixed text, followed by
    /// the underlying store error where there is one.
    pub fn message(&self) -> (r: String)
        ensures
            spec_seeder_error_prefix(self).len() <= r@.len(),
            r@.subrange(0, spec_seeder_error_prefix(self).len() as int) == spec_seeder_error_prefix(
                self,
            ),
    {
        let mut r: String = match self {
            SeederError::EmptyScript => {
                String::from_str("SQL seeder script is empty or contains only whitespace")
            },
            SeederError::ForeignKeyPragmaFailed(_) => {
                String::from_str("Failed to enable foreign keys: ")
            },
            SeederError::TransactionBeginFailed(_) => {
                String::from_str("Failed to start transaction: ")
            },
            SeederError::ScriptExecutionFailed(_) => {
                String::from_str("SQL seeder script execution failed: ")
            },
            SeederError::TransactionCommitFailed(_) => {
                String::from_str("Failed to commit transaction: ")
            },
        };
        let ghost prefix = r@;
        match self {
            SeederError::EmptyScript => {},
            SeederError::ForeignKeyPragmaFailed(e)
            | SeederError::TransactionBeginFailed(e)
            | SeederError::ScriptExecutionFailed(e)
            | SeederError::TransactionCommitFailed(e) => {
                let detail = crate::store::sqlite_error_text(e);
                r.append(detail.as_str());
            },
        }
        proof {
            assert(r@.subrange(0, prefix.len() as int) =~= prefix);
        }
        r
    }
}

/// Which inputs produce which `SeederError`: `EmptyScript` comes exactly on
/// a blank script, and a store error only on a non-blank one.
pub open spec fn spec_seeder_error_cause(e: SeederError, script: Seq<char>) -> bool {
    match e {
        SeederError::EmptyScript => trim_spec(script).len() == 0,
        _ => trim_spec(script).len() > 0,
    }
}

fn script_error_to_seeder_error(e: ScriptExecutionError) -> (se: SeederError)
    requires
        !(e is MissingMigrationHeader),
    ensures
        e is EmptyScript <==> se is EmptyScript,
        e matches ScriptExecutionError::ForeignKeyPragmaFailed(x) ==> se
            == SeederError::ForeignKeyPragmaFailed(x),
        e matches ScriptExecutionError::TransactionBeginFailed(x) ==> se
            == SeederError::TransactionBeginFailed(x),
        e matches ScriptExecutionError::ScriptExecutionFailed(x) ==> se
            == SeederError::ScriptExecutionFailed(x),
        e matches ScriptExecutionError::TransactionCommitFailed(x) ==> se
            == SeederError::TransactionCommitFailed(x),
{
    match e {
        ScriptExecutionError::EmptyScript => SeederError::EmptyScript,
        ScriptExecutionError::MissingMigrationHeader => vstd::pervasive::unreached(),
        ScriptExecutionError::ForeignKeyPragmaFailed(x) => SeederError::ForeignKeyPragmaFailed(x),
        ScriptExecutionError::TransactionBeginFailed(x) => SeederError::TransactionBeginFailed(x),
        ScriptExecutionError::ScriptExecutionFailed(x) => SeederError::ScriptExecutionFailed(x),
        ScriptExecutionError::TransactionCommitFailed(x) => SeederError::TransactionCommitFailed(x),
    }
}

/// The emptiness probe's interpretation: the store is taken to hold data
/// exactly when the row-count query counted at least one student.
pub fn students_present(student_count: i64) -> (r: bool)
    ensures
        r == (student_count > 0),
{
    student_count > 0
}

/// Runs a seed script through the script executor, without the migration
/// header check, and folds the result into the seeding error taxonomy.
fn execute_seeder_script(store: &mut Store, script: &str) -> (r: Result<(), SeederError>)
    ensures
        r is Ok ==> trim_spec(script@).len() > 0 && final(store).committed() == old(
            store,
        ).committed().push(trim_spec(script@)),
        r is Err ==> final(store).committed() == old(store).committed(),
        r matches Err(e) ==> spec_seeder_error_cause(e, script@),
        trim_spec(script@).len() == 0 <==> r == Err::<(), SeederError>(SeederError::EmptyScript),
        session_preserved(*old(store), *final(store)),
        r is Ok ==> final(store).fk_enforced(),
{
    match execute_sql_script(store, script, false) {
        Ok(()) => Ok(()),
        Err(e) => Err(script_error_to_seeder_error(e)),
    }
}

/// Whether the store already holds data: true exactly when the students
/// table exists and has at least one row, as the probes report it — the
/// [`table_count_present`] interpretation of the catalog probe, and, only
/// when that holds, the [`students_present`] interpretation of the
/// row-count probe (the row query cannot run against an absent table). The
/// counts themselves come from the store, so only those interpretations
/// carry contracts. A read-only probe: the committed trace is untouched.
pub fn has_data(store: &Store) -> Result<bool, rusqlite::Error> {
    let no_params: [&str; 0] = [];
    let table_count = match store.probe_count(
        "SELECT COUNT(*) FROM sqlite_master WHERE type='table' AND name='students'",
        &no_params,
    ) {
        Ok(c) => c,
        Err(e) => {
            return Err(e);
        },
    };
    if !table_count_present(table_count) {
        return Ok(false);
    }
    let student_count = match store.probe_count("SELECT COUNT(*) FROM students", &no_params) {
        Ok(c) => c,
        Err(e) => {
            return Err(e);
        },
    };
    Ok(students_present(student_count))
}

/// The conditional-seed policy, for a settled probe outcome: with data
/// already present the script is not executed, nor even validated, and the
/// committed trace is exactly what it was; otherwise the script runs
/// through the seed executor.
pub fn apply_conditional_seed(
    store: &mut Store,
    seeder_script: &str,
    data_present: bool,
) -> (r: Result<(), SeederError>)
    ensures
        session_preserved(*old(store), *final(store)),
        data_present ==> r is Ok && final(store).committed() == old(store).committed(),
        !data_present ==> {
            &&& r is Ok ==> trim_spec(seeder_script@).len() > 0 && final(store).committed() == old(
                store,
            ).committed().push(trim_spec(seeder_script@))
            &&& r is Err ==> final(store).committed() == old(store).committed()
            &&& (r matches Err(e) ==> spec_seeder_error_cause(e, seeder_script@))
            &&& (trim_spec(seeder_script@).len() == 0 <==> r == Err::<(), SeederError>(
                SeederError::EmptyScript,
            ))
        },
{
    if data_present {
        return Ok(());
    }
    execute_seeder_script(store, seeder_script)
}

/// Runs the seed script only when the store is empty: when the probe table
/// is absent or has zero rows. Otherwise a strict no-op on the committed
/// trace. On success the trace either is unchanged (data already present)
/// or grows by exactly the trimmed script.
pub fn run_seeder(store: &mut Store, seeder_script: &str) -> (r: Result<(), SeedRunError>)
    ensures
        r is Ok ==> final(store).committed() == old(store).committed() || (trim_spec(
            seeder_script@,
        ).len() > 0 && final(store).committed() == old(store).committed().push(
            trim_spec(seeder_script@),
        )),
        r is Err ==> final(store).committed() == old(store).committed(),
        r matches Err(SeedRunError::Script(e)) ==> spec_seeder_error_cause(e, seeder_script@),
        session_preserved(*old(store), *final(store)),
{
    let has_existing_data = match has_data(store) {
        Ok(b) => b,
        Err(e) => {
            return Err(SeedRunError::ProbeFailed(e));
        },
    };
    match apply_conditional_seed(store, seeder_script, has_existing_data) {
        Ok(()) => Ok(()),
        Err(e) => Err(SeedRunError::Script(e)),
    }
}

/// Runs the seed script unconditionally, regardless of existing data: used
/// for reference rows that must always be present. On success the committed
/// trace always grows by exactly the trimmed script — a forced seed is
/// never silently skipped.
pub fn run_seeder_force(store: &mut Store, seeder_script: &str) -> (r: Result<(), SeederError>)
    ensures
        r is Ok ==> trim_spec(seeder_script@).len() > 0 && final(store).committed() == old(
            store,
        ).committed().push(trim_spec(seeder_script@)),
        r is Err ==> final(store).committed() == old(store).committed(),
        r matches Err(e) ==> spec_seeder_error_cause(e, seeder_script@),
        trim_spec(seeder_script@).len() == 0 <==> r == Err::<(), SeederError>(
            SeederError::EmptyScript,
        ),
        session_preserved(*old(store), *final(store)),
        r is Ok ==> final(store).fk_enforced(),
{
    execute_seeder_script(store, seeder_script)
}

} // verus!
