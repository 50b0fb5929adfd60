//! The script validator/executor: validates a script's text and runs it
//! atomically against the store. The whole script is the unit of atomicity —
//! either every statement commits, or the store is left exactly as it was.

use vstd::prelude::*;
use vstd::string::StringExecFns;
use crate::script::{spec_has_migration_header, trim_spec, trim_str, validate_migration_header};
use crate::store::{Store, TxFailure};

verus! {

/// Why executing a script failed. The first two come from validating the
/// text before anything touches the store; the rest wrap the underlying
/// store error of the stage that failed.
#[derive(Debug)]
pub enum ScriptExecutionError {
    /// The script is empty, or whitespace only, after trimming.
    EmptyScript,
    /// Header validation was required and at least one of the three
    /// migration header markers is absent.
    MissingMigrationHeader,
    /// The store rejected re-enabling foreign-key enforcement.
    ForeignKeyPragmaFailed(rusqlite::Error),
    /// A transaction could not be opened.
    TransactionBeginFailed(rusqlite::Error),
    /// A statement of the script failed; the transaction was rolled back.
    ScriptExecutionFailed(rusqlite::Error),
    /// The commit failed after the statements ran; nothing was committed.
    TransactionCommitFailed(rusqlite::Error),
}

/// The fixed first part of each error's description.
pub open spec fn spec_script_error_prefix(e: &ScriptExecutionError) -> Seq<char> {
    match e {
        ScriptExecutionError::EmptyScript => "SQL script is empty or contains only whitespace"@,
        ScriptExecutionError::MissingMigrationHeader => {
            "SQL migration header is missing required metadata"@
        },
        ScriptExecutionError::ForeignKeyPragmaFailed(_) => "Failed to enable foreign keys: "@,
        ScriptExecutionError::TransactionBeginFailed(_) => "Failed to start transaction: "@,
        ScriptExecutionError::ScriptExecutionFailed(_) => "SQL script execution failed: "@,
        ScriptExecutionError::TransactionCommitFailed(_) => "Failed to commit transaction: "@,
    }
}

impl ScriptExecutionError {
    /// A description of the failure: the variant's fixed text, followed by
    /// the underlying store error where there is one.
    pub fn message(&self) -> (r: String)
        ensures
            spec_script_error_prefix(self).len() <= r@.len(),
            r@.subrange(0, spec_script_error_prefix(self).len() as int) == spec_script_error_prefix(
                self,
            ),
    {
        let mut r: String = match self {
            ScriptExecutionError::EmptyScript => {
                String::from_str("SQL script is empty or contains only whitespace")
            },
            ScriptExecutionError::MissingMigrationHeader => {
                String::from_str("SQL migration header is missing required metadata")
            },
            ScriptExecutionError::ForeignKeyPragmaFailed(_) => {
                String::from_str("Failed to enable foreign keys: ")
            },
            ScriptExecutionError::TransactionBeginFailed(_) => {
                String::from_str("Failed to start transaction: ")
            },
            ScriptExecutionError::ScriptExecutionFailed(_) => {
                String::from_str("SQL script execution failed: ")
            },
            ScriptExecutionError::TransactionCommitFailed(_) => {
                String::from_str("Failed to commit transaction: ")
            },
        };
        let ghost prefix = r@;
        match self {
            ScriptExecutionError::EmptyScript => {},
            ScriptExecutionError::MissingMigrationHeader => {},
            ScriptExecutionError::ForeignKeyPragmaFailed(e)
            | ScriptExecutionError::TransactionBeginFailed(e)
            | ScriptExecutionError::ScriptExecutionFailed(e)
            | ScriptExecutionError::TransactionCommitFailed(e) => {
                let detail = crate::store::sqlite_error_text(e);
                r.append(detail.as_str());
            },
        }
        proof {
            assert(r@.subrange(0, prefix.len() as int) =~= prefix);
        }
        r
    }
}

/// The validation that `execute_sql_script` performs before touching the
/// store: the trimmed script is non-empty, and carries the migration header
/// markers when they are required.
pub open spec fn spec_script_valid(script: Seq<char>, require_header: bool) -> bool {
    &&& trim_spec(script).len() > 0
    &&& (require_header ==> spec_has_migration_header(trim_spec(script)))
}

/// Which inputs produce which `ScriptExecutionError`: the validation errors
/// come exactly on the inputs that fail the corresponding check, and a store
/// error can only arise once validation has passed.
pub open spec fn spec_script_error_cause(
    e: ScriptExecutionError,
    script: Seq<char>,
    require_header: bool,
) -> bool {
    match e {
        ScriptExecutionError::EmptyScript => trim_spec(script).len() == 0,
        ScriptExecutionError::MissingMigrationHeader => {
            &&& require_header
            &&& trim_spec(script).len() > 0
            &&& !spec_has_migration_header(trim_spec(script))
        },
        _ => spec_script_valid(script, require_header),
    }
}

/// The foreign-key re-assert's footprint on the session: once validation
/// passes, the pragma runs before anything else, so on success — and on any
/// failure after the pragma — the handle has foreign-key enforcement
/// applied; on a validation error or a failure of the pragma itself, the
/// setting is exactly what it was.
pub open spec fn spec_fk_reasserted(
    r: Result<(), ScriptExecutionError>,
    before: Store,
    after: Store,
) -> bool {
    match r {
        Ok(()) => after.fk_enforced(),
        Err(e) => match e {
            ScriptExecutionError::EmptyScript => after.fk_enforced() == before.fk_enforced(),
            ScriptExecutionError::MissingMigrationHeader => {
                after.fk_enforced() == before.fk_enforced()
            },
            ScriptExecutionError::ForeignKeyPragmaFailed(_) => {
                after.fk_enforced() == before.fk_enforced()
            },
            _ => after.fk_enforced(),
        },
    }
}

fn tx_failure_to_error(f: TxFailure) -> (e: ScriptExecutionError)
    ensures
        f matches TxFailure::Begin(x) ==> e == ScriptExecutionError::TransactionBeginFailed(x),
        f matches TxFailure::Execute(x) ==> e == ScriptExecutionError::ScriptExecutionFailed(x),
        f matches TxFailure::Commit(x) ==> e == ScriptExecutionError::TransactionCommitFailed(x),
{
    match f {
        TxFailure::Begin(x) => ScriptExecutionError::TransactionBeginFailed(x),
        TxFailure::Execute(x) => ScriptExecutionError::ScriptExecutionFailed(x),
        TxFailure::Commit(x) => ScriptExecutionError::TransactionCommitFailed(x),
    }
}

/// Validates `script` and, when the text passes, runs it as one batch inside
/// one transaction on `store`.
///
/// In order, each step a hard precondition for the next: trim the script and
/// reject an empty one; when `require_migration_header` is set, reject a
/// script missing any of the three header markers; re-assert foreign-key
/// enforcement; open a transaction, run the whole batch, commit. On success
/// the store's committed trace grows by exactly the trimmed script; on every
/// failure it is unchanged.
pub fn execute_sql_script(
    store: &mut Store,
    script: &str,
    require_migration_header: bool,
) -> (r: Result<(), ScriptExecutionError>)
    ensures
        ({
            let t = trim_spec(script@);
            match r {
                Ok(()) => {
                    &&& spec_script_valid(script@, require_migration_header)
                    &&& final(store).committed() == old(store).committed().push(t)
                },
                Err(e) => {
                    &&& final(store).committed() == old(store).committed()
                    &&& spec_script_error_cause(e, script@, require_migration_header)
                },
            }
        }),
        trim_spec(script@).len() == 0 <==> r == Err::<(), ScriptExecutionError>(
            ScriptExecutionError::EmptyScript,
        ),
        final(store).wal_set() == old(store).wal_set(),
        final(store).sync_normal() == old(store).sync_normal(),
        spec_fk_reasserted(r, *old(store), *final(store)),
{
    let trimmed = trim_str(script);
    if trimmed.is_empty() {
        return Err(ScriptExecutionError::EmptyScript);
    }
    if require_migration_header && !validate_migration_header(trimmed) {
        return Err(ScriptExecutionError::MissingMigrationHeader);
    }
    if let Err(e) = store.enable_foreign_keys() {
        return Err(ScriptExecutionError::ForeignKeyPragmaFailed(e));
    }
    match store.apply_batch(trimmed) {
        Ok(()) => Ok(()),
        Err(f) => Err(tx_failure_to_error(f)),
    }
}

} // verus!
