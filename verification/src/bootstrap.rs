//! The bootstrap orchestrator: opens the store, applies the fixed ordered
//! migration list, runs the conditional seed and then the forced admin
//! seed, and hands back a ready-to-use handle. Any stage failure aborts the
//! whole sequence — the store is either fully bootstrapped or the handle is
//! not returned at all.

use vstd::prelude::*;
use crate::executor::{spec_script_error_cause, spec_script_valid};
use crate::migrate::{run_migrations, trimmed_views, MigrationError};
use crate::script::trim_spec;
use crate::seeder::{run_seeder, run_seeder_force, spec_seeder_error_cause, SeedRunError};
use crate::store::{open_database, Store};

verus! {

/// Schema migration: the base tables (students, subjects, notes).
pub const MIGRATION_INIT: &'static str = "-- Migration Version: 001\n-- Created On: 2024-01-10\n-- Author: nschool maintainers\nCREATE TABLE IF NOT EXISTS students (\n    matricule TEXT PRIMARY KEY,\n    name TEXT NOT NULL,\n    surname TEXT NOT NULL,\n    class TEXT NOT NULL\n);\nCREATE TABLE IF NOT EXISTS subjects (\n    code TEXT PRIMARY KEY,\n    name TEXT NOT NULL,\n    class TEXT NOT NULL,\n    coefficient INTEGER NOT NULL\n);\nCREATE TABLE IF NOT EXISTS notes (\n    id INTEGER PRIMARY KEY AUTOINCREMENT,\n    value REAL NOT NULL,\n    matricule TEXT NOT NULL REFERENCES students(matricule),\n    subject_code TEXT NOT NULL REFERENCES subjects(code)\n);";

/// Schema migration: the admins table.
pub const MIGRATION_ADD_ADMIN: &'static str = "-- Migration Version: 002\n-- Created On: 2024-01-12\n-- Author: nschool maintainers\nCREATE TABLE IF NOT EXISTS admins (\n    id INTEGER PRIMARY KEY AUTOINCREMENT,\n    login TEXT NOT NULL UNIQUE,\n    password TEXT NOT NULL\n);";

/// Conditional seed: reference subjects, loaded only into an empty store.
pub const SEED_INITIAL: &'static str = "-- Seed: initial reference data\nINSERT OR IGNORE INTO subjects (code, name, class, coefficient) VALUES\n    ('MATH101', 'Mathematics', '10A', 4),\n    ('PHY101', 'Physics', '10A', 3),\n    ('CHEM101', 'Chemistry', '10A', 2);";

/// Forced seed: the administrative account, always enforced.
pub const SEED_ADMIN: &'static str = "-- Seed: administrative accounts\nINSERT OR IGNORE INTO admins (login, password) VALUES ('admin', 'admin123');";

/// Why bootstrapping failed; every stage failure is fatal and propagated.
#[derive(Debug)]
pub enum BootstrapError {
    /// Opening the physical store or applying the session pragmas failed.
    StoreOpen(rusqlite::Error),
    /// The migration runner failed.
    Migration(MigrationError),
    /// A seed runner failed.
    Seeding(SeedRunError),
}

/// The fixed ordered migration list, as trimmed script text.
pub open spec fn spec_migration_scripts() -> Seq<Seq<char>> {
    seq![trim_spec(MIGRATION_INIT@), trim_spec(MIGRATION_ADD_ADMIN@)]
}

/// The committed trace of a freshly bootstrapped store: the migration list
/// when it ran (`migrated`), then the conditional seed when it ran
/// (`seeded`), then always the forced admin seed.
pub open spec fn spec_bootstrap_trace(migrated: bool, seeded: bool) -> Seq<Seq<char>> {
    (if migrated {
        spec_migration_scripts()
    } else {
        Seq::<Seq<char>>::empty()
    }) + (if seeded {
        seq![trim_spec(SEED_INITIAL@)]
    } else {
        Seq::<Seq<char>>::empty()
    }) + seq![trim_spec(SEED_ADMIN@)]
}

/// Opens the store at `path` and bootstraps it: migrations (skipped when
/// the schema is already established), conditional seed (skipped when data
/// is already present), forced admin seed. On success the handle's
/// committed trace is exactly the scripts of the stages that ran, in order,
/// always ending with the forced seed; when the migrations ran, each of
/// their scripts passed header validation; and the session settings of the
/// opener are still in force. On failure the first failing stage's error
/// comes back, and a script error's cause holds of one of the fixed
/// bundled scripts of that stage.
pub fn init_database(path: &str) -> (r: Result<Store, BootstrapError>)
    ensures
        r matches Ok(s) ==> exists|migrated: bool, seeded: bool|
            s.committed() == #[trigger] spec_bootstrap_trace(migrated, seeded) && (migrated
                ==> spec_script_valid(MIGRATION_INIT@, true) && spec_script_valid(
                MIGRATION_ADD_ADMIN@,
                true,
            )),
        r matches Ok(s) ==> s.fk_enforced() && s.wal_set() && s.sync_normal(),
        r matches Err(BootstrapError::Migration(MigrationError::Script(e)))
            ==> spec_script_error_cause(e, MIGRATION_INIT@, true) || spec_script_error_cause(
            e,
            MIGRATION_ADD_ADMIN@,
            true,
        ),
        r matches Err(BootstrapError::Seeding(SeedRunError::Script(e)))
            ==> spec_seeder_error_cause(e, SEED_INITIAL@) || spec_seeder_error_cause(
            e,
            SEED_ADMIN@,
        ),
{
    let mut store = match open_database(path) {
        Ok(s) => s,
        Err(e) => {
            return Err(BootstrapError::StoreOpen(e));
        },
    };
    let mut migrations: Vec<&str> = Vec::new();
    migrations.push(MIGRATION_INIT);
    migrations.push(MIGRATION_ADD_ADMIN);
    let ghost migration_list = migrations@;
    proof {
        assert(migration_list =~= seq![MIGRATION_INIT, MIGRATION_ADD_ADMIN]);
        assert(trimmed_views(migration_list) =~= spec_migration_scripts());
    }
    if let Err(e) = run_migrations(&mut store, migrations) {
        return Err(BootstrapError::Migration(e));
    }
    let ghost after_migrations = store.committed();
    let ghost migrated = after_migrations.len() > 0;
    if let Err(e) = run_seeder(&mut store, SEED_INITIAL) {
        return Err(BootstrapError::Seeding(e));
    }
    let ghost after_seed = store.committed();
    let ghost seeded = after_seed.len() > after_migrations.len();
    if let Err(e) = run_seeder_force(&mut store, SEED_ADMIN) {
        return Err(BootstrapError::Seeding(SeedRunError::Script(e)));
    }
    proof {
        assert(store.committed() =~= spec_bootstrap_trace(migrated, seeded));
    }
    Ok(store)
}

} // verus!
