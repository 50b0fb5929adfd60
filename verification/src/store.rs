//! The store handle: the single live SQLite connection, owned by the
//! bootstrap code and then shared with every downstream collaborator.
//!
//! The handle carries a ghost trace of the scripts committed through it, in
//! order. Every mutation of the store goes through [`Store::apply_batch`],
//! which runs one whole script inside one transaction: the trace grows by
//! exactly that script on success and stays unchanged on any failure, so a
//! caller's contract can say precisely which scripts have been applied.

use vstd::prelude::*;

verus! {

#[verifier::external_type_specification]
#[verifier::external_body]
pub struct ExConnection(rusqlite::Connection);

#[verifier::external_type_specification]
#[verifier::external_body]
pub struct ExSqliteError(rusqlite::Error);

#[verifier::external_type_specification]
#[verifier::external_body]
pub struct ExTransaction<'conn>(rusqlite::Transaction<'conn>);

/// Relies on rusqlite::Connection::open: opens (or creates) the database at
/// `path`, with the default flags.
#[verifier::external_body]
fn conn_open(path: &str) -> Result<rusqlite::Connection, rusqlite::Error> {
    rusqlite::Connection::open(path)
}

/// Relies on rusqlite::Connection::execute_batch: runs the statements of
/// `sql` one after the other, outside any transaction of ours.
#[verifier::external_body]
fn conn_execute_batch(
    conn: &mut rusqlite::Connection,
    sql: &str,
) -> Result<(), rusqlite::Error> {
    conn.execute_batch(sql)
}

/// Relies on rusqlite::Connection::transaction: begins a deferred
/// transaction; the returned transaction rolls back when dropped unless it is
/// committed.
#[verifier::external_body]
fn tx_begin<'conn>(
    conn: &'conn mut rusqlite::Connection,
) -> Result<rusqlite::Transaction<'conn>, rusqlite::Error> {
    conn.transaction()
}

/// Relies on rusqlite::Connection::execute_batch, reached through
/// Transaction's Deref: runs the statements of `sql` inside the open
/// transaction.
#[verifier::external_body]
fn tx_execute_batch(
    tx: &rusqlite::Transaction<'_>,
    sql: &str,
) -> Result<(), rusqlite::Error> {
    tx.execute_batch(sql)
}

/// Relies on rusqlite::Transaction::commit: commits the transaction; on
/// failure the transaction is consumed and its effects are rolled back.
#[verifier::external_body]
fn tx_commit(tx: rusqlite::Transaction<'_>) -> Result<(), rusqlite::Error> {
    tx.commit()
}

/// Relies on rusqlite::Connection::query_row: runs a query expected to
/// return a single integer (its first row's first column), such as a
/// COUNT(*) probe.
#[verifier::external_body]
fn query_count(
    conn: &rusqlite::Connection,
    sql: &str,
    params: &[&str],
) -> Result<i64, rusqlite::Error> {
    conn.query_row(sql, rusqlite::params_from_iter(params.iter()), |row| row.get(0))
}

/// Relies on rusqlite::Error's Display implementation: renders the store
/// error as text for diagnostics.
#[verifier::external_body]
pub(crate) fn sqlite_error_text(e: &rusqlite::Error) -> String {
    format!("{e}")
}

/// The stage of [`Store::apply_batch`] at which the underlying store
/// reported a failure.
pub enum TxFailure {
    /// The transaction could not be opened.
    Begin(rusqlite::Error),
    /// A statement of the script failed; nothing was committed.
    Execute(rusqlite::Error),
    /// The commit itself failed; the transaction was rolled back.
    Commit(rusqlite::Error),
}

/// The session-level settings a handle has applied through its pragmas.
struct SessionSettings {
    fk_enforced: bool,
    wal: bool,
    sync_normal: bool,
}

/// The live connection to the persistent store, together with the ghost
/// trace of the scripts committed through it and the ghost record of the
/// session settings it has applied.
pub struct Store {
    conn: rusqlite::Connection,
    committed: Ghost<Seq<Seq<char>>>,
    session: Ghost<SessionSettings>,
}

impl Store {
    /// The scripts committed through this handle so far, in order.
    pub closed spec fn committed(&self) -> Seq<Seq<char>> {
        self.committed@
    }

    /// The handle has applied `PRAGMA foreign_keys = ON` to its session.
    pub closed spec fn fk_enforced(&self) -> bool {
        self.session@.fk_enforced
    }

    /// The handle has applied `PRAGMA journal_mode = WAL` to its session.
    pub closed spec fn wal_set(&self) -> bool {
        self.session@.wal
    }

    /// The handle has applied `PRAGMA synchronous = NORMAL` to its session.
    pub closed spec fn sync_normal(&self) -> bool {
        self.session@.sync_normal
    }

    /// Re-asserts foreign-key enforcement for the session. A session
    /// setting, not a script: the committed trace is unchanged.
    pub(crate) fn enable_foreign_keys(&mut self) -> (r: Result<(), rusqlite::Error>)
        ensures
            final(self).committed() == old(self).committed(),
            final(self).wal_set() == old(self).wal_set(),
            final(self).sync_normal() == old(self).sync_normal(),
            r is Ok ==> final(self).fk_enforced(),
            r is Err ==> final(self).fk_enforced() == old(self).fk_enforced(),
    {
        match conn_execute_batch(&mut self.conn, "PRAGMA foreign_keys = ON;") {
            Ok(()) => {
                self.session = Ghost(
                    SessionSettings {
                        fk_enforced: true,
                        wal: self.session@.wal,
                        sync_normal: self.session@.sync_normal,
                    },
                );
                Ok(())
            },
            Err(e) => Err(e),
        }
    }

    /// Runs the whole of `sql` inside one transaction. Either every
    /// statement commits and the trace grows by exactly `sql`, or the
    /// transaction is rolled back and the trace is unchanged.
    pub(crate) fn apply_batch(&mut self, sql: &str) -> (r: Result<(), TxFailure>)
        ensures
            r is Ok ==> final(self).committed() == old(self).committed().push(sql@),
            r is Err ==> final(self).committed() == old(self).committed(),
            session_unchanged(*old(self), *final(self)),
    {
        let tx = match tx_begin(&mut self.conn) {
            Ok(tx) => tx,
            Err(e) => {
                return Err(TxFailure::Begin(e));
            },
        };
        if let Err(e) = tx_execute_batch(&tx, sql) {
            return Err(TxFailure::Execute(e));
        }
        match tx_commit(tx) {
            Ok(()) => {
                self.committed = Ghost(self.committed@.push(sql@));
                Ok(())
            },
            Err(e) => Err(TxFailure::Commit(e)),
        }
    }

    /// Runs a single-integer query against the store, read-only as far as
    /// this library is concerned: the committed trace is untouched.
    pub(crate) fn probe_count(
        &self,
        sql: &str,
        params: &[&str],
    ) -> Result<i64, rusqlite::Error> {
        query_count(&self.conn, sql, params)
    }
}

/// No session setting moved between the two states.
pub open spec fn session_unchanged(before: Store, after: Store) -> bool {
    &&& after.fk_enforced() == before.fk_enforced()
    &&& after.wal_set() == before.wal_set()
    &&& after.sync_normal() == before.sync_normal()
}

/// The journaling and synchronization settings are untouched, and
/// foreign-key enforcement is never dropped — a call may only re-assert it.
pub open spec fn session_preserved(before: Store, after: Store) -> bool {
    &&& after.wal_set() == before.wal_set()
    &&& after.sync_normal() == before.sync_normal()
    &&& before.fk_enforced() ==> after.fk_enforced()
}

/// Opens (or creates) the physical store at `path` and enforces the session
/// invariants before handing the handle back: foreign-key enforcement ON,
/// write-ahead-log journaling, and normal synchronization. Fails if the open
/// or the pragma application fails; nothing has been committed through a
/// freshly opened handle. The pragmas run as one batch that stops at the
/// first failure, so a returned handle has applied all three.
pub fn open_database(path: &str) -> (r: Result<Store, rusqlite::Error>)
    ensures
        r matches Ok(s) ==> {
            &&& s.committed() == Seq::<Seq<char>>::empty()
            &&& s.fk_enforced()
            &&& s.wal_set()
            &&& s.sync_normal()
        },
{
    let conn = match conn_open(path) {
        Ok(c) => c,
        Err(e) => {
            return Err(e);
        },
    };
    let mut store = Store {
        conn,
        committed: Ghost(Seq::empty()),
        session: Ghost(SessionSettings { fk_enforced: false, wal: false, sync_normal: false }),
    };
    match conn_execute_batch(
        &mut store.conn,
        "PRAGMA foreign_keys = ON;\nPRAGMA journal_mode = WAL;\nPRAGMA synchronous = NORMAL;",
    ) {
        Ok(()) => {
            store.session = Ghost(
                SessionSettings { fk_enforced: true, wal: true, sync_normal: true },
            );
            Ok(store)
        },
        Err(e) => Err(e),
    }
}

} // verus!
