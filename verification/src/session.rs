//! The session-store capability: a unified handle over the supported
//! concrete stores, with the same tagged-union dispatch pattern as the
//! database pool, specialized to the session operations.  The handle
//! never inspects a session record's payload; it only routes by tag.

use crate::db::DatabasePool;
use crate::error::AppError;
use vstd::prelude::*;

verus! {

/// tower-sessions' SQLite-backed session store, carried opaquely.
#[verifier::external_type_specification]
#[verifier::external_body]
pub struct ExSqliteStore(tower_sessions_sqlx_store::SqliteStore);

/// tower-sessions' Postgres-backed session store, carried opaquely.
#[verifier::external_type_specification]
#[verifier::external_body]
pub struct ExPostgresStore(tower_sessions_sqlx_store::PostgresStore);

/// Which concrete store a dispatched session operation must use.
#[derive(Debug, Clone, Copy, PartialEq, Eq, Structural)]
pub enum SessionBackend {
    Sqlite,
    Postgres,
}

/// A unified handle over the supported session stores.  The tag never
/// changes after construction.  `Unused` stands for a build with session
/// support but no database backend; dispatching to it yields a typed
/// backend error, never a panic, because that state is reachable from
/// malformed configuration rather than only from programmer error.
#[derive(Debug)]
pub enum InfraSessionStore {
    Sqlite(tower_sessions_sqlx_store::SqliteStore),
    Postgres(tower_sessions_sqlx_store::PostgresStore),
    Unused,
}

/// Relies on `tower_sessions_sqlx_store::SqliteStore::new`: wraps the
/// pool with the store's default table name; no I/O happens here.
#[verifier::external_body]
fn new_sqlite_store(handle: crate::db::SqlitePoolHandle) -> tower_sessions_sqlx_store::SqliteStore {
    tower_sessions_sqlx_store::SqliteStore::new(handle.pool)
}

/// Relies on `tower_sessions_sqlx_store::PostgresStore::new`: wraps the
/// pool with the store's default schema and table names; no I/O happens
/// here.
#[verifier::external_body]
fn new_postgres_store(
    handle: crate::db::PostgresPoolHandle,
) -> tower_sessions_sqlx_store::PostgresStore {
    tower_sessions_sqlx_store::PostgresStore::new(handle.pool)
}

/// Relies on `tower_sessions_sqlx_store::SqliteStore`'s `Clone`: the
/// store holds a shared pool handle, so a clone uses the same pool.
#[verifier::external_body]
fn clone_sqlite_store(
    store: &tower_sessions_sqlx_store::SqliteStore,
) -> tower_sessions_sqlx_store::SqliteStore {
    store.clone()
}

/// Relies on `tower_sessions_sqlx_store::PostgresStore`'s `Clone`: the
/// store holds a shared pool handle, so a clone uses the same pool.
#[verifier::external_body]
fn clone_postgres_store(
    store: &tower_sessions_sqlx_store::PostgresStore,
) -> tower_sessions_sqlx_store::PostgresStore {
    store.clone()
}

impl Clone for InfraSessionStore {
    /// A clone of the handle keeps the tag and shares the backend store.
    fn clone(&self) -> (r: Self)
        ensures
            r is Sqlite <==> self is Sqlite,
            r is Postgres <==> self is Postgres,
            r is Unused <==> self is Unused,
    {
        match self {
            InfraSessionStore::Sqlite(store) => InfraSessionStore::Sqlite(
                clone_sqlite_store(store),
            ),
            InfraSessionStore::Postgres(store) => InfraSessionStore::Postgres(
                clone_postgres_store(store),
            ),
            InfraSessionStore::Unused => InfraSessionStore::Unused,
        }
    }
}

impl InfraSessionStore {
    /// Builds the session-store handle over an already-resolved database
    /// handle, so the store's tag always matches the pool's and a
    /// configured pool never yields an unconfigured store.
    pub fn from_pool(pool: DatabasePool) -> (r: Self)
        ensures
            pool is Sqlite <==> r is Sqlite,
            pool is Postgres <==> r is Postgres,
            r !is Unused,
    {
        match pool {
            DatabasePool::Sqlite(handle) => InfraSessionStore::Sqlite(new_sqlite_store(handle)),
            DatabasePool::Postgres(handle) => InfraSessionStore::Postgres(
                new_postgres_store(handle),
            ),
        }
    }

    /// The dispatch decision shared by the four session operations —
    /// `save`, `load`, `delete` and `migrate`: which backend performs
    /// the operation, or the typed backend error reported when no
    /// backend is configured.  The unconfigured path is reachable from
    /// malformed configuration, so it is never a silent success and
    /// never a panic.
    pub fn route(&self) -> (r: Result<SessionBackend, AppError>)
        ensures
            self is Sqlite ==> r == Ok::<SessionBackend, AppError>(SessionBackend::Sqlite),
            self is Postgres ==> r == Ok::<SessionBackend, AppError>(SessionBackend::Postgres),
            self is Unused ==> (r matches Err(e) && e matches AppError::Database(m) && m@
                == "No database feature enabled"@),
    {
        match self {
            InfraSessionStore::Sqlite(_) => Ok(SessionBackend::Sqlite),
            InfraSessionStore::Postgres(_) => Ok(SessionBackend::Postgres),
            InfraSessionStore::Unused => Err(
                AppError::Database(String::from_str("No database feature enabled")),
            ),
        }
    }

    /// True exactly when some concrete backend is configured.
    pub fn is_configured(&self) -> (r: bool)
        ensures
            r == (self !is Unused),
    {
        match self {
            InfraSessionStore::Unused => false,
            _ => true,
        }
    }

    /// The concrete SQLite store, when this handle holds one: an escape
    /// hatch for advanced callers, never required on the common path.
    pub fn sqlite_store(&self) -> (r: Option<&tower_sessions_sqlx_store::SqliteStore>)
        ensures
            r is Some <==> self is Sqlite,
            self matches InfraSessionStore::Sqlite(store) ==> r == Some(store),
    {
        if let InfraSessionStore::Sqlite(store) = self {
            Some(store)
        } else {
            None
        }
    }

    /// The concrete Postgres store, when this handle holds one.
    pub fn postgres_store(&self) -> (r: Option<&tower_sessions_sqlx_store::PostgresStore>)
        ensures
            r is Some <==> self is Postgres,
            self matches InfraSessionStore::Postgres(store) ==> r == Some(store),
    {
        if let InfraSessionStore::Postgres(store) = self {
            Some(store)
        } else {
            None
        }
    }
}

} // verus!
