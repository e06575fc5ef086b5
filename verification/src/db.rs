//! The database capability: a connection descriptor, the resolver that
//! maps it to exactly one backend, and the unified pool handle that
//! dispatches to whichever backend was selected.

use crate::error::AppError;
use crate::text;
use vstd::prelude::*;

verus! {

/// Holds sqlx's SQLite pool.  The pool is opaque to verification (its
/// generic declaration cannot be mirrored), so it lives behind this
/// holder; unverified callers reach it through the public field.
#[derive(Debug)]
#[verifier::external_body]
pub struct SqlitePoolHandle {
    pub pool: sqlx::Pool<sqlx::Sqlite>,
}

/// Holds sqlx's Postgres pool; see [`SqlitePoolHandle`].
#[derive(Debug)]
#[verifier::external_body]
pub struct PostgresPoolHandle {
    pub pool: sqlx::Pool<sqlx::Postgres>,
}

/// sqlx's error type, mapped to [`AppError::Database`] before it reaches a
/// caller.
#[verifier::external_type_specification]
#[verifier::external_body]
pub struct ExSqlxError(sqlx::Error);

/// Default cap on pooled connections.
pub const DEFAULT_MAX_CONNECTIONS: u32 = 5;

/// Default number of connections the pool keeps ready.
pub const DEFAULT_MIN_CONNECTIONS: u32 = 1;

/// Default maximum wait, in seconds, to obtain a pooled connection.
pub const DEFAULT_ACQUIRE_TIMEOUT_SECS: u64 = 30;

/// A connection descriptor: a URL-like string plus pool-sizing
/// parameters.  Constructed once from configuration and immutable
/// thereafter.
#[derive(Debug, Clone)]
pub struct DatabaseConfig {
    pub url: String,
    pub max_connections: u32,
    pub min_connections: u32,
    pub acquire_timeout_secs: u64,
}

impl Default for DatabaseConfig {
    /// The default descriptor: the in-memory SQLite URL with the default
    /// pool parameters.
    fn default() -> (c: Self)
        ensures
            c.url@ == "sqlite::memory:"@,
            c.max_connections == DEFAULT_MAX_CONNECTIONS,
            c.min_connections == DEFAULT_MIN_CONNECTIONS,
            c.acquire_timeout_secs == DEFAULT_ACQUIRE_TIMEOUT_SECS,
    {
        DatabaseConfig {
            url: String::from_str("sqlite::memory:"),
            max_connections: DEFAULT_MAX_CONNECTIONS,
            min_connections: DEFAULT_MIN_CONNECTIONS,
            acquire_timeout_secs: DEFAULT_ACQUIRE_TIMEOUT_SECS,
        }
    }
}

impl DatabaseConfig {
    /// A descriptor for the given URL with the default pool parameters.
    pub fn new(url: String) -> (c: Self)
        ensures
            c.url@ == url@,
            c.max_connections == DEFAULT_MAX_CONNECTIONS,
            c.min_connections == DEFAULT_MIN_CONNECTIONS,
            c.acquire_timeout_secs == DEFAULT_ACQUIRE_TIMEOUT_SECS,
    {
        DatabaseConfig {
            url,
            max_connections: DEFAULT_MAX_CONNECTIONS,
            min_connections: DEFAULT_MIN_CONNECTIONS,
            acquire_timeout_secs: DEFAULT_ACQUIRE_TIMEOUT_SECS,
        }
    }

    /// The in-memory SQLite descriptor.  An in-memory instance does not
    /// persist across separate connections, so the connection cap is one.
    pub fn in_memory() -> (c: Self)
        ensures
            spec_is_memory_url(c.url@),
            c.max_connections == 1,
            c.min_connections == 1,
            c.acquire_timeout_secs == DEFAULT_ACQUIRE_TIMEOUT_SECS,
    {
        DatabaseConfig {
            url: String::from_str("sqlite::memory:"),
            max_connections: 1,
            min_connections: 1,
            acquire_timeout_secs: DEFAULT_ACQUIRE_TIMEOUT_SECS,
        }
    }
}

/// The set of backends enabled in this build, carried as data so the
/// resolver's decision is explicit rather than feature-gated.
#[derive(Debug, Clone, Copy, PartialEq, Eq, Structural)]
pub struct EnabledBackends {
    pub sqlite: bool,
    pub postgres: bool,
}

/// The tag of a database backend.
#[derive(Debug, Clone, Copy, PartialEq, Eq, Structural)]
pub enum DatabaseBackend {
    Sqlite,
    Postgres,
}

/// The resolver's decision: which backend to construct, with which
/// effective pool parameters.
#[derive(Debug, Clone)]
pub struct ConnectionPlan {
    pub backend: DatabaseBackend,
    pub url: String,
    pub max_connections: u32,
    pub min_connections: u32,
    pub acquire_timeout_secs: u64,
}

/// Whether sqlx accepts the URL as a SQLite connection string: the name
/// of `SqliteConnectOptions::from_str`'s success, a pure parse of the
/// string alone.
pub uninterp spec fn spec_sqlite_url_parses(url: Seq<char>) -> bool;

/// True when the URL carries a Postgres scheme.
pub open spec fn spec_is_postgres_url(url: Seq<char>) -> bool {
    "postgres://"@.is_prefix_of(url) || "postgresql://"@.is_prefix_of(url)
}

/// True when the URL is the in-memory SQLite form.
pub open spec fn spec_is_memory_url(url: Seq<char>) -> bool {
    url == "sqlite::memory:"@
}

/// The backend selected for a URL under a set of enabled backends:
/// Postgres exactly when it is enabled and explicitly addressed by
/// scheme, otherwise SQLite whenever it is enabled, otherwise none.
/// Selection is total and deterministic.
pub open spec fn spec_selected_backend(url: Seq<char>, enabled: EnabledBackends) -> Option<
    DatabaseBackend,
> {
    if enabled.postgres && spec_is_postgres_url(url) {
        Some(DatabaseBackend::Postgres)
    } else if enabled.sqlite {
        Some(DatabaseBackend::Sqlite)
    } else {
        None
    }
}

/// The connection cap the plan carries: one for the in-memory SQLite
/// store, whatever the descriptor requested; otherwise the requested cap.
pub open spec fn spec_effective_max_connections(
    url: Seq<char>,
    backend: DatabaseBackend,
    requested: u32,
) -> u32 {
    if backend is Sqlite && spec_is_memory_url(url) {
        1u32
    } else {
        requested
    }
}

/// The plan `resolve` owes for a descriptor once a backend is selected.
pub open spec fn spec_plan_for(
    config: DatabaseConfig,
    backend: DatabaseBackend,
    plan: ConnectionPlan,
) -> bool {
    &&& plan.backend == backend
    &&& plan.url@ == config.url@
    &&& plan.max_connections == spec_effective_max_connections(
        config.url@,
        backend,
        config.max_connections,
    )
    &&& plan.min_connections == config.min_connections
    &&& plan.acquire_timeout_secs == config.acquire_timeout_secs
}

/// True exactly when the URL carries a Postgres scheme.
pub fn is_postgres_url(url: &str) -> (r: bool)
    ensures
        r == spec_is_postgres_url(url@),
{
    text::starts_with(url, "postgres://") || text::starts_with(url, "postgresql://")
}

/// True exactly when the URL is the in-memory SQLite form.
pub fn is_memory_url(url: &str) -> (r: bool)
    ensures
        r == spec_is_memory_url(url@),
{
    text::equals_str(url, "sqlite::memory:")
}

/// Maps a connection descriptor to exactly one backend, given the set of
/// enabled backends.  Postgres wins only when it is enabled and the URL
/// carries a Postgres scheme; any other URL — malformed or unknown
/// schemes included — falls back to SQLite when that is enabled
/// (documented fallback, not rejection); with no backend enabled the
/// result is a `Configuration` error, never a panic.
pub fn resolve(config: &DatabaseConfig, enabled: &EnabledBackends) -> (r: Result<
    ConnectionPlan,
    AppError,
>)
    ensures
        match spec_selected_backend(config.url@, *enabled) {
            Some(backend) => r matches Ok(plan) && spec_plan_for(*config, backend, plan),
            None => r matches Err(e) && e matches AppError::Configuration(m) && m@
                == "no supported backend enabled"@,
        },
{
    if enabled.postgres && is_postgres_url(config.url.as_str()) {
        Ok(
            ConnectionPlan {
                backend: DatabaseBackend::Postgres,
                url: config.url.clone(),
                max_connections: config.max_connections,
                min_connections: config.min_connections,
                acquire_timeout_secs: config.acquire_timeout_secs,
            },
        )
    } else if enabled.sqlite {
        let max_connections: u32 = if is_memory_url(config.url.as_str()) {
            1
        } else {
            config.max_connections
        };
        Ok(
            ConnectionPlan {
                backend: DatabaseBackend::Sqlite,
                url: config.url.clone(),
                max_connections,
                min_connections: config.min_connections,
                acquire_timeout_secs: config.acquire_timeout_secs,
            },
        )
    } else {
        Err(AppError::Configuration(String::from_str("no supported backend enabled")))
    }
}

/// A unified handle over the supported database pools.  The tag never
/// changes after construction; `connect` keeps it in step with the
/// descriptor's resolution.  The handle is shared by reference across
/// callers; all mutation happens inside the backend's own pool.
#[derive(Debug)]
pub enum DatabasePool {
    Sqlite(SqlitePoolHandle),
    Postgres(PostgresPoolHandle),
}

/// Relies on `sqlx::Pool`'s `Clone`: the pool is a shared handle, so a
/// clone is another handle to the same underlying pool.
#[verifier::external_body]
fn clone_sqlite_pool(handle: &SqlitePoolHandle) -> SqlitePoolHandle {
    SqlitePoolHandle { pool: handle.pool.clone() }
}

/// Relies on `sqlx::Pool`'s `Clone`: the pool is a shared handle, so a
/// clone is another handle to the same underlying pool.
#[verifier::external_body]
fn clone_postgres_pool(handle: &PostgresPoolHandle) -> PostgresPoolHandle {
    PostgresPoolHandle { pool: handle.pool.clone() }
}

impl Clone for DatabasePool {
    /// A clone of the handle keeps the tag and shares the backend's pool.
    fn clone(&self) -> (r: Self)
        ensures
            r is Sqlite <==> self is Sqlite,
            r is Postgres <==> self is Postgres,
    {
        match self {
            DatabasePool::Sqlite(pool) => DatabasePool::Sqlite(clone_sqlite_pool(pool)),
            DatabasePool::Postgres(pool) => DatabasePool::Postgres(clone_postgres_pool(pool)),
        }
    }
}

impl DatabasePool {
    /// The concrete SQLite pool, when this handle holds one: an escape
    /// hatch for advanced callers, never required on the common path.
    pub fn sqlite_pool(&self) -> (r: Option<&SqlitePoolHandle>)
        ensures
            r is Some <==> self is Sqlite,
            self matches DatabasePool::Sqlite(p) ==> r == Some(p),
    {
        if let DatabasePool::Sqlite(pool) = self {
            Some(pool)
        } else {
            None
        }
    }

    /// The concrete Postgres pool, when this handle holds one.
    pub fn postgres_pool(&self) -> (r: Option<&PostgresPoolHandle>)
        ensures
            r is Some <==> self is Postgres,
            self matches DatabasePool::Postgres(p) ==> r == Some(p),
    {
        if let DatabasePool::Postgres(pool) = self {
            Some(pool)
        } else {
            None
        }
    }

    /// The tag of the active backend.
    pub fn backend(&self) -> (b: DatabaseBackend)
        ensures
            b is Sqlite <==> self is Sqlite,
            b is Postgres <==> self is Postgres,
    {
        match self {
            DatabasePool::Sqlite(_) => DatabaseBackend::Sqlite,
            DatabasePool::Postgres(_) => DatabaseBackend::Postgres,
        }
    }
}

/// Relies on sqlx's `SqlitePoolOptions`: `max_connections` and
/// `acquire_timeout` set the pool limits, and `connect_lazy` builds the
/// pool without opening a connection.  Connection lifetime and idle
/// reaping are switched off and no minimum is kept, so sqlx spawns no
/// maintenance task and the call needs no async runtime.  sqlx sizes the
/// connection queue to the cap and asserts it is non-zero, so a zero cap
/// is excluded by precondition; with that the call cannot panic.
/// Success is `SqliteConnectOptions::from_str`, a pure parse of the URL
/// string alone, named by [`spec_sqlite_url_parses`].
#[verifier::external_body]
fn sqlite_pool_lazy(url: &String, max_connections: u32, acquire_timeout_secs: u64) -> (r: Result<
    SqlitePoolHandle,
    sqlx::Error,
>)
    requires
        max_connections >= 1,
    ensures
        r is Ok <==> spec_sqlite_url_parses(url@),
{
    let pool = sqlx::sqlite::SqlitePoolOptions::new().max_connections(max_connections)
        .acquire_timeout(std::time::Duration::from_secs(acquire_timeout_secs))
        .max_lifetime(None)
        .idle_timeout(None)
        .connect_lazy(url.as_str())?;
    Ok(SqlitePoolHandle { pool })
}

/// Relies on sqlx's `PgPoolOptions`: `max_connections` and
/// `acquire_timeout` set the pool limits, and `connect_lazy` builds the
/// pool without opening a connection.  Connection lifetime and idle
/// reaping are switched off and no minimum is kept, so sqlx spawns no
/// maintenance task and the call needs no async runtime.  sqlx sizes the
/// connection queue to the cap and asserts it is non-zero, so a zero cap
/// is excluded by precondition; with that the call cannot panic.
/// Whether the URL parse succeeds depends on the process environment as
/// well as the string (`PgConnectOptions` defaults read the `PG*`
/// variables), so nothing is promised of success.
#[verifier::external_body]
fn postgres_pool_lazy(url: &String, max_connections: u32, acquire_timeout_secs: u64) -> Result<
    PostgresPoolHandle,
    sqlx::Error,
>
    requires
        max_connections >= 1,
{
    let pool = sqlx::postgres::PgPoolOptions::new().max_connections(max_connections)
        .acquire_timeout(std::time::Duration::from_secs(acquire_timeout_secs))
        .max_lifetime(None)
        .idle_timeout(None)
        .connect_lazy(url.as_str())?;
    Ok(PostgresPoolHandle { pool })
}

/// Relies on `sqlx::Error`'s `Display` implementation for the failure
/// text that is preserved as the cause.
#[verifier::external_body]
fn sqlx_error_text(e: &sqlx::Error) -> String {
    format!("{}", e)
}

/// The single entry point for obtaining a database handle.  Resolution
/// is pure and total; pool construction is delegated to sqlx and
/// performed lazily, so only an unusable URL fails here, as a `Database`
/// error — on the SQLite route, exactly when the URL does not parse.
/// When no backend is enabled the result is the resolver's
/// `Configuration` error.  An effective connection cap of zero is
/// rejected with a `Validation` error before any construction (sqlx
/// asserts the cap is non-zero when sizing its queue); the memory route
/// is never affected, since its cap is forced to one.  A pool built here
/// runs no background maintenance and keeps no minimum of open
/// connections (no task can be spawned without an async runtime); the
/// plan's `min_connections` is applied only by eager constructors around
/// the library.
pub fn connect(config: &DatabaseConfig, enabled: &EnabledBackends) -> (r: Result<
    DatabasePool,
    AppError,
>)
    ensures
        spec_selected_backend(config.url@, *enabled) is None <==> (r matches Err(e)
            && e is Configuration),
        r matches Err(e) ==> (e matches AppError::Configuration(m) ==> m@
            == "no supported backend enabled"@),
        spec_selected_backend(config.url@, *enabled) matches Some(backend) ==> (
        if spec_effective_max_connections(config.url@, backend, config.max_connections) == 0 {
            r matches Err(e) && e matches AppError::Validation(m) && m@
                == "max_connections must be at least 1"@
        } else {
            &&& (r matches Ok(pool) ==> ((pool is Sqlite <==> backend is Sqlite) && (
            pool is Postgres <==> backend is Postgres)))
            &&& (r matches Err(e) ==> e is Database)
            &&& (backend is Sqlite ==> (r is Ok <==> spec_sqlite_url_parses(config.url@)))
        }),
{
    let plan = match resolve(config, enabled) {
        Ok(plan) => plan,
        Err(e) => {
            return Err(e);
        },
    };
    if plan.max_connections == 0 {
        return Err(AppError::Validation(String::from_str("max_connections must be at least 1")));
    }
    match plan.backend {
        DatabaseBackend::Sqlite => {
            match sqlite_pool_lazy(&plan.url, plan.max_connections, plan.acquire_timeout_secs) {
                Ok(pool) => Ok(DatabasePool::Sqlite(pool)),
                Err(e) => Err(AppError::Database(sqlx_error_text(&e))),
            }
        },
        DatabaseBackend::Postgres => {
            match postgres_pool_lazy(&plan.url, plan.max_connections, plan.acquire_timeout_secs) {
                Ok(pool) => Ok(DatabasePool::Postgres(pool)),
                Err(e) => Err(AppError::Database(sqlx_error_text(&e))),
            }
        },
    }
}

/// Law: a Postgres-schemed URL selects Postgres whenever Postgres is
/// enabled, whether or not SQLite is also enabled.
pub proof fn lemma_postgres_scheme_wins(url: Seq<char>, enabled: EnabledBackends)
    requires
        enabled.postgres,
        spec_is_postgres_url(url),
    ensures
        spec_selected_backend(url, enabled) == Some(DatabaseBackend::Postgres),
{
}

/// Law: whenever Postgres is not selected — the URL carries no Postgres
/// scheme, or Postgres is disabled — any URL, malformed or unknown
/// schemes included, selects SQLite when SQLite is enabled.
pub proof fn lemma_sqlite_fallback(url: Seq<char>, enabled: EnabledBackends)
    requires
        enabled.sqlite,
        !(enabled.postgres && spec_is_postgres_url(url)),
    ensures
        spec_selected_backend(url, enabled) == Some(DatabaseBackend::Sqlite),
{
}

/// Law: with no backend enabled, resolution selects nothing, so the
/// resolver answers with a `Configuration` error and never hands out a
/// handle.
pub proof fn lemma_no_backend_selects_nothing(url: Seq<char>, enabled: EnabledBackends)
    requires
        !enabled.sqlite,
        !enabled.postgres,
    ensures
        spec_selected_backend(url, enabled) is None,
{
}

/// Law: the in-memory SQLite URL always resolves with a single
/// connection, overriding whatever cap the descriptor requested.
pub proof fn lemma_memory_url_single_connection(url: Seq<char>, requested: u32)
    requires
        spec_is_memory_url(url),
    ensures
        spec_effective_max_connections(url, DatabaseBackend::Sqlite, requested) == 1,
{
}

} // verus!
