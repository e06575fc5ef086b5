use infra_core::db::{
    connect, is_memory_url, is_postgres_url, resolve, DatabaseBackend, DatabaseConfig,
    DatabasePool, EnabledBackends,
};

fn both() -> EnabledBackends {
    EnabledBackends { sqlite: true, postgres: true }
}

fn sqlite_only() -> EnabledBackends {
    EnabledBackends { sqlite: true, postgres: false }
}

fn postgres_only() -> EnabledBackends {
    EnabledBackends { sqlite: false, postgres: true }
}

fn neither() -> EnabledBackends {
    EnabledBackends { sqlite: false, postgres: false }
}

#[test]
fn default_config_is_in_memory_sqlite() {
    let config = DatabaseConfig::default();
    assert_eq!(config.url, "sqlite::memory:");
    assert_eq!(config.max_connections, 5);
    assert_eq!(config.min_connections, 1);
    assert_eq!(config.acquire_timeout_secs, 30);
}

#[test]
fn new_keeps_url_and_defaults() {
    let config = DatabaseConfig::new("postgres://localhost:5432/mydb".to_string());
    assert_eq!(config.url, "postgres://localhost:5432/mydb");
    assert_eq!(config.max_connections, 5);
    assert_eq!(config.min_connections, 1);
    assert_eq!(config.acquire_timeout_secs, 30);
}

#[test]
fn in_memory_config_is_single_connection() {
    let config = DatabaseConfig::in_memory();
    assert_eq!(config.url, "sqlite::memory:");
    assert_eq!(config.max_connections, 1);
    assert_eq!(config.min_connections, 1);
}

#[test]
fn postgres_scheme_selects_postgres_even_with_sqlite_enabled() {
    let config = DatabaseConfig::new("postgres://localhost:5432/mydb".to_string());
    let plan = resolve(&config, &both()).unwrap();
    assert_eq!(plan.backend, DatabaseBackend::Postgres);
    assert_eq!(plan.url, "postgres://localhost:5432/mydb");
    assert_eq!(plan.max_connections, 5);
    assert_eq!(plan.min_connections, 1);
    assert_eq!(plan.acquire_timeout_secs, 30);
}

#[test]
fn postgresql_scheme_selects_postgres() {
    let config = DatabaseConfig::new("postgresql://localhost:5432/mydb".to_string());
    let plan = resolve(&config, &postgres_only()).unwrap();
    assert_eq!(plan.backend, DatabaseBackend::Postgres);
}

#[test]
fn non_postgres_url_falls_back_to_sqlite() {
    let config = DatabaseConfig::new("sqlite:data.db".to_string());
    let plan = resolve(&config, &both()).unwrap();
    assert_eq!(plan.backend, DatabaseBackend::Sqlite);
    assert_eq!(plan.url, "sqlite:data.db");
}

#[test]
fn malformed_scheme_falls_back_to_sqlite_when_enabled() {
    let config = DatabaseConfig::new("postgre://typo:5432/mydb".to_string());
    let plan = resolve(&config, &both()).unwrap();
    assert_eq!(plan.backend, DatabaseBackend::Sqlite);
}

#[test]
fn postgres_url_with_postgres_disabled_becomes_sqlite() {
    let config = DatabaseConfig::new("postgres://localhost:5432/mydb".to_string());
    let plan = resolve(&config, &sqlite_only()).unwrap();
    assert_eq!(plan.backend, DatabaseBackend::Sqlite);
}

#[test]
fn no_backend_enabled_is_a_configuration_error() {
    let config = DatabaseConfig::new("sqlite:data.db".to_string());
    let err = resolve(&config, &neither()).unwrap_err();
    assert!(err.is_configuration());
    assert_eq!(
        err.message(),
        "Configuration error: no supported backend enabled"
    );
}

#[test]
fn postgres_url_with_neither_enabled_is_a_configuration_error() {
    let config = DatabaseConfig::new("postgres://localhost:5432/mydb".to_string());
    let err = resolve(&config, &neither()).unwrap_err();
    assert!(err.is_configuration());
}

#[test]
fn memory_url_forces_single_connection_in_plan() {
    let mut config = DatabaseConfig::in_memory();
    config.max_connections = 42;
    let plan = resolve(&config, &sqlite_only()).unwrap();
    assert_eq!(plan.backend, DatabaseBackend::Sqlite);
    assert_eq!(plan.max_connections, 1);
}

#[test]
fn file_url_keeps_requested_connection_cap() {
    let mut config = DatabaseConfig::new("sqlite:data.db".to_string());
    config.max_connections = 42;
    let plan = resolve(&config, &sqlite_only()).unwrap();
    assert_eq!(plan.max_connections, 42);
}

#[test]
fn connect_in_memory_yields_sqlite_handle() {
    let pool = connect(&DatabaseConfig::in_memory(), &sqlite_only()).unwrap();
    assert!(pool.sqlite_pool().is_some());
    assert!(pool.postgres_pool().is_none());
    assert_eq!(pool.backend(), DatabaseBackend::Sqlite);
}

#[test]
fn connect_postgres_url_yields_postgres_handle() {
    let config = DatabaseConfig::new("postgres://localhost:5432/mydb".to_string());
    let pool = connect(&config, &both()).unwrap();
    assert!(pool.postgres_pool().is_some());
    assert!(pool.sqlite_pool().is_none());
    assert_eq!(pool.backend(), DatabaseBackend::Postgres);
}

#[test]
fn connect_with_no_backend_is_a_configuration_error() {
    let err = connect(&DatabaseConfig::in_memory(), &neither()).unwrap_err();
    assert!(err.is_configuration());
}

#[test]
fn cloned_handle_keeps_the_tag() {
    let pool = connect(&DatabaseConfig::in_memory(), &sqlite_only()).unwrap();
    let copy = pool.clone();
    assert_eq!(copy.backend(), DatabaseBackend::Sqlite);
    match (pool, copy) {
        (DatabasePool::Sqlite(_), DatabasePool::Sqlite(_)) => {}
        _ => panic!("clone changed the handle's tag"),
    }
}

#[test]
fn scheme_tests_match_exact_prefixes() {
    assert!(is_postgres_url("postgres://"));
    assert!(is_postgres_url("postgresql://db.example.com/prod"));
    assert!(!is_postgres_url("postgres:/"));
    assert!(!is_postgres_url("POSTGRES://caps"));
    assert!(!is_postgres_url(""));
    assert!(is_memory_url("sqlite::memory:"));
    assert!(!is_memory_url("sqlite::memory:extra"));
    assert!(!is_memory_url("sqlite:data.db"));
}

#[test]
fn connect_rejects_an_unparsable_sqlite_url_as_database_error() {
    let config = DatabaseConfig::new("sqlite:data.db?mode=bogus".to_string());
    let err = connect(&config, &sqlite_only()).unwrap_err();
    assert!(!err.is_configuration());
    assert!(matches!(err, infra_core::error::AppError::Database(_)));
}

#[test]
fn connect_accepts_a_parsable_file_url() {
    let config = DatabaseConfig::new("sqlite:data.db".to_string());
    let pool = connect(&config, &sqlite_only()).unwrap();
    assert_eq!(pool.backend(), DatabaseBackend::Sqlite);
}

#[test]
fn connect_rejects_a_zero_connection_cap_with_a_validation_error() {
    let mut config = DatabaseConfig::new("sqlite:data.db".to_string());
    config.max_connections = 0;
    let err = connect(&config, &sqlite_only()).unwrap_err();
    assert!(matches!(
        err,
        infra_core::error::AppError::Validation(ref m) if m == "max_connections must be at least 1"
    ));

    let mut config = DatabaseConfig::new("postgres://localhost:5432/mydb".to_string());
    config.max_connections = 0;
    let err = connect(&config, &both()).unwrap_err();
    assert!(matches!(err, infra_core::error::AppError::Validation(_)));
}

#[test]
fn memory_url_with_zero_cap_still_connects_with_one() {
    let mut config = DatabaseConfig::in_memory();
    config.max_connections = 0;
    let pool = connect(&config, &sqlite_only()).unwrap();
    assert_eq!(pool.backend(), DatabaseBackend::Sqlite);
}

#[test]
fn empty_url_falls_back_to_sqlite_when_enabled() {
    let config = DatabaseConfig::new(String::new());
    let plan = resolve(&config, &both()).unwrap();
    assert_eq!(plan.backend, DatabaseBackend::Sqlite);
}
