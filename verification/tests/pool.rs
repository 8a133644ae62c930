use hypern_db::errors::ConfigError;
use hypern_db::errors::DbError;
use hypern_db::pool::ConnectionPool;
use hypern_db::pool::PoolConfig;
use hypern_db::values::DriverKind;

fn config(driver: DriverKind, url: &str) -> PoolConfig {
    PoolConfig::new(driver, String::from(url), 2, 1, 30, Vec::new())
}

#[test]
fn validation_reports_the_first_failure() {
    let mut c = config(DriverKind::Postgres, "postgres://localhost/db");
    c.max_connections = 0;
    assert_eq!(
        ConnectionPool::new(c).unwrap_err(),
        ConfigError::ZeroMaxConnections
    );

    let mut c = config(DriverKind::Postgres, "postgres://localhost/db");
    c.min_connections = 3;
    assert_eq!(ConnectionPool::new(c).unwrap_err(), ConfigError::MinAboveMax);

    let mut c = config(DriverKind::Postgres, "postgres://localhost/db");
    c.idle_timeout_seconds = 0;
    assert_eq!(
        ConnectionPool::new(c).unwrap_err(),
        ConfigError::ZeroIdleTimeout
    );

    let c = config(DriverKind::Postgres, "mysql://localhost/db");
    assert_eq!(ConnectionPool::new(c).unwrap_err(), ConfigError::UrlMismatch);
}

#[test]
fn every_driver_scheme_is_recognised() {
    assert!(ConnectionPool::new(config(DriverKind::Postgres, "postgres://h/db")).is_ok());
    assert!(ConnectionPool::new(config(DriverKind::Postgres, "postgresql://h/db")).is_ok());
    assert!(ConnectionPool::new(config(DriverKind::MySql, "mysql://h/db")).is_ok());
    assert!(ConnectionPool::new(config(DriverKind::Sqlite, "sqlite::memory:")).is_ok());
    assert!(ConnectionPool::new(config(DriverKind::Sqlite, "sqlite://data.db")).is_ok());
    assert!(ConnectionPool::new(config(DriverKind::Sqlite, "postgres://h/db")).is_err());
}

#[test]
fn admission_stops_at_max_connections() {
    let mut pool = ConnectionPool::new(config(DriverKind::MySql, "mysql://h/db")).unwrap();
    // Two slots: two transactions are admitted, the third caller gets
    // nothing and keeps waiting; once its acquire timeout elapses it
    // reports pool exhaustion.
    let t1 = pool.try_begin().unwrap();
    assert!(t1.handle_present && !t1.dirty);
    assert_eq!(t1.driver, DriverKind::MySql);
    let _t2 = pool.try_begin().unwrap();
    let denied = pool.try_begin();
    assert!(denied.is_none());
    assert_eq!(
        ConnectionPool::transaction_result(denied),
        Err(DbError::PoolExhausted)
    );

    // A freed slot admits the waiter.
    pool.release();
    assert!(pool.try_begin().is_some());
}

#[test]
fn acquire_timeout_reuses_idle_timeout() {
    let pool = ConnectionPool::new(config(DriverKind::Postgres, "postgres://h/db")).unwrap();
    assert_eq!(pool.acquire_timeout_seconds(), 30);
}

#[test]
fn stock_postgres_configuration() {
    let c = PoolConfig::default_postgres(String::from("postgres://h/db"));
    assert_eq!(c.max_connections, 10);
    assert_eq!(c.min_connections, 1);
    assert_eq!(c.idle_timeout_seconds, 600);
    assert!(c.extra_options.is_empty());
    assert!(ConnectionPool::new(c).is_ok());
}
