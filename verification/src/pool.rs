//! Pool configuration and the connection pool's admission accounting.
//!
//! The pool owns one native, backend-tagged connection pool, built once from
//! a validated configuration and immutable afterwards. Connecting is I/O and
//! happens outside this crate; what is decided here is validation — the
//! numeric bounds and the driver/URL scheme match — and the slot accounting
//! that admits at most `max_connections` concurrent transactions. A caller
//! that cannot get a slot before the acquire timeout elapses reports
//! `PoolExhausted`; the configured idle timeout doubles as that acquire
//! timeout, a documented coupling rather than an accident.

use vstd::prelude::*;
use crate::errors::ConfigError;
use crate::errors::DbError;
use crate::text::spec_starts_with;
use crate::text::str_starts_with;
use crate::transaction::Transaction;
use crate::values::DriverKind;

verus! {

/// The validated inputs a pool is built from.
#[derive(Clone, Debug)]
pub struct PoolConfig {
    pub driver: DriverKind,
    pub url: String,
    pub max_connections: u32,
    pub min_connections: u32,
    /// Idle timeout in seconds; also the connection-acquire timeout.
    pub idle_timeout_seconds: u64,
    /// Additional driver-specific options, passed through untouched.
    pub extra_options: Vec<(String, String)>,
}

/// Whether the URL names the configured driver's scheme.
pub open spec fn scheme_ok(d: DriverKind, url: Seq<char>) -> bool {
    match d {
        DriverKind::Postgres => spec_starts_with(url, "postgres://"@) || spec_starts_with(
            url,
            "postgresql://"@,
        ),
        DriverKind::MySql => spec_starts_with(url, "mysql://"@),
        DriverKind::Sqlite => spec_starts_with(url, "sqlite:"@),
    }
}

/// Why the configuration is refused, if it is: the checks run in a fixed
/// order and the first failure wins.
pub open spec fn config_error_spec(c: PoolConfig) -> Option<ConfigError> {
    if c.max_connections == 0 {
        Some(ConfigError::ZeroMaxConnections)
    } else if c.min_connections > c.max_connections {
        Some(ConfigError::MinAboveMax)
    } else if c.idle_timeout_seconds == 0 {
        Some(ConfigError::ZeroIdleTimeout)
    } else if !scheme_ok(c.driver, c.url@) {
        Some(ConfigError::UrlMismatch)
    } else {
        None
    }
}

impl PoolConfig {
    /// Assembles a configuration from its parts.
    pub fn new(
        driver: DriverKind,
        url: String,
        max_connections: u32,
        min_connections: u32,
        idle_timeout_seconds: u64,
        extra_options: Vec<(String, String)>,
    ) -> (c: PoolConfig)
        ensures
            c == (PoolConfig {
                driver,
                url,
                max_connections,
                min_connections,
                idle_timeout_seconds,
                extra_options,
            }),
    {
        PoolConfig { driver, url, max_connections, min_connections, idle_timeout_seconds, extra_options }
    }

    /// The stock Postgres-like configuration: ten connections at most, one
    /// kept, ten minutes of idle timeout.
    pub fn default_postgres(url: String) -> (c: PoolConfig)
        ensures
            c.driver == DriverKind::Postgres,
            c.url == url,
            c.max_connections == 10,
            c.min_connections == 1,
            c.idle_timeout_seconds == 600,
            c.extra_options@.len() == 0,
    {
        PoolConfig {
            driver: DriverKind::Postgres,
            url,
            max_connections: 10,
            min_connections: 1,
            idle_timeout_seconds: 600,
            extra_options: Vec::new(),
        }
    }

    /// Checks the URL against the driver's scheme.
    pub fn scheme_matches(&self) -> (r: bool)
        ensures
            r == scheme_ok(self.driver, self.url@),
    {
        match self.driver {
            DriverKind::Postgres => {
                str_starts_with(self.url.as_str(), "postgres://") || str_starts_with(
                    self.url.as_str(),
                    "postgresql://",
                )
            },
            DriverKind::MySql => str_starts_with(self.url.as_str(), "mysql://"),
            DriverKind::Sqlite => str_starts_with(self.url.as_str(), "sqlite:"),
        }
    }
}

/// The pool's decision state: its immutable configuration and how many
/// connections are currently lent out.
#[derive(Clone, Debug)]
pub struct ConnectionPool {
    pub config: PoolConfig,
    pub in_use: u32,
}

impl ConnectionPool {
    /// Never more connections lent out than the configuration admits.
    pub open spec fn wf(self) -> bool {
        self.in_use <= self.config.max_connections
    }

    /// Validates the configuration and sets up the pool's accounting. The
    /// checks run in a fixed order and the first failure is reported.
    pub fn new(config: PoolConfig) -> (r: Result<ConnectionPool, ConfigError>)
        ensures
            match r {
                Ok(p) => config_error_spec(config) is None && p == (ConnectionPool {
                    config,
                    in_use: 0,
                }) && p.wf(),
                Err(e) => config_error_spec(config) == Some(e),
            },
    {
        if config.max_connections == 0 {
            return Err(ConfigError::ZeroMaxConnections);
        }
        if config.min_connections > config.max_connections {
            return Err(ConfigError::MinAboveMax);
        }
        if config.idle_timeout_seconds == 0 {
            return Err(ConfigError::ZeroIdleTimeout);
        }
        if !config.scheme_matches() {
            return Err(ConfigError::UrlMismatch);
        }
        Ok(ConnectionPool { config, in_use: 0 })
    }

    /// Admits one more transaction when a slot is free: the minted
    /// transaction carries the pool's backend tag, holds a fresh handle and
    /// is clean. With every slot taken, nothing is granted — the caller
    /// keeps waiting or, once the acquire timeout elapses, reports
    /// `PoolExhausted`.
    pub fn try_begin(&mut self) -> (r: Option<Transaction>)
        requires
            old(self).wf(),
        ensures
            final(self).wf(),
            final(self).config == old(self).config,
            old(self).in_use < old(self).config.max_connections ==> r == Some(
                Transaction {
                    driver: old(self).config.driver,
                    handle_present: true,
                    dirty: false,
                },
            ) && final(self).in_use == old(self).in_use + 1,
            old(self).in_use == old(self).config.max_connections ==> r is None && *final(self)
                == *old(self),
    {
        if self.in_use < self.config.max_connections {
            self.in_use = self.in_use + 1;
            Some(Transaction::fresh(self.config.driver))
        } else {
            None
        }
    }

    /// Gives a slot back when a transaction's connection returns to the
    /// native pool.
    pub fn release(&mut self)
        requires
            old(self).wf(),
            old(self).in_use > 0,
        ensures
            final(self).wf(),
            final(self).config == old(self).config,
            final(self).in_use == old(self).in_use - 1,
    {
        self.in_use = self.in_use - 1;
    }

    /// What a `transaction()` call reports once its wait ends: the minted
    /// transaction when a slot was granted before the deadline, and
    /// `PoolExhausted` when the acquire timeout elapsed first.
    pub fn transaction_result(granted: Option<Transaction>) -> (r: Result<Transaction, DbError>)
        ensures
            match granted {
                Some(tx) => r == Ok::<Transaction, DbError>(tx),
                None => r == Err::<Transaction, DbError>(DbError::PoolExhausted),
            },
    {
        match granted {
            Some(tx) => Ok(tx),
            None => Err(DbError::PoolExhausted),
        }
    }

    /// The acquire timeout: the configured idle timeout, reused.
    pub fn acquire_timeout_seconds(&self) -> (t: u64)
        ensures
            t == self.config.idle_timeout_seconds,
    {
        self.config.idle_timeout_seconds
    }
}

} // verus!
