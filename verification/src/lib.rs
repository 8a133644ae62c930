//! A uniform transactional interface over three SQL engines (Postgres-like,
//! MySQL-like, SQLite-like), hiding per-backend placeholder syntax, parameter
//! binding and row decoding behind one generic value vocabulary.
//!
//! The crate models the pieces that decide and compute: the value vocabulary
//! and its probe policy, per-backend binding and row decoding, the SQLite
//! placeholder rewrite, the transaction lifecycle (execute / fetch / stream /
//! bulk / commit / rollback / renewal) and the session registry. The native
//! drivers perform the actual network and file I/O; callers run those calls
//! and feed each outcome back into the verified state machine.

pub mod binder;
pub mod bulk;
pub mod decode;
pub mod errors;
pub mod pool;
pub mod probe;
pub mod registry;
pub mod retry;
pub mod text;
pub mod transaction;
pub mod values;

pub use binder::BoundQuery;
pub use bulk::BulkRun;
pub use bulk::BulkStatus;
pub use decode::RawColumn;
pub use decode::Row;
pub use errors::ConfigError;
pub use errors::DbError;
pub use pool::ConnectionPool;
pub use pool::PoolConfig;
pub use probe::LooseValue;
pub use registry::SessionRegistry;
pub use retry::RetryPolicy;
pub use transaction::FinalizeAction;
pub use transaction::Transaction;
pub use values::Date;
pub use values::DateTime;
pub use values::DriverKind;
pub use values::ParameterValue;
pub use values::Time;
pub use values::ValueKind;
