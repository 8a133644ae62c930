//! The error taxonomy of the layer.

use vstd::prelude::*;

verus! {

/// Why a pool configuration was refused.
#[derive(Clone, Copy, Debug, PartialEq, Eq, Structural)]
pub enum ConfigError {
    /// The URL does not match the configured driver's scheme.
    UrlMismatch,
    /// `max_connections` must be greater than zero.
    ZeroMaxConnections,
    /// `min_connections` must not exceed `max_connections`.
    MinAboveMax,
    /// `idle_timeout_seconds` must be greater than zero.
    ZeroIdleTimeout,
}

/// Why an operation against a transaction failed.
///
/// Binder and query errors propagate immediately; nothing in this layer
/// retries.
#[derive(Clone, Debug, PartialEq, Eq)]
pub enum DbError {
    /// No connection became free before the acquire timeout elapsed.
    PoolExhausted,
    /// The backend cannot bind a parameter of this kind; the payload names
    /// the declared type.
    UnsupportedParameterType(String),
    /// The native driver reported an error; the payload is its message.
    Query(String),
    /// The operation found the transaction finalized with no handle left.
    NoActiveTransaction,
}

} // verus!
