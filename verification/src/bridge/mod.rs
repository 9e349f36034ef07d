//! Bridge compatibility: configuration shared by the bridge managers, and the
//! service that ties the transaction, ephemeral, namespace and puppet managers.
use vstd::prelude::*;

pub mod transactions;
pub mod ephemeral;
pub mod namespace;
pub mod puppet;
pub mod service;

verus! {

/// Bridge compatibility configuration.
#[derive(Debug, Clone, Copy, PartialEq, Eq, Structural)]
pub struct BridgeCompatibilityConfig {
    /// Maximum number of events in one transaction.
    pub max_transaction_size: usize,
    /// Transaction timeout in milliseconds.
    pub transaction_timeout_ms: u64,
    /// Maximum concurrent transactions per bridge.
    pub max_concurrent_transactions: usize,
    /// Maximum ephemeral events per second per bridge.
    pub max_ephemeral_events_per_sec: u64,
    /// Whether namespace validation results are cached.
    pub enable_namespace_caching: bool,
    /// Maximum virtual users per bridge.
    pub max_virtual_users_per_bridge: usize,
    /// Whether bridge-specific optimizations are on.
    pub enable_bridge_optimizations: bool,
    /// Whether duplicate transactions are detected.
    pub enable_transaction_deduplication: bool,
    /// Whether metrics are collected.
    pub enable_metrics: bool,
}

/// The default bridge configuration.
pub open spec fn default_bridge_config() -> BridgeCompatibilityConfig {
    BridgeCompatibilityConfig {
        max_transaction_size: 1000,
        transaction_timeout_ms: 30000,
        max_concurrent_transactions: 10,
        max_ephemeral_events_per_sec: 10,
        enable_namespace_caching: true,
        max_virtual_users_per_bridge: 10000,
        enable_bridge_optimizations: true,
        enable_transaction_deduplication: true,
        enable_metrics: true,
    }
}

impl BridgeCompatibilityConfig {
    /// The default configuration: 1000 events per transaction, a 30 s timeout,
    /// 10 concurrent transactions, 10 ephemeral events per second, 10000
    /// virtual users per bridge, and every feature on.
    pub fn default_config() -> (c: Self)
        ensures
            c == default_bridge_config(),
    {
        BridgeCompatibilityConfig {
            max_transaction_size: 1000,
            transaction_timeout_ms: 30000,
            max_concurrent_transactions: 10,
            max_ephemeral_events_per_sec: 10,
            enable_namespace_caching: true,
            max_virtual_users_per_bridge: 10000,
            enable_bridge_optimizations: true,
            enable_transaction_deduplication: true,
            enable_metrics: true,
        }
    }
}

impl Default for BridgeCompatibilityConfig {
    fn default() -> (c: Self)
        ensures
            c == default_bridge_config(),
    {
        Self::default_config()
    }
}

} // verus!
