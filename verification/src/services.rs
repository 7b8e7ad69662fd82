//! The health polling services: the data source, the retry rules, and the
//! polling session.

pub mod adb_health_provider;
pub mod backoff;
pub mod health_cache;
pub mod health_poller;
pub mod polling;

pub use health_poller::{
    after_failed_attempt, calculate_backoff, classify_error, classify_lowercase, decide_retry,
    first_attempt, ErrorType, PollingErrorEvent, RetryDecision,
};
pub use adb_health_provider::{AdbHealthProvider, ShellReport};
pub use health_cache::HealthCache;
pub use polling::{CycleStep, HealthPollingService};
