//! Health-policy decision engine: turns raw telemetry samples into summary
//! statistics, derives a normalized stress signal vector, and applies a
//! configurable threshold policy to decide whether a job is kept, throttled,
//! or killed.
//!
//! All quantities are exact rationals ([`Ratio`]): samples enter as
//! fixed-point integers over a shared scale, so every statistic and every
//! threshold comparison is computed and specified exactly.

pub mod decimal;
pub mod metrics;
mod ratio;
pub mod sentry;
pub mod signals;

pub use crate::metrics::{EntropyMetrics, MetricSnapshot};
pub use crate::ratio::{Ratio, LIMIT_BOUND, SIGNAL_BOUND};
pub use crate::sentry::{ConfigParseError, SentryConfig, SentryDecision, SentryEngine};
pub use crate::signals::SentrySignals;
