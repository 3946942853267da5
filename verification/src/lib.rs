//! Low-overhead instrumentation metrics with verified behaviour.
//!
//! The crate provides composable measurement probes (counters, gauges,
//! histograms, throughput trackers) that wrap an expression, observe its
//! entry, exit and outcome, and update their state without panicking:
//! counters wrap on overflow, histograms saturate at their configured
//! bound, and a guard makes sure every entered metric observes its exit
//! exactly once.
//!
//! Metrics attached to the same scope are entered in attachment order by
//! nesting guards; the exit observations then run in reverse attachment
//! order (innermost guard first), and observing a guard a second time is
//! a no-op.

pub mod atomic;
pub mod clear;
pub mod error_count;
pub mod errors;
pub mod hdr_histogram;
pub mod hit_count;
pub mod in_flight;
pub mod instrumented;
pub mod int_counter;
pub mod int_gauge;
pub mod laws;
pub mod metric;
pub mod none_count;
pub mod num_wrapper;
pub mod registry;
pub mod response_time;
pub mod throughput;
pub mod time_source;

pub use clear::{Clear, Clearable};
pub use error_count::ErrorCount;
pub use errors::{BazError, BazErrorCount, ErrorBreakdown, ErrorBreakdownIncr, LibError, LibErrorCount};
pub use hdr_histogram::HdrHistogram;
pub use hit_count::HitCount;
pub use in_flight::InFlight;
pub use instrumented::{Biz, BizMetrics, Boz, BozMetrics};
pub use metric::{Advice, Counter, ExitGuard, Gauge, Histogram, Metric};
pub use none_count::NoneCount;
pub use response_time::ResponseTime;
pub use throughput::{RecordThroughput, Throughput, TxPerSec};
pub use time_source::{Instant, StdInstant, StdInstantMicros};
