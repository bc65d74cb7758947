//! Statistics collection for a ZFS cache monitor: parsers for kernel and
//! command-line statistics text, per-second rate derivation, a time-to-live
//! cache and the decisions of the collector that ties them together.
use vstd::prelude::*;

pub mod bandwidth;
pub mod cache;
pub mod clock;
pub mod collector;
pub mod demo;
pub mod display;
pub mod error;
pub mod formatter;
pub mod kstat;
pub mod laws;
pub mod pools;
pub mod pool_output;
pub mod rate;
pub mod store;
pub mod text;
pub mod types;

pub use bandwidth::parse_bandwidth;
pub use cache::Cache;
pub use collector::{ArcStep, SlogStep, ZfsStatsCollector};
pub use demo::{DemoCommandExecutor, DemoFilesystemReader, RealCommandExecutor, RealFilesystemReader};
pub use display::{MonitorError, ProgressBar, Terminal};
pub use error::{ZfsError, ZfsResult};
pub use formatter::{format_bytes, format_bytes_ratio, format_ops_per_second, format_rate};
pub use pools::PoolManager;
pub use rate::{Observation, RateCalculator, RateSample, Timestamp};
pub use types::{ArcSample, CacheStatus, L2ArcSample, Percent, SlogSample};

verus! {

} // verus!
