//! Live view of an allocator's statistics: rolling windows of samples per
//! metric, the plot series derived from them, the chart's axis policy and the
//! loop that alternates drawing, input handling and sampling.

pub mod chart;
pub mod control;
pub mod error;
pub mod histograms;
pub mod jemalloc_context;
pub mod metric;
pub mod mibs;
pub mod ring;
pub mod snapshots;
pub mod stress;
