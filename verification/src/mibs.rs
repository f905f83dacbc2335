//! Handles to the allocator's statistics.
//!
//! A handle is resolved once from a key's name and then read without another
//! lookup. The statistics are cached by the allocator: advancing the epoch
//! refreshes all of them at once.

use crate::error::Failure;
use crate::error::Key;
use crate::error::TelemetryError;
use crate::jemalloc_context::JemallocCtlContext;
use crate::metric::Metric;
use crate::metric::Readings;
use jemalloc_ctl::epoch_mib;
use jemalloc_ctl::stats;
use jemalloc_ctl::stats::active_mib;
use jemalloc_ctl::stats::allocated_mib;
use jemalloc_ctl::stats::mapped_mib;
use jemalloc_ctl::stats::metadata_mib;
use jemalloc_ctl::stats::retained_mib;
use vstd::prelude::*;

verus! {

/// `jemalloc_ctl::epoch_mib`: the resolved handle of the epoch; opaque here.
#[verifier::external_type_specification]
#[verifier::external_body]
pub struct ExEpochMib(epoch_mib);

/// `jemalloc_ctl::stats::active_mib`: the resolved handle of `stats.active`; opaque here.
#[verifier::external_type_specification]
#[verifier::external_body]
pub struct ExActiveMib(active_mib);

/// `jemalloc_ctl::stats::allocated_mib`: the resolved handle of `stats.allocated`; opaque here.
#[verifier::external_type_specification]
#[verifier::external_body]
pub struct ExAllocatedMib(allocated_mib);

/// `jemalloc_ctl::stats::mapped_mib`: the resolved handle of `stats.mapped`; opaque here.
#[verifier::external_type_specification]
#[verifier::external_body]
pub struct ExMappedMib(mapped_mib);

/// `jemalloc_ctl::stats::metadata_mib`: the resolved handle of `stats.metadata`; opaque here.
#[verifier::external_type_specification]
#[verifier::external_body]
pub struct ExMetadataMib(metadata_mib);

/// `jemalloc_ctl::stats::retained_mib`: the resolved handle of `stats.retained`; opaque here.
#[verifier::external_type_specification]
#[verifier::external_body]
pub struct ExRetainedMib(retained_mib);

// What the allocator answers depends on the process it runs in, so nothing
// is stated of any of the results below: a caller has to deal with every
// answer.

/// `jemalloc_ctl::epoch::mib`: looks up the key `epoch`. Nothing is claimed
/// of the answer.
pub assume_specification[ jemalloc_ctl::epoch::mib ]() -> (answer: Result<epoch_mib, jemalloc_ctl::Error>);

/// `jemalloc_ctl::stats::active::mib`: looks up the key `stats.active`.
/// Nothing is claimed of the answer.
pub assume_specification[ stats::active::mib ]() -> (answer: Result<active_mib, jemalloc_ctl::Error>);

/// `jemalloc_ctl::stats::allocated::mib`: looks up the key
/// `stats.allocated`. Nothing is claimed of the answer.
pub assume_specification[ stats::allocated::mib ]() -> (answer: Result<allocated_mib, jemalloc_ctl::Error>);

/// `jemalloc_ctl::stats::mapped::mib`: looks up the key `stats.mapped`.
/// Nothing is claimed of the answer.
pub assume_specification[ stats::mapped::mib ]() -> (answer: Result<mapped_mib, jemalloc_ctl::Error>);

/// `jemalloc_ctl::stats::metadata::mib`: looks up the key `stats.metadata`.
/// Nothing is claimed of the answer.
pub assume_specification[ stats::metadata::mib ]() -> (answer: Result<metadata_mib, jemalloc_ctl::Error>);

/// `jemalloc_ctl::stats::retained::mib`: looks up the key `stats.retained`.
/// Nothing is claimed of the answer.
pub assume_specification[ stats::retained::mib ]() -> (answer: Result<retained_mib, jemalloc_ctl::Error>);

/// `jemalloc_ctl::epoch_mib::advance`: advances the epoch and answers with
/// the epoch before. Nothing is claimed of the answer.
pub assume_specification[ epoch_mib::advance ](mib: epoch_mib) -> (answer: Result<u64, jemalloc_ctl::Error>);

/// `jemalloc_ctl::stats::active_mib::read`: reads the statistic as of the
/// last advance of the epoch. Nothing is claimed of the answer.
pub assume_specification[ active_mib::read ](mib: active_mib) -> (answer: Result<usize, jemalloc_ctl::Error>);

/// `jemalloc_ctl::stats::allocated_mib::read`: reads the statistic as of the
/// last advance of the epoch. Nothing is claimed of the answer.
pub assume_specification[ allocated_mib::read ](mib: allocated_mib) -> (answer: Result<usize, jemalloc_ctl::Error>);

/// `jemalloc_ctl::stats::mapped_mib::read`: reads the statistic as of the
/// last advance of the epoch. Nothing is claimed of the answer.
pub assume_specification[ mapped_mib::read ](mib: mapped_mib) -> (answer: Result<usize, jemalloc_ctl::Error>);

/// `jemalloc_ctl::stats::metadata_mib::read`: reads the statistic as of the
/// last advance of the epoch. Nothing is claimed of the answer.
pub assume_specification[ metadata_mib::read ](mib: metadata_mib) -> (answer: Result<usize, jemalloc_ctl::Error>);

/// `jemalloc_ctl::stats::retained_mib::read`: reads the statistic as of the
/// last advance of the epoch. Nothing is claimed of the answer.
pub assume_specification[ retained_mib::read ](mib: retained_mib) -> (answer: Result<usize, jemalloc_ctl::Error>);

/// The resolved handles: the epoch and one statistic per metric.
pub struct MIBs {
    pub epoch: epoch_mib,
    pub active: active_mib,
    pub allocated: allocated_mib,
    pub mapped: mapped_mib,
    pub metadata: metadata_mib,
    pub retained: retained_mib,
}

impl MIBs {
    /// Refreshes every statistic, so that the reads that follow are current.
    ///
    /// Whether the allocator can refresh is its own affair; when it cannot,
    /// the error says so and carries the allocator's cause.
    pub fn advance(&self) -> (result: Result<(), TelemetryError>)
        ensures
            result matches Err(error) ==> error.failure == Failure::Refresh && error.cause is Some,
    {
        match self.epoch.advance().context(Failure::Refresh) {
            Ok(_) => Ok(()),
            Err(error) => Err(error),
        }
    }

    /// Resolves the handle of the epoch and of every metric, in that order,
    /// and stops at the first key the allocator does not know.
    pub fn new() -> (result: Result<Self, TelemetryError>)
        ensures
            result matches Err(error) ==> error.failure is Resolution && error.cause is Some,
    {
        let epoch = match jemalloc_ctl::epoch::mib().context(Failure::Resolution(Key::Epoch)) {
            Ok(mib) => mib,
            Err(error) => {
                return Err(error);
            },
        };
        let active = match stats::active::mib().context(Failure::Resolution(Key::Stat(Metric::Active))) {
            Ok(mib) => mib,
            Err(error) => {
                return Err(error);
            },
        };
        let allocated = match stats::allocated::mib().context(
            Failure::Resolution(Key::Stat(Metric::Allocated)),
        ) {
            Ok(mib) => mib,
            Err(error) => {
                return Err(error);
            },
        };
        let mapped = match stats::mapped::mib().context(Failure::Resolution(Key::Stat(Metric::Mapped))) {
            Ok(mib) => mib,
            Err(error) => {
                return Err(error);
            },
        };
        let metadata = match stats::metadata::mib().context(
            Failure::Resolution(Key::Stat(Metric::Metadata)),
        ) {
            Ok(mib) => mib,
            Err(error) => {
                return Err(error);
            },
        };
        let retained = match stats::retained::mib().context(
            Failure::Resolution(Key::Stat(Metric::Retained)),
        ) {
            Ok(mib) => mib,
            Err(error) => {
                return Err(error);
            },
        };
        Ok(MIBs { epoch, active, allocated, mapped, metadata, retained })
    }

    /// Reads every metric, in the order they are tracked, and stops at the
    /// first that cannot be read.
    pub fn read_all(&self) -> (result: Result<Readings, TelemetryError>)
        ensures
            result matches Err(error) ==> error.failure is Read && error.cause is Some,
    {
        let active = match self.active.read().context(Failure::Read(Metric::Active)) {
            Ok(value) => value,
            Err(error) => {
                return Err(error);
            },
        };
        let allocated = match self.allocated.read().context(Failure::Read(Metric::Allocated)) {
            Ok(value) => value,
            Err(error) => {
                return Err(error);
            },
        };
        let mapped = match self.mapped.read().context(Failure::Read(Metric::Mapped)) {
            Ok(value) => value,
            Err(error) => {
                return Err(error);
            },
        };
        let metadata = match self.metadata.read().context(Failure::Read(Metric::Metadata)) {
            Ok(value) => value,
            Err(error) => {
                return Err(error);
            },
        };
        let retained = match self.retained.read().context(Failure::Read(Metric::Retained)) {
            Ok(value) => value,
            Err(error) => {
                return Err(error);
            },
        };
        Ok(Readings { active, allocated, mapped, metadata, retained })
    }
}

} // verus!
