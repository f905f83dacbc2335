//! Failures of the telemetry pipeline.

use crate::metric::Metric;
use vstd::prelude::*;

verus! {

/// `jemalloc_ctl::Error`: the error code of the allocator's control
/// interface; opaque here, carried along as the cause of a failure.
#[verifier::external_type_specification]
#[verifier::external_body]
pub struct ExCtlError(jemalloc_ctl::Error);

/// A key of the allocator's control interface.
#[derive(Clone, Copy, Debug, PartialEq, Eq, Structural)]
pub enum Key {
    /// The epoch, which refreshes every statistic when advanced.
    Epoch,
    /// The statistic behind a metric.
    Stat(Metric),
}

/// What failed.
#[derive(Clone, Copy, Debug, PartialEq, Eq, Structural)]
pub enum Failure {
    /// A key is unknown to the allocator.
    Resolution(Key),
    /// The allocator could not refresh its statistics.
    Refresh,
    /// A metric could not be read.
    Read(Metric),
    /// A window of capacity zero was asked for.
    InvalidCapacity,
}

/// A failure together with the allocator's own error, where it reported one.
#[derive(Clone, Copy, Debug, PartialEq)]
pub struct TelemetryError {
    pub failure: Failure,
    pub cause: Option<jemalloc_ctl::Error>,
}

impl Failure {
    /// The sentence that describes the failure.
    pub open spec fn message_of(self) -> Seq<char> {
        match self {
            Failure::Resolution(Key::Epoch) => "failed to create mib for `epoch`"@,
            Failure::Resolution(Key::Stat(Metric::Active)) => "failed to create mib for `active`"@,
            Failure::Resolution(Key::Stat(Metric::Allocated)) => "failed to create mib for `allocated`"@,
            Failure::Resolution(Key::Stat(Metric::Mapped)) => "failed to create mib for `mapped`"@,
            Failure::Resolution(Key::Stat(Metric::Metadata)) => "failed to create mib for `metadata`"@,
            Failure::Resolution(Key::Stat(Metric::Retained)) => "failed to create mib for `retained`"@,
            Failure::Refresh => "failed to advance `epoch`"@,
            Failure::Read(Metric::Active) => "failed to read `active`"@,
            Failure::Read(Metric::Allocated) => "failed to read `allocated`"@,
            Failure::Read(Metric::Mapped) => "failed to read `mapped`"@,
            Failure::Read(Metric::Metadata) => "failed to read `metadata`"@,
            Failure::Read(Metric::Retained) => "failed to read `retained`"@,
            Failure::InvalidCapacity => "window capacity must be greater than zero"@,
        }
    }

    /// The sentence that describes the failure.
    pub fn message(self) -> (message: &'static str)
        ensures
            message@ == self.message_of(),
    {
        match self {
            Failure::Resolution(Key::Epoch) => "failed to create mib for `epoch`",
            Failure::Resolution(Key::Stat(Metric::Active)) => "failed to create mib for `active`",
            Failure::Resolution(Key::Stat(Metric::Allocated)) => "failed to create mib for `allocated`",
            Failure::Resolution(Key::Stat(Metric::Mapped)) => "failed to create mib for `mapped`",
            Failure::Resolution(Key::Stat(Metric::Metadata)) => "failed to create mib for `metadata`",
            Failure::Resolution(Key::Stat(Metric::Retained)) => "failed to create mib for `retained`",
            Failure::Refresh => "failed to advance `epoch`",
            Failure::Read(Metric::Active) => "failed to read `active`",
            Failure::Read(Metric::Allocated) => "failed to read `allocated`",
            Failure::Read(Metric::Mapped) => "failed to read `mapped`",
            Failure::Read(Metric::Metadata) => "failed to read `metadata`",
            Failure::Read(Metric::Retained) => "failed to read `retained`",
            Failure::InvalidCapacity => "window capacity must be greater than zero",
        }
    }
}

impl TelemetryError {
    /// A failure the allocator had no part in.
    pub fn plain(failure: Failure) -> (error: TelemetryError)
        ensures
            error == (TelemetryError { failure, cause: None }),
    {
        TelemetryError { failure, cause: None }
    }

    /// The sentence that describes the failure.
    pub fn message(&self) -> (message: &'static str)
        ensures
            message@ == self.failure.message_of(),
    {
        self.failure.message()
    }
}

} // verus!
