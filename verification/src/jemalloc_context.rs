//! Turning an answer of the allocator's control interface into a result of
//! this library.

use crate::error::Failure;
use crate::error::TelemetryError;
use vstd::prelude::*;

verus! {

/// What `answer` becomes once `context` says what was being attempted: a
/// value is passed on, an error of the allocator becomes the cause of a
/// `TelemetryError` with that context.
pub open spec fn with_context<T>(
    answer: Result<T, jemalloc_ctl::Error>,
    context: Failure,
) -> Result<T, TelemetryError> {
    match answer {
        Ok(value) => Ok(value),
        Err(cause) => Err(TelemetryError { failure: context, cause: Some(cause) }),
    }
}

/// An answer of the allocator's control interface that can be given a
/// context.
pub trait JemallocCtlContext<T>: Sized {
    /// The answer as the allocator gave it.
    spec fn answer(self) -> Result<T, jemalloc_ctl::Error>;

    /// Passes a value on and wraps an error together with `context`.
    fn context(self, context: Failure) -> (result: Result<T, TelemetryError>)
        ensures
            result == with_context(self.answer(), context),
    ;
}

impl<T> JemallocCtlContext<T> for Result<T, jemalloc_ctl::Error> {
    open spec fn answer(self) -> Result<T, jemalloc_ctl::Error> {
        self
    }

    fn context(self, context: Failure) -> (result: Result<T, TelemetryError>) {
        match self {
            Ok(value) => Ok(value),
            Err(cause) => Err(TelemetryError { failure: context, cause: Some(cause) }),
        }
    }
}

} // verus!
