//! Status codes of the runtime and the error type of the binding layer.

use vstd::prelude::*;
use vstd::std_specs::convert::FromSpecImpl;

verus! {

/// Status code with which the runtime reports success.
pub const CELIX_SUCCESS: i32 = 0;

/// Status code of the runtime's bundle exception.
pub const BUNDLE_EXCEPTION: i32 = 70001;

/// Failure surface of the binding layer: the named domain error, raised on a
/// failed validation or a rejected request, and any other status code of the
/// runtime, carried through undecoded.
#[derive(Debug, Clone, Copy, PartialEq, Eq, Structural)]
pub enum Error {
    BundleException,
    CelixStatusError(i32),
}

impl Error {
    /// The error that a status code stands for.
    pub open spec fn of_status(status: i32) -> Error {
        if status == BUNDLE_EXCEPTION {
            Error::BundleException
        } else {
            Error::CelixStatusError(status)
        }
    }

    /// The status code that reports this error to the runtime.
    pub open spec fn status(self) -> i32 {
        match self {
            Error::BundleException => BUNDLE_EXCEPTION,
            Error::CelixStatusError(status) => status,
        }
    }

    /// Whether `of_status` can produce this error. The one error it never
    /// produces carries the bundle exception's code as an unmapped status.
    pub open spec fn is_canonical(self) -> bool {
        self != Error::CelixStatusError(BUNDLE_EXCEPTION)
    }

    /// Turning a status code into an error and back gives the same code.
    pub proof fn lemma_status_round_trip(status: i32)
        ensures
            Error::of_status(status).status() == status,
            Error::of_status(status).is_canonical(),
    {
    }

    /// Turning a canonical error into a status code and back gives the same
    /// error.
    pub proof fn lemma_error_round_trip(e: Error)
        requires
            e.is_canonical(),
        ensures
            Error::of_status(e.status()) == e,
    {
    }

    /// A status code maps to the bundle exception exactly if it is that
    /// exception's code.
    pub proof fn lemma_bundle_exception_code(status: i32)
        ensures
            Error::of_status(status) == Error::BundleException <==> status == BUNDLE_EXCEPTION,
    {
    }
}

impl From<i32> for Error {
    fn from(status: i32) -> (e: Error) {
        if status == BUNDLE_EXCEPTION {
            Error::BundleException
        } else {
            Error::CelixStatusError(status)
        }
    }
}

impl FromSpecImpl<i32> for Error {
    open spec fn obeys_from_spec() -> bool {
        true
    }

    open spec fn from_spec(status: i32) -> Error {
        Error::of_status(status)
    }
}

impl From<Error> for i32 {
    fn from(e: Error) -> (status: i32) {
        match e {
            Error::BundleException => BUNDLE_EXCEPTION,
            Error::CelixStatusError(status) => status,
        }
    }
}

impl FromSpecImpl<Error> for i32 {
    open spec fn obeys_from_spec() -> bool {
        true
    }

    open spec fn from_spec(e: Error) -> i32 {
        e.status()
    }
}

/// The status code that a lifecycle step reports to the runtime: success, or
/// the code of the error it ended with.
pub open spec fn status_of_spec(outcome: Result<(), Error>) -> i32 {
    match outcome {
        Ok(_) => CELIX_SUCCESS,
        Err(e) => e.status(),
    }
}

/// Computes the status code that a lifecycle step reports to the runtime.
pub fn status_of(outcome: Result<(), Error>) -> (status: i32)
    ensures
        status == status_of_spec(outcome),
{
    match outcome {
        Ok(_) => CELIX_SUCCESS,
        Err(e) => e.into(),
    }
}

} // verus!
