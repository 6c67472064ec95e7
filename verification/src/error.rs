//! The errors that callers handle, and the one place where a refusal of the
//! allocator becomes one of them.

use core::convert::Infallible;
use std::collections::TryReserveError;
use vstd::prelude::*;
use vstd::std_specs::convert::FromSpecImpl;

verus! {

/// What an operation of this library reports when it cannot do its work.
/// Every variant is recoverable: the caller gets it as a value.
#[derive(Clone, Copy, Debug, PartialEq, Eq, Structural)]
pub enum Error {
    /// The allocator could not satisfy a request to create or to grow a list.
    AllocationFailure,
    /// A value handle was converted to a typed reference whose type it does not carry.
    TypeMismatch,
    /// A value could not be converted to a value handle, or a handle to the value asked for.
    ElementConversionFailure,
}

/// The error of converting an integer that a value handle cannot hold.
#[derive(Clone, Copy, Debug, PartialEq, Eq, Structural)]
pub struct OutOfRange;

impl From<OutOfRange> for Error {
    fn from(e: OutOfRange) -> (err: Error)
        ensures
            err == Error::ElementConversionFailure,
    {
        Error::ElementConversionFailure
    }
}

impl FromSpecImpl<OutOfRange> for Error {
    open spec fn obeys_from_spec() -> bool {
        true
    }

    open spec fn from_spec(e: OutOfRange) -> Error {
        Error::ElementConversionFailure
    }
}

/// No value of `Infallible` exists, so this conversion is never run; it is
/// here for item types whose conversion to a value handle cannot fail.
impl From<Infallible> for Error {
    fn from(e: Infallible) -> (err: Error) {
        Error::ElementConversionFailure
    }
}

impl FromSpecImpl<Infallible> for Error {
    open spec fn obeys_from_spec() -> bool {
        true
    }

    open spec fn from_spec(e: Infallible) -> Error {
        Error::ElementConversionFailure
    }
}

/// The boundary at which a refusal of the allocator is caught. A request that
/// cannot be met must reach native code as a value, never as a jump out of the
/// call: what a granted request gave passes through, and a refused one becomes
/// `Error::AllocationFailure`, whatever the allocator said of its reasons.
pub fn catch_exception<T>(outcome: Result<T, TryReserveError>) -> (res: Result<T, Error>)
    ensures
        outcome matches Ok(granted) ==> res == Ok::<T, Error>(granted),
        outcome is Err ==> res == Err::<T, Error>(Error::AllocationFailure),
{
    match outcome {
        Ok(granted) => Ok(granted),
        Err(_) => Err(Error::AllocationFailure),
    }
}

} // verus!
