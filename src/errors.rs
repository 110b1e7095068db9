//! The library's error type.
use vstd::prelude::*;

verus! {

/// anyhow's `Error`, carried opaque as the cause of an unexpected failure.
#[verifier::external_type_specification]
#[verifier::external_body]
pub struct ExAnyhowError(anyhow::Error);

/// Failure of an operation on schedules.
#[derive(Debug)]
pub enum AppError {
    /// The item with the requested id does not exist.
    RowNotFound,
    /// Any other failure, such as one of the backing store.
    Unexpected(anyhow::Error),
}

impl From<anyhow::Error> for AppError {
    fn from(val: anyhow::Error) -> (r: AppError)
        ensures
            r == AppError::Unexpected(val),
    {
        AppError::Unexpected(val)
    }
}

impl vstd::std_specs::convert::FromSpecImpl<anyhow::Error> for AppError {
    open spec fn obeys_from_spec() -> bool {
        true
    }

    open spec fn from_spec(v: anyhow::Error) -> AppError {
        AppError::Unexpected(v)
    }
}

} // verus!
