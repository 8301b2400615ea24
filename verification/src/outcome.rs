//! The end of an operation that adds nothing to what its last outside step gave.
use vstd::prelude::*;

use crate::error::UpdateError;

verus! {

/// The last stage of an operation that hands on what its outside step gave.
pub struct AwaitingOutcome {}

impl AwaitingOutcome {
    /// Ends the operation with the value of the outside step, or with its error.
    pub fn finished<T>(self, outcome: Result<T, anyhow::Error>) -> (result: Result<T, UpdateError>)
        ensures
            match outcome {
                Ok(value) => result == Ok::<T, UpdateError>(value),
                Err(error) => result == Err::<T, UpdateError>(UpdateError::Outside(error)),
            },
    {
        match outcome {
            Ok(value) => Ok(value),
            Err(error) => Err(UpdateError::Outside(error)),
        }
    }
}

} // verus!
