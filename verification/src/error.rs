//! The errors the harness reports.

use vstd::prelude::*;

verus! {

/// What can go wrong between the harness, an environment and an agent.
#[derive(Clone, Copy, Debug, PartialEq, Eq, Structural)]
pub enum GymError {
    /// An action index outside the environment's action space.
    InvalidAction,
    /// A value that cannot be converted to what was asked for.
    InvalidConversion,
    /// A value of another type than the one expected.
    WrongType,
    /// The result of a step could not be read.
    WrongStepResult,
    /// An observation whose length is not the environment's observation
    /// dimensionality.
    InvalidObservationShape,
    /// Training was asked for on a batch without entries.
    EmptyBatch,
}

impl GymError {
    /// The text that describes the error.
    pub fn message(&self) -> (text: &'static str)
        ensures
            text@ == self.message_of(),
    {
        match self {
            GymError::InvalidAction => "Invalid action",
            GymError::InvalidConversion => "Invalid conversion",
            GymError::WrongType => "Wrong type",
            GymError::WrongStepResult => "Unable to parse step result",
            GymError::InvalidObservationShape => "Invalid observation shape",
            GymError::EmptyBatch => "Empty batch",
        }
    }

    /// The text that describes the error, as a sequence of characters.
    pub open spec fn message_of(&self) -> Seq<char> {
        match self {
            GymError::InvalidAction => "Invalid action"@,
            GymError::InvalidConversion => "Invalid conversion"@,
            GymError::WrongType => "Wrong type"@,
            GymError::WrongStepResult => "Unable to parse step result"@,
            GymError::InvalidObservationShape => "Invalid observation shape"@,
            GymError::EmptyBatch => "Empty batch"@,
        }
    }
}

} // verus!
