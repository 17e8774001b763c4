//! The errors that the codec returns.

use crate::status::SnappyStatus;
use vstd::prelude::*;

verus! {

/// Why an operation of the codec failed.
#[derive(Debug, Clone, Copy, PartialEq, Eq, Structural)]
pub enum SnappyError {
    /// The source is not a well-formed compressed block.
    InvalidInput,
    /// The destination that was handed to the engine could not hold the
    /// output.
    BufferTooSmall,
}

impl SnappyError {
    /// The error that a failed status stands for.  `Success` stands for
    /// none.
    pub open spec fn spec_from(status: SnappyStatus) -> SnappyError
        recommends
            status != SnappyStatus::Success,
    {
        match status {
            SnappyStatus::InvalidInput => SnappyError::InvalidInput,
            SnappyStatus::BufferTooSmall => SnappyError::BufferTooSmall,
            SnappyStatus::Success => arbitrary(),
        }
    }

    /// Converts a failed status into the error that it stands for.  No
    /// error comes of `Success`: to ask for one is a fault of the caller.
    pub fn from(status: SnappyStatus) -> (error: SnappyError)
        requires
            status != SnappyStatus::Success,
        ensures
            error == SnappyError::spec_from(status),
    {
        match status {
            SnappyStatus::InvalidInput => SnappyError::InvalidInput,
            SnappyStatus::BufferTooSmall => SnappyError::BufferTooSmall,
            SnappyStatus::Success => unreached(),
        }
    }
}

} // verus!
