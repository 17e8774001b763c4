//! The status that the engine reports of each call.

use libc::c_int;
use vstd::prelude::*;

verus! {

/// The outcome that the engine reports of a call.
#[derive(Debug, Clone, Copy, PartialEq, Eq, Structural)]
pub enum SnappyStatus {
    /// The call did what it was asked.
    Success,
    /// The source is not a well-formed compressed block.
    InvalidInput,
    /// The destination cannot hold the output.
    BufferTooSmall,
}

impl SnappyStatus {
    /// The number by which the engine reports this status.
    pub open spec fn code(self) -> int {
        match self {
            SnappyStatus::Success => 0,
            SnappyStatus::InvalidInput => 1,
            SnappyStatus::BufferTooSmall => 2,
        }
    }

    /// Whether the call succeeded.
    pub fn is_ok(&self) -> (ok: bool)
        ensures
            ok == (*self == SnappyStatus::Success),
    {
        matches!(self, SnappyStatus::Success)
    }

    /// Whether the call failed.
    pub fn is_err(&self) -> (err: bool)
        ensures
            err == (*self != SnappyStatus::Success),
    {
        !self.is_ok()
    }

    /// Reads a status from the number that the engine returned; `None` for a
    /// number that stands for no status.
    pub fn from_code(code: c_int) -> (status: Option<SnappyStatus>)
        ensures
            match status {
                Some(s) => s.code() == code,
                None => code < 0 || 2 < code,
            },
    {
        if code == 0 {
            Some(SnappyStatus::Success)
        } else if code == 1 {
            Some(SnappyStatus::InvalidInput)
        } else if code == 2 {
            Some(SnappyStatus::BufferTooSmall)
        } else {
            None
        }
    }
}

} // verus!
