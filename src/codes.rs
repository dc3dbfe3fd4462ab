//! Platform result codes that the protocol distinguishes, and their classification.
use vstd::prelude::*;

verus! {

/// The call succeeded completely.
pub const NO_ERROR: u32 = 0;

/// The buffer was too small for the item; what fit was written and a retry with a
/// larger buffer continues the same item.
pub const ERROR_MORE_DATA: u32 = 234;

/// The operation was cancelled before the kernel produced a result.
pub const ERROR_OPERATION_ABORTED: u32 = 995;

/// The overlapped call was accepted and will complete later.
pub const ERROR_IO_PENDING: u32 = 997;

/// How a finished kernel call is to be read.
#[derive(PartialEq, Eq, Structural, Clone, Copy, Debug)]
pub enum Outcome {
    /// Fully succeeded; the result record is valid.
    Complete,
    /// Partially succeeded: the buffer was undersized, retry with a larger one.
    MoreData,
    /// Cancelled before the kernel delivered a result.
    Cancelled,
    /// Failed with the given code; the result record is not valid.
    Failed(u32),
}

pub open spec fn outcome_of(code: u32) -> Outcome {
    if code == NO_ERROR {
        Outcome::Complete
    } else if code == ERROR_MORE_DATA {
        Outcome::MoreData
    } else if code == ERROR_OPERATION_ABORTED {
        Outcome::Cancelled
    } else {
        Outcome::Failed(code)
    }
}

/// Reads a completion code as one of the four outcomes.
pub fn classify(code: u32) -> (r: Outcome)
    ensures
        r == outcome_of(code),
{
    if code == NO_ERROR {
        Outcome::Complete
    } else if code == ERROR_MORE_DATA {
        Outcome::MoreData
    } else if code == ERROR_OPERATION_ABORTED {
        Outcome::Cancelled
    } else {
        Outcome::Failed(code)
    }
}

} // verus!
