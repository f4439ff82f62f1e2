//! What an instruction reports when it does not complete.
use vstd::prelude::*;

verus! {

/// The errors an instruction returns to the runtime.
#[derive(Clone, Copy, Debug, PartialEq, Eq, Structural)]
pub enum StreamError {
    IncorrectProgramId,
    InvalidAccountData,
    InvalidInstructionData,
    InsufficientFunds,
    InvalidArgument,
    /// The clock sysvar could not be read.
    ClockUnavailable,
    /// The rent sysvar could not be read.
    RentUnavailable,
}

/// The inputs on which an instruction stops the program outright.
#[derive(Clone, Copy, Debug, PartialEq, Eq, Structural)]
pub enum Abort {
    /// The writing account's data is not one stored stream.
    MalformedStreamData,
    /// The instruction data is not one encoded argument.
    MalformedInstructionData,
    /// An intermediate amount leaves the range of `i64` or `u64`.
    ArithmeticOverflow,
}

/// Either an error returned to the runtime or an abort.
#[derive(Clone, Copy, Debug, PartialEq, Eq, Structural)]
pub enum Failure {
    Error(StreamError),
    Abort(Abort),
}

/// The fields of the clock sysvar that the instructions read.
#[derive(Clone, Copy, Debug, PartialEq, Eq, Structural)]
pub struct ClockReading {
    pub unix_timestamp: i64,
    pub epoch_start_timestamp: i64,
}

} // verus!
