//! The ways in which an operation is refused or fails.

use vstd::prelude::*;

verus! {

/// An argument that is refused before the system is asked anything.
#[derive(Clone, Copy, Debug, PartialEq, Eq, Structural)]
pub enum InvalidInput {
    /// More byte slices to send than the message header can count.
    TooManySlices,
    /// More file descriptors to send than one control block may carry.
    TooManyFds,
    /// More buffers to receive into than the message header can count.
    TooManyBuffers,
    /// The ancillary buffer does not start on an aligned address.
    Misaligned,
    /// The ancillary buffer is longer than the message header can say.
    TooBig,
}

impl InvalidInput {
    /// A short description of what was refused.
    pub fn message(&self) -> (text: &'static str)
        ensures
            text@ == match *self {
                InvalidInput::TooManySlices => "too many byte slices"@,
                InvalidInput::TooManyFds => "too many file descriptors"@,
                InvalidInput::TooManyBuffers => "too many content buffers"@,
                InvalidInput::Misaligned => "ancillary buffer is not properly aligned"@,
                InvalidInput::TooBig => "ancillary buffer is too big"@,
            },
    {
        match self {
            InvalidInput::TooManySlices => "too many byte slices",
            InvalidInput::TooManyFds => "too many file descriptors",
            InvalidInput::TooManyBuffers => "too many content buffers",
            InvalidInput::Misaligned => "ancillary buffer is not properly aligned",
            InvalidInput::TooBig => "ancillary buffer is too big",
        }
    }
}

/// Why a send or a receive did not happen.
#[derive(Clone, Copy, Debug, PartialEq, Eq, Structural)]
pub enum Error {
    /// An argument was refused; the system was not asked.
    InvalidInput(InvalidInput),
    /// The system call failed with this error number.
    Os(i32),
}

impl Error {
    /// What the outcome of a system call comes to: its count, or the failure
    /// with its error number.
    pub fn of_call(outcome: Result<usize, i32>) -> (result: Result<usize, Error>)
        ensures
            result == match outcome {
                Ok(count) => Ok::<usize, Error>(count),
                Err(errno) => Err::<usize, Error>(Error::Os(errno)),
            },
    {
        match outcome {
            Ok(count) => Ok(count),
            Err(errno) => Err(Error::Os(errno)),
        }
    }
}

} // verus!
