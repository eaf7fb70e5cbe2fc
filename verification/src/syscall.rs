//! Reading the return value of a send or receive call.

use vstd::prelude::*;

verus! {

/// The error number of a call that a signal interrupted.
pub const EINTR: i32 = 4;

/// What to do after a send or receive call has returned.
#[derive(Clone, Copy, Debug, PartialEq, Eq, Structural)]
pub enum Completion {
    /// A signal interrupted the call: make it again.
    Retry,
    /// The call went through, with this many payload bytes.
    Done(usize),
    /// The call failed with this error number.
    Failed(i32),
}

/// What a call that returned `returned` and left the error number `errno`
/// comes to. A count, zero too, is passed on as it is. An interrupted call
/// is to be made again. Every other failure is passed on with its error
/// number.
pub open spec fn spec_completion(returned: isize, errno: i32) -> Completion {
    if returned >= 0 {
        Completion::Done(returned as usize)
    } else if errno == EINTR {
        Completion::Retry
    } else {
        Completion::Failed(errno)
    }
}

/// Decides what to do after a send or receive call has returned `returned`
/// and left the error number `errno`.
pub fn completion(returned: isize, errno: i32) -> (next: Completion)
    ensures
        next == spec_completion(returned, errno),
{
    if returned >= 0 {
        Completion::Done(returned as usize)
    } else if errno == EINTR {
        Completion::Retry
    } else {
        Completion::Failed(errno)
    }
}

} // verus!
