//! The identity of a sending process.

use vstd::prelude::*;

verus! {

/// The process, user and group that a message is sent as.
#[derive(Clone, Copy, Debug, PartialEq, Eq, Structural)]
pub struct Credentials {
    /// Process id.
    pub pid: i32,
    /// User id.
    pub uid: u32,
    /// Group id.
    pub gid: u32,
}

} // verus!
