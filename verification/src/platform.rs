//! What differs between the systems that share the control-message layout.

use vstd::prelude::*;

verus! {

/// The capabilities of the system that the messages are prepared for,
/// chosen once and handed to every operation.
#[derive(Clone, Copy, Debug, PartialEq, Eq, Structural)]
pub struct Platform {
    /// The kernel carries credentials records.
    pub credentials: bool,
    /// Send and receive calls take the flag that suppresses `SIGPIPE`.
    pub nosignal: bool,
    /// The largest number of byte slices that the message header can count.
    pub max_slices: usize,
    /// The largest control length that the message header can hold.
    pub max_control_len: usize,
}

impl Platform {
    /// Linux with a C library whose message header counts in `usize`.
    pub fn linux() -> (platform: Platform)
        ensures
            platform == (Platform {
                credentials: true,
                nosignal: true,
                max_slices: usize::MAX,
                max_control_len: usize::MAX,
            }),
    {
        Platform {
            credentials: true,
            nosignal: true,
            max_slices: usize::MAX,
            max_control_len: usize::MAX,
        }
    }
}

} // verus!
