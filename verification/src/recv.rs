//! Deciding what a receive call may be given.

use crate::error::InvalidInput;
use crate::layout::{ALIGNMENT, MSG_CMSG_CLOEXEC};
use crate::platform::Platform;
use crate::send::send_flags;
use vstd::prelude::*;

verus! {

/// Why a receive into `num_bufs` byte buffers and a control buffer of
/// `control_len` bytes at address `control_addr` is refused, if it is. The
/// buffer count is looked at first, then where the control buffer starts,
/// then how long it is; an empty control buffer may lie anywhere.
pub open spec fn recv_refusal(
    platform: Platform,
    num_bufs: int,
    control_addr: int,
    control_len: int,
) -> Option<InvalidInput> {
    if num_bufs > platform.max_slices {
        Some(InvalidInput::TooManyBuffers)
    } else if control_len > 0 && control_addr % (ALIGNMENT as int) != 0 {
        Some(InvalidInput::Misaligned)
    } else if control_len > 0 && control_len > platform.max_control_len {
        Some(InvalidInput::TooBig)
    } else {
        None
    }
}

/// The flags that a receive call is given: those of a send call, and the one
/// that has received descriptors closed when the process runs another
/// program.
pub open spec fn recv_flags(platform: Platform, flags: i32) -> i32 {
    send_flags(platform, flags) | MSG_CMSG_CLOEXEC
}

/// What a receive call is given besides the buffers: the flags and the length
/// of the control buffer.
#[derive(Clone, Copy, Debug, PartialEq, Eq, Structural)]
pub struct RecvRequest {
    /// The flags for the receive call.
    pub flags: i32,
    /// The length of the control buffer. Where it is zero, the call is given
    /// no control buffer at all.
    pub control_len: usize,
}

impl RecvRequest {
    /// Prepares a receive into `num_bufs` byte buffers and a control buffer of
    /// `control_len` bytes that starts at address `control_addr`, or refuses
    /// it.
    pub fn new(
        platform: &Platform,
        flags: i32,
        num_bufs: usize,
        control_addr: usize,
        control_len: usize,
    ) -> (prepared: Result<RecvRequest, InvalidInput>)
        ensures
            prepared == match recv_refusal(
                *platform,
                num_bufs as int,
                control_addr as int,
                control_len as int,
            ) {
                Some(refusal) => Err::<RecvRequest, InvalidInput>(refusal),
                None => Ok::<RecvRequest, InvalidInput>(
                    RecvRequest { flags: recv_flags(*platform, flags), control_len },
                ),
            },
    {
        if num_bufs > platform.max_slices {
            return Err(InvalidInput::TooManyBuffers);
        }
        if control_len > 0 {
            if control_addr % ALIGNMENT != 0 {
                return Err(InvalidInput::Misaligned);
            }
            if control_len > platform.max_control_len {
                return Err(InvalidInput::TooBig);
            }
        }
        let flags: i32 = if platform.nosignal {
            flags | crate::layout::MSG_NOSIGNAL
        } else {
            flags
        };
        Ok(RecvRequest { flags: flags | MSG_CMSG_CLOEXEC, control_len })
    }
}

} // verus!
