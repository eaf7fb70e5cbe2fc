//! Preparing a message to send.

use crate::buffer::AncillaryBuf;
use crate::credentials::Credentials;
use crate::encode::{
    encode_into, encoded, encoded_capacity, lemma_encoded_len, MAX_SEND_FDS,
};
use crate::error::InvalidInput;
use crate::layout::MSG_NOSIGNAL;
use crate::platform::Platform;
use vstd::prelude::*;

verus! {

/// Why a message with `num_slices` byte slices and `num_fds` descriptors is
/// refused, if it is: the slice count is looked at first.
pub open spec fn send_refusal(platform: Platform, num_slices: int, num_fds: int) -> Option<
    InvalidInput,
> {
    if num_slices > platform.max_slices {
        Some(InvalidInput::TooManySlices)
    } else if num_fds > MAX_SEND_FDS {
        Some(InvalidInput::TooManyFds)
    } else {
        None
    }
}

/// The flags that a send call is given: the caller's, and the one that
/// suppresses `SIGPIPE` where the platform has it.
pub open spec fn send_flags(platform: Platform, flags: i32) -> i32 {
    if platform.nosignal {
        flags | MSG_NOSIGNAL
    } else {
        flags
    }
}

/// The credentials that reach the encoder: none where the platform has no
/// credentials.
pub open spec fn offered(platform: Platform, creds: Option<Credentials>) -> Option<Credentials> {
    if platform.credentials {
        creds
    } else {
        None
    }
}

/// What a send call is given besides the bytes and the address: the flags and
/// the control data.
#[derive(Debug)]
pub struct SendRequest {
    flags: i32,
    control: AncillaryBuf,
}

impl SendRequest {
    /// The flags for the send call.
    pub closed spec fn spec_flags(&self) -> i32 {
        self.flags
    }

    /// The control data for the send call.
    pub closed spec fn spec_control(&self) -> Seq<u8> {
        self.control@
    }

    /// Whether the control data needed no allocation.
    pub closed spec fn spec_control_on_stack(&self) -> bool {
        self.control.is_on_stack()
    }

    /// Prepares a message of `num_slices` byte slices that carries `fds` and
    /// `creds`, or refuses it. The control data is exactly as long as the
    /// blocks take, and empty where there is nothing to carry; it is
    /// allocated only where it is longer than
    /// [`AncillaryBuf::MAX_STACK_CAPACITY`].
    pub fn new(
        platform: &Platform,
        flags: i32,
        num_slices: usize,
        fds: &[i32],
        creds: Option<Credentials>,
    ) -> (prepared: Result<SendRequest, InvalidInput>)
        ensures
            match prepared {
                Ok(request) => {
                    &&& send_refusal(*platform, num_slices as int, fds.len() as int) is None
                    &&& request.spec_flags() == send_flags(*platform, flags)
                    &&& request.spec_control() == encoded(offered(*platform, creds), fds@)
                    &&& request.spec_control_on_stack() <==> request.spec_control().len()
                        <= AncillaryBuf::MAX_STACK_CAPACITY
                },
                Err(refusal) => send_refusal(*platform, num_slices as int, fds.len() as int)
                    == Some(refusal),
            },
    {
        if num_slices > platform.max_slices {
            return Err(InvalidInput::TooManySlices);
        }
        let creds: Option<Credentials> = if platform.credentials {
            creds
        } else {
            None
        };
        let needed: usize = match encoded_capacity(creds.is_some(), fds.len()) {
            Ok(needed) => needed,
            Err(refusal) => {
                return Err(refusal);
            },
        };
        let mut control: AncillaryBuf = AncillaryBuf::with_capacity(needed);
        proof {
            lemma_encoded_len(creds, fds@);
        }
        encode_into(control.as_mut_slice(), creds, fds);
        let flags: i32 = if platform.nosignal {
            flags | MSG_NOSIGNAL
        } else {
            flags
        };
        Ok(SendRequest { flags, control })
    }

    /// The flags for the send call.
    pub fn flags(&self) -> (flags: i32)
        ensures
            flags == self.spec_flags(),
    {
        self.flags
    }

    /// The control data for the send call. Where it is empty, the call is
    /// given no control buffer at all.
    pub fn control(&self) -> (control: &[u8])
        ensures
            control@ == self.spec_control(),
    {
        self.control.as_slice()
    }

    /// Whether the control data needed no allocation.
    pub fn control_on_stack(&self) -> (inside: bool)
        ensures
            inside == self.spec_control_on_stack(),
    {
        self.control.on_stack()
    }
}

} // verus!
