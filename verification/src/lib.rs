//! Ancillary data for Unix-domain sockets on Linux: building, sizing and
//! reading the control blocks that carry file descriptors and sender
//! credentials beside a message.
//!
//! The library never touches a socket. It prepares what a `sendmsg` call is
//! given, decides what a `recvmsg` call may be given, and reads what the
//! kernel left in the control buffer. Whoever owns the socket performs the
//! two system calls and closes the descriptors this library tells it to close.
//!
//! Control blocks are laid out as the Linux kernel lays them out on 64-bit
//! little-endian machines: a 16-byte header (length, level, type) followed by
//! the payload, each block starting on an 8-byte boundary.

pub mod buffer;
pub mod bytes;
pub mod credentials;
pub mod decode;
pub mod encode;
pub mod error;
pub mod laws;
pub mod layout;
pub mod platform;
pub mod recv;
pub mod send;
pub mod syscall;
pub mod traits;

pub use buffer::{spec_fd_capacity, AncillaryBuf};
pub use credentials::Credentials;
pub use decode::{Ancillary, AncillaryItem, ItemView, ReceivedFds};
pub use encode::{encode_into, encoded_capacity, MAX_SEND_FDS};
pub use error::{Error, InvalidInput};
pub use layout::{
    bytes_to_alignment, cmsg_align, cmsg_len, cmsg_space, spec_cmsg_align, spec_cmsg_len,
    spec_cmsg_space, ALIGNMENT, CREDENTIALS_LEN, FD_LEN, HEADER_LEN, MAX_PAYLOAD,
    MSG_CMSG_CLOEXEC, MSG_CTRUNC, MSG_NOSIGNAL, MSG_TRUNC, SCM_CREDENTIALS, SCM_RIGHTS,
    SOL_SOCKET,
};
pub use platform::Platform;
pub use recv::RecvRequest;
pub use send::SendRequest;
pub use syscall::{completion, Completion, EINTR};
pub use traits::{UnixDatagramExt, UnixStreamExt};
