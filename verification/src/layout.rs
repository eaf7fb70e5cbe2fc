//! Sizes and constants of the control-message layout.

use vstd::prelude::*;

verus! {

/// Bytes taken by the header that starts every control block: an 8-byte
/// length, a 4-byte level and a 4-byte type.
pub const HEADER_LEN: usize = 16;

/// Every control block starts at a multiple of this many bytes.
pub const ALIGNMENT: usize = 8;

/// Bytes taken by one file descriptor in a payload.
pub const FD_LEN: usize = 4;

/// Bytes taken by a credentials record in a payload: process, user, group.
pub const CREDENTIALS_LEN: usize = 12;

/// The largest payload whose block still has a size that fits in 32 bits.
pub const MAX_PAYLOAD: usize = 0xffff_ffe8;

/// Level of the control blocks that sockets themselves define.
pub const SOL_SOCKET: i32 = 1;

/// Type of a block that carries file descriptors.
pub const SCM_RIGHTS: i32 = 1;

/// Type of a block that carries the sender's credentials.
pub const SCM_CREDENTIALS: i32 = 2;

/// Set in the flags of a received message whose control data did not fit.
pub const MSG_CTRUNC: i32 = 0x08;

/// Set in the flags of a received message whose payload did not fit.
pub const MSG_TRUNC: i32 = 0x20;

/// Asks that writing to a closed peer raises no `SIGPIPE`.
pub const MSG_NOSIGNAL: i32 = 0x4000;

/// Asks that received descriptors are closed when the process runs another
/// program.
pub const MSG_CMSG_CLOEXEC: i32 = 0x4000_0000;

/// `len` rounded up to the next multiple of [`ALIGNMENT`].
pub open spec fn spec_cmsg_align(len: int) -> int {
    (len + 7) / 8 * 8
}

/// The length that the header of a block with `payload` bytes declares:
/// header and payload, without the padding that follows.
pub open spec fn spec_cmsg_len(payload: int) -> int {
    HEADER_LEN as int + payload
}

/// The bytes that a block with `payload` bytes occupies in a chain: header,
/// payload and the padding up to the next block.
pub open spec fn spec_cmsg_space(payload: int) -> int {
    HEADER_LEN as int + spec_cmsg_align(payload)
}

/// Rounds `len` up to the next multiple of [`ALIGNMENT`]: by less than one
/// step, and not at all where `len` is such a multiple.
pub fn cmsg_align(len: usize) -> (aligned: usize)
    requires
        len <= MAX_PAYLOAD,
    ensures
        aligned == spec_cmsg_align(len as int),
        len <= aligned < len + ALIGNMENT,
        aligned % ALIGNMENT == 0,
        len % ALIGNMENT == 0 ==> aligned == len,
{
    (len + 7) / 8 * 8
}

/// The number of bytes from the address `addr` to the next address that a
/// control buffer may start at: the fewest that reach a multiple of
/// [`ALIGNMENT`].
pub fn bytes_to_alignment(addr: usize) -> (skip: usize)
    ensures
        skip < ALIGNMENT,
        (addr + skip) % (ALIGNMENT as int) == 0,
        skip == 0 <==> addr % ALIGNMENT == 0,
        skip > 0 ==> skip == ALIGNMENT - addr % ALIGNMENT,
{
    (ALIGNMENT - addr % ALIGNMENT) % ALIGNMENT
}

/// The value of the length field of a block that carries `payload` bytes.
pub fn cmsg_len(payload: usize) -> (len: usize)
    requires
        payload <= MAX_PAYLOAD,
    ensures
        len == spec_cmsg_len(payload as int),
{
    HEADER_LEN + payload
}

/// The bytes to reserve for a block that carries `payload` bytes.
pub fn cmsg_space(payload: usize) -> (space: usize)
    requires
        payload <= MAX_PAYLOAD,
    ensures
        space == spec_cmsg_space(payload as int),
{
    HEADER_LEN + cmsg_align(payload)
}

} // verus!
