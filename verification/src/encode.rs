//! Laying out the control blocks of a message to send.

use crate::bytes::{i32_le, put_i32, put_u32, put_u64, splice, u32_le, u64_le};
use crate::credentials::Credentials;
use crate::error::InvalidInput;
use crate::layout::{
    cmsg_align, cmsg_len, cmsg_space, spec_cmsg_align, spec_cmsg_len, spec_cmsg_space, ALIGNMENT,
    CREDENTIALS_LEN, FD_LEN, HEADER_LEN, SCM_CREDENTIALS, SCM_RIGHTS, SOL_SOCKET,
};
use vstd::prelude::*;

verus! {

/// The most file descriptors that one message may carry. The length field
/// could say more; the limit keeps every size computed here far from it.
pub const MAX_SEND_FDS: usize = 0xff_ffff;

/// `count` zero bytes.
pub open spec fn zeros(count: int) -> Seq<u8> {
    Seq::new(count as nat, |i: int| 0u8)
}

/// The header of a control block: its length, level and type.
pub open spec fn header(len: u64, level: i32, kind: i32) -> Seq<u8> {
    u64_le(len) + i32_le(level) + i32_le(kind)
}

/// The payload that carries `fds`: four bytes for each, in order.
pub open spec fn fds_payload(fds: Seq<i32>) -> Seq<u8> {
    Seq::new((FD_LEN * fds.len()) as nat, |i: int| i32_le(fds[i / 4])[i % 4])
}

/// The payload that carries `creds`: process, user, group.
pub open spec fn credentials_payload(creds: Credentials) -> Seq<u8> {
    i32_le(creds.pid) + u32_le(creds.uid) + u32_le(creds.gid)
}

/// One control block: a header that declares the length of header and
/// payload, the payload, and zero bytes up to the next aligned offset.
pub open spec fn block(level: i32, kind: i32, payload: Seq<u8>) -> Seq<u8> {
    header(spec_cmsg_len(payload.len() as int) as u64, level, kind) + payload + zeros(
        spec_cmsg_align(payload.len() as int) - payload.len(),
    )
}

/// The control data of a message: a credentials block if there are
/// credentials, then a descriptor block if there are descriptors.
pub open spec fn encoded(creds: Option<Credentials>, fds: Seq<i32>) -> Seq<u8> {
    let first = match creds {
        Some(c) => block(SOL_SOCKET, SCM_CREDENTIALS, credentials_payload(c)),
        None => Seq::<u8>::empty(),
    };
    let second = if fds.len() > 0 {
        block(SOL_SOCKET, SCM_RIGHTS, fds_payload(fds))
    } else {
        Seq::<u8>::empty()
    };
    first + second
}

/// The length of the control data of a message with or without credentials
/// and with `num_fds` descriptors.
pub open spec fn encoded_len(credentials: bool, num_fds: int) -> int {
    (if credentials {
        spec_cmsg_space(CREDENTIALS_LEN as int)
    } else {
        0
    }) + (if num_fds > 0 {
        spec_cmsg_space(FD_LEN as int * num_fds)
    } else {
        0
    })
}

/// A block takes the space that the sizing function gives for its payload,
/// so that the block after it starts on an aligned offset again.
pub proof fn lemma_block_len(level: i32, kind: i32, payload: Seq<u8>)
    ensures
        block(level, kind, payload).len() == spec_cmsg_space(payload.len() as int),
        block(level, kind, payload).len() % (ALIGNMENT as nat) == 0,
{
}

/// Control data is as long as the capacity computed for it.
pub proof fn lemma_encoded_len(creds: Option<Credentials>, fds: Seq<i32>)
    ensures
        encoded(creds, fds).len() == encoded_len(creds is Some, fds.len() as int),
{
    if let Some(c) = creds {
        lemma_block_len(SOL_SOCKET, SCM_CREDENTIALS, credentials_payload(c));
    }
    lemma_block_len(SOL_SOCKET, SCM_RIGHTS, fds_payload(fds));
}

/// The capacity that the control data of a message takes, or the refusal of
/// a descriptor count over [`MAX_SEND_FDS`].
pub fn encoded_capacity(credentials: bool, num_fds: usize) -> (capacity: Result<
    usize,
    InvalidInput,
>)
    ensures
        num_fds > MAX_SEND_FDS <==> capacity == Err::<usize, InvalidInput>(
            InvalidInput::TooManyFds,
        ),
        num_fds <= MAX_SEND_FDS <==> capacity == Ok::<usize, InvalidInput>(
            encoded_len(credentials, num_fds as int) as usize,
        ),
{
    if num_fds > MAX_SEND_FDS {
        return Err(InvalidInput::TooManyFds);
    }
    let mut needed: usize = 0;
    if credentials {
        needed = needed + cmsg_space(CREDENTIALS_LEN);
    }
    if num_fds > 0 {
        needed = needed + cmsg_space(num_fds * FD_LEN);
    }
    Ok(needed)
}

/// Writes `count` zero bytes from `at` on.
fn put_zeros(buf: &mut [u8], at: usize, count: usize)
    requires
        at + count <= old(buf).len(),
    ensures
        final(buf)@ == splice(old(buf)@, at as int, zeros(count as int)),
{
    let ghost before = buf@;
    let mut done: usize = 0;
    while done < count
        invariant
            done <= count,
            at + count <= buf.len(),
            buf@.len() == before.len(),
            forall|j: int|
                0 <= j < buf@.len() ==> buf@[j] == if at <= j < at + done {
                    0u8
                } else {
                    before[j]
                },
        decreases count - done,
    {
        buf[at + done] = 0;
        done = done + 1;
    }
}

/// Writes the header of a block from `at` on.
fn put_header(buf: &mut [u8], at: usize, len: usize, level: i32, kind: i32)
    requires
        at + HEADER_LEN <= old(buf).len(),
    ensures
        final(buf)@ == splice(old(buf)@, at as int, header(len as u64, level, kind)),
{
    put_u64(buf, at, len as u64);
    put_i32(buf, at + 8, level);
    put_i32(buf, at + 12, kind);
}

/// Writes the descriptors `fds` from `at` on, four bytes each.
fn put_fds(buf: &mut [u8], at: usize, fds: &[i32])
    requires
        at + FD_LEN * fds.len() <= old(buf).len(),
    ensures
        final(buf)@ == splice(old(buf)@, at as int, fds_payload(fds@)),
{
    let ghost before = buf@;
    let ghost payload = fds_payload(fds@);
    let mut done: usize = 0;
    while done < fds.len()
        invariant
            done <= fds.len(),
            at + FD_LEN * fds.len() <= buf.len(),
            buf@.len() == before.len(),
            payload == fds_payload(fds@),
            forall|j: int|
                0 <= j < buf@.len() ==> buf@[j] == if at <= j < at + 4 * done {
                    payload[j - at]
                } else {
                    before[j]
                },
        decreases fds.len() - done,
    {
        put_i32(buf, at + 4 * done, fds[done]);
        done = done + 1;
    }
}

/// Writes the three numbers of `creds` from `at` on.
fn put_credentials(buf: &mut [u8], at: usize, creds: Credentials)
    requires
        at + CREDENTIALS_LEN <= old(buf).len(),
    ensures
        final(buf)@ == splice(old(buf)@, at as int, credentials_payload(creds)),
{
    put_i32(buf, at, creds.pid);
    put_u32(buf, at + 4, creds.uid);
    put_u32(buf, at + 8, creds.gid);
}

/// Writes the block that carries `fds` from `at` on.
fn put_fds_block(buf: &mut [u8], at: usize, fds: &[i32])
    requires
        fds.len() <= MAX_SEND_FDS,
        at + spec_cmsg_space(FD_LEN as int * fds.len()) <= old(buf).len(),
    ensures
        final(buf)@ == splice(
            old(buf)@,
            at as int,
            block(SOL_SOCKET, SCM_RIGHTS, fds_payload(fds@)),
        ),
{
    let payload_bytes: usize = fds.len() * FD_LEN;
    let padding: usize = cmsg_align(payload_bytes) - payload_bytes;
    put_header(buf, at, cmsg_len(payload_bytes), SOL_SOCKET, SCM_RIGHTS);
    put_fds(buf, at + HEADER_LEN, fds);
    put_zeros(buf, at + HEADER_LEN + payload_bytes, padding);
}

/// Writes the block that carries `creds` from `at` on.
fn put_credentials_block(buf: &mut [u8], at: usize, creds: Credentials)
    requires
        at + spec_cmsg_space(CREDENTIALS_LEN as int) <= old(buf).len(),
    ensures
        final(buf)@ == splice(
            old(buf)@,
            at as int,
            block(SOL_SOCKET, SCM_CREDENTIALS, credentials_payload(creds)),
        ),
{
    let padding: usize = cmsg_align(CREDENTIALS_LEN) - CREDENTIALS_LEN;
    put_header(buf, at, cmsg_len(CREDENTIALS_LEN), SOL_SOCKET, SCM_CREDENTIALS);
    put_credentials(buf, at + HEADER_LEN, creds);
    put_zeros(buf, at + HEADER_LEN + CREDENTIALS_LEN, padding);
}

/// Fills `buf` with the control data of a message that carries `creds` and
/// `fds`: the credentials block first, then the descriptor block. An empty
/// message leaves the empty buffer untouched.
pub fn encode_into(buf: &mut [u8], creds: Option<Credentials>, fds: &[i32])
    requires
        fds.len() <= MAX_SEND_FDS,
        old(buf).len() == encoded_len(creds is Some, fds.len() as int),
    ensures
        final(buf)@ == encoded(creds, fds@),
{
    let mut at: usize = 0;
    if let Some(c) = creds {
        put_credentials_block(buf, at, c);
        at = at + cmsg_space(CREDENTIALS_LEN);
    }
    if fds.len() > 0 {
        put_fds_block(buf, at, fds);
    }
    proof {
        lemma_encoded_len(creds, fds@);
    }
}

} // verus!
