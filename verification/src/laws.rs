//! What holds between sizing, writing and reading control data.

use crate::buffer::{spec_fd_capacity, AncillaryBuf};
use crate::bytes::{i32_le, lemma_i32_round_trip, lemma_u32_round_trip, lemma_u64_round_trip};
use crate::credentials::Credentials;
use crate::decode::{
    credentials_in, declared_len, fds_in, fds_of, has_header, items, items_from, kept_count,
    kind_at, level_at, next_offset, payload_at, payload_len, spec_ancillary_truncated,
    spec_datagram_truncated, ItemView,
};
use crate::encode::{
    block, credentials_payload, encoded, encoded_len, fds_payload, header, lemma_block_len,
    lemma_encoded_len,
};
use crate::layout::{
    spec_cmsg_len, spec_cmsg_space, CREDENTIALS_LEN, FD_LEN, HEADER_LEN, MAX_PAYLOAD,
    MSG_CMSG_CLOEXEC, MSG_CTRUNC, MSG_NOSIGNAL, MSG_TRUNC, SCM_CREDENTIALS, SCM_RIGHTS,
    SOL_SOCKET,
};
use crate::platform::Platform;
use crate::recv::recv_flags;
use crate::send::send_flags;
use vstd::prelude::*;

verus! {

/// A buffer made for receiving some number of descriptors is exactly as long
/// as the control data that sends as many in one block: no byte is missing
/// and none is left over.
pub proof fn lemma_fd_capacity_is_exact(fds: Seq<i32>)
    requires
        fds.len() <= AncillaryBuf::MAX_FDS,
    ensures
        encoded_len(false, fds.len() as int) == spec_fd_capacity(fds.len() as int),
        encoded(None, fds).len() == spec_fd_capacity(fds.len() as int),
{
    lemma_encoded_len(None, fds);
}

/// The descriptors read from the payload that was written for `fds` are
/// `fds`.
pub proof fn lemma_fds_payload_reads_back(fds: Seq<i32>)
    ensures
        fds_payload(fds).len() == FD_LEN * fds.len(),
        fds_in(fds_payload(fds)) == fds,
{
    let payload = fds_payload(fds);
    assert forall|i: int| 0 <= i < fds.len() implies fds_in(payload)[i] == fds[i] by {
        lemma_i32_round_trip(fds[i]);
    }
}

/// The identity read from the payload that was written for `creds` is
/// `creds`.
pub proof fn lemma_credentials_payload_reads_back(creds: Credentials)
    ensures
        credentials_payload(creds).len() == CREDENTIALS_LEN,
        credentials_in(credentials_payload(creds)) == creds,
{
    lemma_i32_round_trip(creds.pid);
    lemma_u32_round_trip(creds.uid);
    lemma_u32_round_trip(creds.gid);
}

/// A header that was written somewhere in a buffer reads back there: it
/// gives the length, level and type that were written.
pub proof fn lemma_header_reads_back(bytes: Seq<u8>, at: int, len: u64, level: i32, kind: i32)
    requires
        has_header(bytes, at),
        bytes.subrange(at, at + HEADER_LEN) == header(len, level, kind),
    ensures
        declared_len(bytes, at) == len,
        level_at(bytes, at) == level,
        kind_at(bytes, at) == kind,
{
    let written = header(len, level, kind);
    lemma_u64_round_trip(len);
    lemma_i32_round_trip(level);
    lemma_i32_round_trip(kind);
    assert(written.subrange(8, 12) =~= i32_le(level));
    assert(written.subrange(12, 16) =~= i32_le(kind));
}

/// A block that was written somewhere in a buffer reads back there: the
/// header gives the length, level and type that were written, the payload
/// is the payload, and the next block is looked for right behind the
/// padding.
pub proof fn lemma_block_reads_back(
    prefix: Seq<u8>,
    level: i32,
    kind: i32,
    payload: Seq<u8>,
    suffix: Seq<u8>,
)
    requires
        payload.len() <= MAX_PAYLOAD,
    ensures
        ({
            let bytes = prefix + block(level, kind, payload) + suffix;
            let at = prefix.len() as int;
            &&& has_header(bytes, at)
            &&& declared_len(bytes, at) == spec_cmsg_len(payload.len() as int)
            &&& level_at(bytes, at) == level
            &&& kind_at(bytes, at) == kind
            &&& payload_at(bytes, at) == payload
            &&& next_offset(bytes, at) == if suffix.len() >= HEADER_LEN {
                Some(at + spec_cmsg_space(payload.len() as int))
            } else {
                None
            }
        }),
{
    let written = block(level, kind, payload);
    let bytes = prefix + written + suffix;
    let at = prefix.len() as int;
    let len: u64 = spec_cmsg_len(payload.len() as int) as u64;
    let head = header(len, level, kind);
    lemma_block_len(level, kind, payload);
    assert(head.len() == HEADER_LEN) by {
        lemma_u64_round_trip(len);
        lemma_i32_round_trip(level);
        lemma_i32_round_trip(kind);
    }
    assert(bytes.subrange(at, at + HEADER_LEN) =~= head);
    lemma_header_reads_back(bytes, at, len, level, kind);
}

/// The items that reading finds in the control data written for `creds`
/// and `fds`: the identity, or an unsupported block where the reader has no
/// credentials, and then the descriptors.
pub open spec fn sent_items(creds: Option<Credentials>, fds: Seq<i32>, credentials: bool) -> Seq<
    ItemView,
> {
    let first = match creds {
        Some(c) => seq![
            if credentials {
                ItemView::Credentials(c)
            } else {
                ItemView::Unsupported
            },
        ],
        None => Seq::<ItemView>::empty(),
    };
    let second = if fds.len() > 0 {
        seq![ItemView::Fds(fds)]
    } else {
        Seq::<ItemView>::empty()
    };
    first + second
}

/// Reading the control data that was written for `creds` and `fds` finds
/// just them, in the order in which they were written.
pub proof fn lemma_round_trip(creds: Option<Credentials>, fds: Seq<i32>, credentials: bool)
    requires
        fds.len() <= AncillaryBuf::MAX_FDS,
    ensures
        items(encoded(creds, fds), credentials) == sent_items(creds, fds, credentials),
{
    reveal_with_fuel(items_from, 3);
    let none = Seq::<u8>::empty();
    let fd_block = block(SOL_SOCKET, SCM_RIGHTS, fds_payload(fds));
    lemma_fds_payload_reads_back(fds);
    lemma_block_len(SOL_SOCKET, SCM_RIGHTS, fds_payload(fds));
    match creds {
        Some(c) => {
            let cred_block = block(SOL_SOCKET, SCM_CREDENTIALS, credentials_payload(c));
            lemma_credentials_payload_reads_back(c);
            lemma_block_len(SOL_SOCKET, SCM_CREDENTIALS, credentials_payload(c));
            if fds.len() > 0 {
                lemma_block_reads_back(
                    none,
                    SOL_SOCKET,
                    SCM_CREDENTIALS,
                    credentials_payload(c),
                    fd_block,
                );
                lemma_block_reads_back(cred_block, SOL_SOCKET, SCM_RIGHTS, fds_payload(fds), none);
            } else {
                lemma_block_reads_back(
                    none,
                    SOL_SOCKET,
                    SCM_CREDENTIALS,
                    credentials_payload(c),
                    none,
                );
            }
        },
        None => {
            if fds.len() > 0 {
                lemma_block_reads_back(none, SOL_SOCKET, SCM_RIGHTS, fds_payload(fds), none);
            }
        },
    }
}

/// However long a header says its block is, the payload read for it lies
/// inside the buffer.
pub proof fn lemma_payload_within_buffer(bytes: Seq<u8>, at: int)
    requires
        has_header(bytes, at),
    ensures
        0 <= payload_len(bytes, at),
        at + HEADER_LEN + payload_len(bytes, at) <= bytes.len(),
        payload_at(bytes, at).len() == payload_len(bytes, at),
{
}

/// A buffer holds no more items than headers fit into what is left of it:
/// reading always comes to an end.
pub proof fn lemma_items_are_few(bytes: Seq<u8>, at: int, credentials: bool)
    requires
        0 <= at,
    ensures
        HEADER_LEN * items_from(bytes, at, credentials).len() <= if at <= bytes.len() {
            bytes.len() - at
        } else {
            0
        },
    decreases bytes.len() - at,
{
    if has_header(bytes, at) {
        if let Some(next) = next_offset(bytes, at) {
            lemma_items_are_few(bytes, next, credentials);
        }
    }
}

/// The descriptors of a sequence of items are those of any front part of
/// it followed by those of the rest: between the items handed out and the
/// items left, no descriptor is lost and none counts twice.
pub proof fn lemma_fds_of_split(items: Seq<ItemView>, k: int)
    requires
        0 <= k <= items.len(),
    ensures
        fds_of(items) == fds_of(items.take(k)) + fds_of(items.skip(k)),
    decreases k,
{
    if k == 0 {
        assert(items.skip(0) =~= items);
    } else {
        let rest = items.skip(1);
        lemma_fds_of_split(rest, k - 1);
        assert(rest.take(k - 1) =~= items.take(k).skip(1));
        assert(rest.skip(k - 1) =~= items.skip(k));
    }
}

/// Every descriptor that was sent is found by reading, whatever else the
/// control data carries.
pub proof fn lemma_sent_fds_are_received(
    creds: Option<Credentials>,
    fds: Seq<i32>,
    credentials: bool,
)
    requires
        fds.len() <= AncillaryBuf::MAX_FDS,
    ensures
        fds_of(items(encoded(creds, fds), credentials)) == fds,
{
    reveal_with_fuel(fds_of, 3);
    lemma_round_trip(creds, fds, credentials);
}

/// Of the descriptors received, a buffer with room for all keeps all and
/// leaves none to close; a smaller one keeps as many as it has room for and
/// leaves the others to close. Kept and closed together are the descriptors
/// received.
pub proof fn lemma_kept_and_closed(received: Seq<i32>, capacity: int)
    requires
        0 <= capacity,
    ensures
        ({
            let kept = kept_count(received, capacity);
            &&& capacity >= received.len() ==> kept == received.len() && received.skip(
                kept,
            ).len() == 0
            &&& capacity < received.len() ==> kept == capacity && received.skip(kept).len()
                == received.len() - capacity
            &&& received.take(kept) + received.skip(kept) == received
        }),
{
}

/// The two truncation marks are separate bits: setting or clearing one in
/// the flags of a message changes nothing about the other, and each of the
/// four combinations has flags that show it.
pub proof fn lemma_truncation_marks_are_independent(flags: i32)
    ensures
        spec_datagram_truncated(flags | MSG_CTRUNC) == spec_datagram_truncated(flags),
        spec_datagram_truncated(flags & !MSG_CTRUNC) == spec_datagram_truncated(flags),
        spec_ancillary_truncated(flags | MSG_TRUNC) == spec_ancillary_truncated(flags),
        spec_ancillary_truncated(flags & !MSG_TRUNC) == spec_ancillary_truncated(flags),
        spec_datagram_truncated(flags | MSG_TRUNC),
        spec_ancillary_truncated(flags | MSG_CTRUNC),
        !spec_datagram_truncated(flags & !MSG_TRUNC),
        !spec_ancillary_truncated(flags & !MSG_CTRUNC),
{
    assert((flags | 0x08i32) & 0x20i32 == flags & 0x20i32) by (bit_vector);
    assert((flags & !0x08i32) & 0x20i32 == flags & 0x20i32) by (bit_vector);
    assert((flags | 0x20i32) & 0x08i32 == flags & 0x08i32) by (bit_vector);
    assert((flags & !0x20i32) & 0x08i32 == flags & 0x08i32) by (bit_vector);
    assert((flags | 0x20i32) & 0x20i32 != 0) by (bit_vector);
    assert((flags | 0x08i32) & 0x08i32 != 0) by (bit_vector);
    assert((flags & !0x20i32) & 0x20i32 == 0) by (bit_vector);
    assert((flags & !0x08i32) & 0x08i32 == 0) by (bit_vector);
}

/// The flags handed to a send or receive call hold every flag that the
/// caller asked for. Where the platform has it, they hold the flag that
/// suppresses `SIGPIPE`; those of a receive call always hold the flag that
/// marks received descriptors close-on-exec.
pub proof fn lemma_call_flags(platform: Platform, flags: i32)
    ensures
        send_flags(platform, flags) & flags == flags,
        recv_flags(platform, flags) & flags == flags,
        platform.nosignal ==> send_flags(platform, flags) & MSG_NOSIGNAL == MSG_NOSIGNAL,
        platform.nosignal ==> recv_flags(platform, flags) & MSG_NOSIGNAL == MSG_NOSIGNAL,
        recv_flags(platform, flags) & MSG_CMSG_CLOEXEC == MSG_CMSG_CLOEXEC,
{
    assert(flags & flags == flags) by (bit_vector);
    assert((flags | 0x4000i32) & flags == flags) by (bit_vector);
    assert((flags | 0x4000_0000i32) & flags == flags) by (bit_vector);
    assert(((flags | 0x4000i32) | 0x4000_0000i32) & flags == flags) by (bit_vector);
    assert((flags | 0x4000i32) & 0x4000i32 == 0x4000i32) by (bit_vector);
    assert(((flags | 0x4000i32) | 0x4000_0000i32) & 0x4000i32 == 0x4000i32) by (bit_vector);
    assert((flags | 0x4000_0000i32) & 0x4000_0000i32 == 0x4000_0000i32) by (bit_vector);
    assert(((flags | 0x4000i32) | 0x4000_0000i32) & 0x4000_0000i32 == 0x4000_0000i32)
        by (bit_vector);
}

} // verus!
