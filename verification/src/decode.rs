//! Reading the control blocks of a received message.

use crate::bytes::{get_i32, get_u32, get_u64, le_i32, le_u32, le_u64};
use crate::credentials::Credentials;
use crate::layout::{
    spec_cmsg_align, CREDENTIALS_LEN, FD_LEN, HEADER_LEN, MSG_CTRUNC, MSG_TRUNC, SCM_CREDENTIALS,
    SCM_RIGHTS, SOL_SOCKET,
};
use crate::platform::Platform;
use vstd::prelude::*;
use vstd::slice::slice_subrange;

verus! {

/// What one control block says, as a mathematical value.
pub enum ItemView {
    /// The descriptors of a descriptor block, in order.
    Fds(Seq<i32>),
    /// The sender's identity.
    Credentials(Credentials),
    /// A block of a level or type that is not read.
    Unsupported,
}

/// The file descriptors of one descriptor block, read where they lie in the
/// control buffer.
///
/// The numbers stay meaningful until someone closes the descriptors.
#[derive(Clone, Copy, Debug, PartialEq, Eq)]
pub struct ReceivedFds<'a> {
    bytes: &'a [u8],
}

impl<'a> View for ReceivedFds<'a> {
    type V = Seq<i32>;

    closed spec fn view(&self) -> Seq<i32> {
        fds_in(self.bytes@)
    }
}

impl<'a> ReceivedFds<'a> {
    /// Only whole descriptors are held, so that two values are equal just
    /// when their descriptors are.
    #[verifier::type_invariant]
    spec fn holds_whole_descriptors(&self) -> bool {
        self.bytes@.len() % 4 == 0
    }

    /// The number of descriptors.
    pub fn len(&self) -> (count: usize)
        ensures
            count == self@.len(),
    {
        self.bytes.len() / FD_LEN
    }

    /// Whether there is no descriptor at all.
    pub fn is_empty(&self) -> (empty: bool)
        ensures
            empty <==> self@.len() == 0,
    {
        self.bytes.len() < FD_LEN
    }

    /// The descriptor at `index`, counted from zero in the order in which
    /// the descriptors were sent, if there are that many.
    pub fn get(&self, index: usize) -> (fd: Option<i32>)
        ensures
            index < self@.len() ==> fd == Some(self@[index as int]),
            index >= self@.len() ==> fd is None,
    {
        if index < self.bytes.len() / FD_LEN {
            Some(get_i32(self.bytes, FD_LEN * index))
        } else {
            None
        }
    }

    /// The descriptors, copied out in order.
    pub fn to_vec(&self) -> (fds: Vec<i32>)
        ensures
            fds@ == self@,
    {
        let count: usize = self.bytes.len() / FD_LEN;
        let mut fds: Vec<i32> = Vec::new();
        let mut i: usize = 0;
        while i < count
            invariant
                i <= count,
                count == self.bytes.len() / 4,
                fds@ == self@.take(i as int),
            decreases count - i,
        {
            let fd: i32 = get_i32(self.bytes, FD_LEN * i);
            fds.push(fd);
            i = i + 1;
        }
        fds
    }
}

/// One ancillary message of a received control buffer.
#[derive(Clone, Copy, Debug, PartialEq, Eq)]
pub enum AncillaryItem<'a> {
    /// File descriptors that the peer sent. Whoever takes the item closes
    /// them.
    Fds(ReceivedFds<'a>),
    /// The identity of the sending process.
    Credentials(Credentials),
    /// A block of a level or type that is not read.
    Unsupported,
}

impl<'a> View for AncillaryItem<'a> {
    type V = ItemView;

    open spec fn view(&self) -> ItemView {
        match *self {
            AncillaryItem::Fds(fds) => ItemView::Fds(fds@),
            AncillaryItem::Credentials(creds) => ItemView::Credentials(creds),
            AncillaryItem::Unsupported => ItemView::Unsupported,
        }
    }
}

/// Whether a whole block header lies in `bytes` from `at` on.
pub open spec fn has_header(bytes: Seq<u8>, at: int) -> bool {
    0 <= at && at + HEADER_LEN <= bytes.len()
}

/// The length that the header at `at` declares for header and payload.
pub open spec fn declared_len(bytes: Seq<u8>, at: int) -> int {
    le_u64(bytes.subrange(at, at + 8)) as int
}

/// The level that the header at `at` declares.
pub open spec fn level_at(bytes: Seq<u8>, at: int) -> i32 {
    le_i32(bytes.subrange(at + 8, at + 12))
}

/// The type that the header at `at` declares.
pub open spec fn kind_at(bytes: Seq<u8>, at: int) -> i32 {
    le_i32(bytes.subrange(at + 12, at + 16))
}

/// The number of payload bytes of the block at `at`: what its header
/// declares beyond the header itself, but never more than `bytes` holds.
pub open spec fn payload_len(bytes: Seq<u8>, at: int) -> int {
    let declared = declared_len(bytes, at);
    let held = bytes.len() - (at + HEADER_LEN);
    if declared < HEADER_LEN {
        0
    } else if declared - HEADER_LEN <= held {
        declared - HEADER_LEN
    } else {
        held
    }
}

/// The payload of the block at `at`.
pub open spec fn payload_at(bytes: Seq<u8>, at: int) -> Seq<u8> {
    bytes.subrange(at + HEADER_LEN, at + HEADER_LEN + payload_len(bytes, at))
}

/// The descriptors that `payload` holds: one for each four whole bytes.
pub open spec fn fds_in(payload: Seq<u8>) -> Seq<i32> {
    Seq::new(
        payload.len() / 4,
        |i: int| le_i32(payload.subrange(4 * i, 4 * i + 4)),
    )
}

/// The identity that the first twelve bytes of `payload` hold.
pub open spec fn credentials_in(payload: Seq<u8>) -> Credentials
    recommends
        payload.len() >= CREDENTIALS_LEN,
{
    Credentials {
        pid: le_i32(payload.subrange(0, 4)),
        uid: le_u32(payload.subrange(4, 8)),
        gid: le_u32(payload.subrange(8, 12)),
    }
}

/// What the block at `at` says. A descriptor block gives its descriptors.
/// A credentials block gives an identity where the platform has
/// credentials and the payload holds a whole record. Every other block is
/// unsupported.
pub open spec fn item_at(bytes: Seq<u8>, at: int, credentials: bool) -> ItemView {
    let payload = payload_at(bytes, at);
    if level_at(bytes, at) == SOL_SOCKET && kind_at(bytes, at) == SCM_RIGHTS {
        ItemView::Fds(fds_in(payload))
    } else if credentials && level_at(bytes, at) == SOL_SOCKET && kind_at(bytes, at)
        == SCM_CREDENTIALS && payload.len() >= CREDENTIALS_LEN {
        ItemView::Credentials(credentials_in(payload))
    } else {
        ItemView::Unsupported
    }
}

/// Where the first block of `bytes` starts, if a header fits at all.
pub open spec fn first_offset(bytes: Seq<u8>) -> Option<int> {
    if bytes.len() >= HEADER_LEN {
        Some(0)
    } else {
        None
    }
}

/// Where the block after the one at `at` starts: at the declared length
/// rounded up, if the header there declares at least a header and another
/// whole header lies at that offset.
pub open spec fn next_offset(bytes: Seq<u8>, at: int) -> Option<int> {
    let declared = declared_len(bytes, at);
    let next = at + spec_cmsg_align(declared);
    if declared < HEADER_LEN || next + HEADER_LEN > bytes.len() {
        None
    } else {
        Some(next)
    }
}

/// The items of the blocks of `bytes` from the block at `at` on.
pub open spec fn items_from(bytes: Seq<u8>, at: int, credentials: bool) -> Seq<ItemView>
    decreases bytes.len() - at,
{
    if has_header(bytes, at) {
        let rest = match next_offset(bytes, at) {
            Some(next) => items_from(bytes, next, credentials),
            None => Seq::<ItemView>::empty(),
        };
        seq![item_at(bytes, at, credentials)] + rest
    } else {
        Seq::<ItemView>::empty()
    }
}

/// The items of all the blocks of `bytes`.
pub open spec fn items(bytes: Seq<u8>, credentials: bool) -> Seq<ItemView> {
    items_from(bytes, 0, credentials)
}

/// All the descriptors of `items`, in order.
pub open spec fn fds_of(items: Seq<ItemView>) -> Seq<i32>
    decreases items.len(),
{
    if items.len() == 0 {
        Seq::<i32>::empty()
    } else {
        let head = match items[0] {
            ItemView::Fds(fds) => fds,
            _ => Seq::<i32>::empty(),
        };
        head + fds_of(items.skip(1))
    }
}

/// How many of `fds` a buffer with room for `capacity` keeps.
pub open spec fn kept_count(fds: Seq<i32>, capacity: int) -> int {
    if fds.len() <= capacity {
        fds.len() as int
    } else {
        capacity
    }
}

/// Whether `flags` of a received message say that control data was cut off.
pub open spec fn spec_ancillary_truncated(flags: i32) -> bool {
    flags & MSG_CTRUNC != 0
}

/// Whether `flags` of a received message say that payload was cut off.
pub open spec fn spec_datagram_truncated(flags: i32) -> bool {
    flags & MSG_TRUNC != 0
}

/// The ancillary messages of one received message, handed out one by one
/// from the front.
#[derive(Debug)]
pub struct Ancillary<'a> {
    control: &'a [u8],
    flags: i32,
    credentials: bool,
    next_message: Option<usize>,
}

impl<'a> Ancillary<'a> {
    /// Where a next block is known, its whole header lies in the buffer.
    #[verifier::type_invariant]
    spec fn next_message_has_header(&self) -> bool {
        match self.next_message {
            Some(at) => has_header(self.control@, at as int),
            None => true,
        }
    }

    /// The control data that the system wrote.
    pub closed spec fn bytes(&self) -> Seq<u8> {
        self.control@
    }

    /// The flags that the system set on the message.
    pub closed spec fn flags(&self) -> i32 {
        self.flags
    }

    /// Whether credentials blocks are read.
    pub closed spec fn credentials(&self) -> bool {
        self.credentials
    }

    /// Where the next block starts, if there is one.
    pub closed spec fn position(&self) -> Option<int> {
        match self.next_message {
            Some(at) => Some(at as int),
            None => None,
        }
    }

    /// The items not yet handed out.
    pub open spec fn remaining(&self) -> Seq<ItemView> {
        match self.position() {
            Some(at) => items_from(self.bytes(), at, self.credentials()),
            None => Seq::<ItemView>::empty(),
        }
    }

    /// The messages in the first `control_len` bytes of `control`, which a
    /// receive call filled and which came with `flags`. A `control_len` beyond
    /// the buffer counts as the whole buffer.
    pub fn new(platform: &Platform, control: &'a [u8], control_len: usize, flags: i32) -> (all:
        Ancillary<'a>)
        ensures
            all.bytes() == control@.take(
                if control_len <= control.len() {
                    control_len as int
                } else {
                    control.len() as int
                },
            ),
            all.flags() == flags,
            all.credentials() == platform.credentials,
            all.position() == first_offset(all.bytes()),
            all.remaining() == items(all.bytes(), platform.credentials),
    {
        let extent: usize = if control_len <= control.len() {
            control_len
        } else {
            control.len()
        };
        let (written, _) = control.split_at(extent);
        let first: Option<usize> = if written.len() >= HEADER_LEN {
            Some(0)
        } else {
            None
        };
        Ancillary {
            control: written,
            flags,
            credentials: platform.credentials,
            next_message: first,
        }
    }

    /// The flags that the system set on the message.
    pub fn msg_flags(&self) -> (flags: i32)
        ensures
            flags == self.flags(),
    {
        self.flags
    }

    /// Whether ancillary messages were dropped because the control buffer
    /// was too short for them.
    pub fn ancillary_truncated(&self) -> (truncated: bool)
        ensures
            truncated == spec_ancillary_truncated(self.flags()),
    {
        self.flags & MSG_CTRUNC != 0
    }

    /// Whether the byte buffers were too short for the whole datagram.
    pub fn datagram_truncated(&self) -> (truncated: bool)
        ensures
            truncated == spec_datagram_truncated(self.flags()),
    {
        self.flags & MSG_TRUNC != 0
    }

    /// Hands out the next message, if one is left.
    pub fn next(&mut self) -> (item: Option<AncillaryItem<'a>>)
        ensures
            final(self).bytes() == old(self).bytes(),
            final(self).flags() == old(self).flags(),
            final(self).credentials() == old(self).credentials(),
            match old(self).position() {
                Some(at) => {
                    &&& item matches Some(found)
                    &&& found@ == item_at(old(self).bytes(), at, old(self).credentials())
                    &&& final(self).position() == next_offset(old(self).bytes(), at)
                },
                None => item is None && final(self).position() is None,
            },
            item is None <==> old(self).remaining().len() == 0,
            item matches Some(found) ==> {
                &&& found@ == old(self).remaining()[0]
                &&& final(self).remaining() == old(self).remaining().skip(1)
            },
    {
        proof {
            use_type_invariant(&*self);
        }
        let at: usize = match self.next_message {
            Some(at) => at,
            None => {
                return None;
            },
        };
        let found: AncillaryItem<'a> = read_item(self.control, at, self.credentials);
        let next: Option<usize> = next_header(self.control, at);
        self.next_message = next;
        Some(found)
    }

    /// Hands out every descriptor of the messages that are left, which leaves
    /// no message behind. The descriptors go to `fd_buf` from its start, in
    /// the order in which they were sent, as long as it has room; those that
    /// find none are returned, for the caller to close. The first number
    /// returned says how many were kept in `fd_buf`.
    pub fn take_fds(&mut self, fd_buf: &mut [i32]) -> (taken: (usize, Vec<i32>))
        ensures
            final(self).bytes() == old(self).bytes(),
            final(self).flags() == old(self).flags(),
            final(self).credentials() == old(self).credentials(),
            final(self).position() is None,
            taken.0 == kept_count(fds_of(old(self).remaining()), old(fd_buf)@.len() as int),
            final(fd_buf)@ == fds_of(old(self).remaining()).take(taken.0 as int) + old(
                fd_buf,
            )@.skip(taken.0 as int),
            taken.1@ == fds_of(old(self).remaining()).skip(taken.0 as int),
    {
        let ghost all = fds_of(self.remaining());
        let ghost before = fd_buf@;
        let ghost mut seen: Seq<i32> = Seq::empty();
        let mut num_fds: usize = 0;
        let mut unwanted: Vec<i32> = Vec::new();
        loop
            invariant
                self.bytes() == old(self).bytes(),
                self.flags() == old(self).flags(),
                self.credentials() == old(self).credentials(),
                fd_buf@.len() == before.len(),
                all == seen + fds_of(self.remaining()),
                num_fds == kept_count(seen, before.len() as int),
                fd_buf@ == seen.take(num_fds as int) + before.skip(num_fds as int),
                unwanted@ == seen.skip(num_fds as int),
            ensures
                self.position() is None,
                seen == all,
            decreases self.remaining().len(),
        {
            let item: Option<AncillaryItem<'a>> = self.next();
            let fds: ReceivedFds<'a> = match item {
                None => {
                    break ;
                },
                Some(AncillaryItem::Fds(fds)) => fds,
                Some(_) => {
                    continue ;
                },
            };
            let ghost earlier = seen;
            let mut i: usize = 0;
            while i < fds.len()
                invariant
                    i <= fds@.len(),
                    fd_buf@.len() == before.len(),
                    seen == earlier + fds@.take(i as int),
                    num_fds == kept_count(seen, before.len() as int),
                    fd_buf@ == seen.take(num_fds as int) + before.skip(num_fds as int),
                    unwanted@ == seen.skip(num_fds as int),
                decreases fds@.len() - i,
            {
                let fd: i32 = match fds.get(i) {
                    Some(fd) => fd,
                    None => 0,
                };
                if num_fds < fd_buf.len() {
                    fd_buf[num_fds] = fd;
                    num_fds = num_fds + 1;
                } else {
                    unwanted.push(fd);
                }
                proof {
                    seen = seen.push(fd);
                }
                i = i + 1;
            }
        }
        (num_fds, unwanted)
    }

    /// Hands out every descriptor of the messages that are left, which leaves
    /// no message behind. Whoever lets go of the messages without reading
    /// them all closes these.
    pub fn unclaimed_fds(&mut self) -> (fds: Vec<i32>)
        ensures
            final(self).bytes() == old(self).bytes(),
            final(self).flags() == old(self).flags(),
            final(self).credentials() == old(self).credentials(),
            final(self).position() is None,
            fds@ == fds_of(old(self).remaining()),
    {
        let mut nowhere: Vec<i32> = Vec::new();
        let (_, unclaimed) = self.take_fds(nowhere.as_mut_slice());
        unclaimed
    }
}

/// Counts the payload bytes of the block at `at`.
fn payload_extent(control: &[u8], at: usize) -> (len: usize)
    requires
        at + HEADER_LEN <= control.len(),
    ensures
        len == payload_len(control@, at as int),
        at + HEADER_LEN + len <= control.len(),
{
    let declared: u64 = get_u64(control, at);
    let held: usize = control.len() - at - HEADER_LEN;
    if declared < HEADER_LEN as u64 {
        0
    } else if declared - HEADER_LEN as u64 <= held as u64 {
        (declared - HEADER_LEN as u64) as usize
    } else {
        held
    }
}

/// Finds the descriptors in the `len` payload bytes from `start` on.
fn read_fds<'a>(control: &'a [u8], start: usize, len: usize) -> (fds: ReceivedFds<'a>)
    requires
        start + len <= control.len(),
    ensures
        fds@ == fds_in(control@.subrange(start as int, start + len)),
{
    let num_fds: usize = len / FD_LEN;
    let whole: &'a [u8] = slice_subrange(control, start, start + FD_LEN * num_fds);
    ReceivedFds { bytes: whole }
}

/// Reads the identity in the `len` payload bytes from `start` on.
fn read_credentials(control: &[u8], start: usize, len: usize) -> (creds: Credentials)
    requires
        len >= CREDENTIALS_LEN,
        start + len <= control.len(),
    ensures
        creds == credentials_in(control@.subrange(start as int, start + len)),
{
    let pid: i32 = get_i32(control, start);
    let uid: u32 = get_u32(control, start + 4);
    let gid: u32 = get_u32(control, start + 8);
    Credentials { pid, uid, gid }
}

/// Reads the block at `at`.
fn read_item<'a>(control: &'a [u8], at: usize, credentials: bool) -> (item: AncillaryItem<'a>)
    requires
        at + HEADER_LEN <= control.len(),
    ensures
        item@ == item_at(control@, at as int, credentials),
{
    let level: i32 = get_i32(control, at + 8);
    let kind: i32 = get_i32(control, at + 12);
    let len: usize = payload_extent(control, at);
    let start: usize = at + HEADER_LEN;
    if level == SOL_SOCKET && kind == SCM_RIGHTS {
        AncillaryItem::Fds(read_fds(control, start, len))
    } else if credentials && level == SOL_SOCKET && kind == SCM_CREDENTIALS && len
        >= CREDENTIALS_LEN {
        AncillaryItem::Credentials(read_credentials(control, start, len))
    } else {
        AncillaryItem::Unsupported
    }
}

/// Finds the block after the one at `at`.
fn next_header(control: &[u8], at: usize) -> (next: Option<usize>)
    requires
        at + HEADER_LEN <= control.len(),
    ensures
        match next {
            Some(n) => next_offset(control@, at as int) == Some(n as int),
            None => next_offset(control@, at as int) is None,
        },
        next matches Some(n) ==> has_header(control@, n as int) && n > at,
{
    let declared: u64 = get_u64(control, at);
    let room: usize = control.len() - at;
    if declared < HEADER_LEN as u64 || declared > room as u64 {
        return None;
    }
    let block_len: usize = declared as usize;
    let padding: usize = (8 - block_len % 8) % 8;
    if room - block_len < padding + HEADER_LEN {
        None
    } else {
        Some(at + block_len + padding)
    }
}

} // verus!
