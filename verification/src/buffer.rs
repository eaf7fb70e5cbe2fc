//! The buffer that control blocks are written to and read from.

use crate::layout::{cmsg_space, spec_cmsg_space, FD_LEN};
use vstd::prelude::*;

verus! {

/// The bytes to reserve for receiving `num_fds` file descriptors in one
/// control block: nothing for none, else the header, the descriptors and the
/// padding that ends the block.
pub open spec fn spec_fd_capacity(num_fds: int) -> int {
    if num_fds == 0 {
        0
    } else {
        spec_cmsg_space(FD_LEN as int * num_fds)
    }
}

/// A zero-filled byte buffer of any capacity for ancillary data.
///
/// Up to [`AncillaryBuf::MAX_STACK_CAPACITY`] bytes live inside the value
/// itself; only a larger buffer allocates. Which of the two holds the bytes is
/// settled when the buffer is made.
#[derive(Debug)]
pub struct AncillaryBuf {
    capacity: usize,
    on_stack: [u8; 256],
    on_heap: Vec<u8>,
}

impl AncillaryBuf {
    /// The largest capacity that needs no allocation.
    pub const MAX_STACK_CAPACITY: usize = 256;

    /// The largest capacity that can be asked for.
    pub const MAX_CAPACITY: usize = usize::MAX;

    /// The largest number of descriptors whose control block has a length
    /// that fits in 32 bits.
    pub const MAX_FDS: usize = 0x3fff_fffa;

    /// The bytes of the buffer.
    pub closed spec fn view(&self) -> Seq<u8> {
        if self.capacity <= 256 {
            self.on_stack@.subrange(0, self.capacity as int)
        } else {
            self.on_heap@
        }
    }

    /// The capacity that the buffer was made with.
    pub closed spec fn made_with(&self) -> nat {
        self.capacity as nat
    }

    /// Whether the bytes live inside the value, without an allocation: they
    /// do where the buffer was made with no more than
    /// [`AncillaryBuf::MAX_STACK_CAPACITY`].
    pub open spec fn is_on_stack(&self) -> bool {
        self.made_with() <= Self::MAX_STACK_CAPACITY
    }

    /// The two regions exclude each other: a buffer on the stack owns no
    /// allocation, and an allocated one has the capacity it was made with.
    pub closed spec fn wf(&self) -> bool {
        if self.capacity <= 256 {
            self.on_heap@.len() == 0
        } else {
            self.on_heap@.len() == self.capacity
        }
    }

    /// A buffer of exactly `bytes` zero bytes.
    pub fn with_capacity(bytes: usize) -> (buf: AncillaryBuf)
        ensures
            buf.wf(),
            buf.made_with() == bytes,
            buf@.len() == bytes,
            forall|i: int| 0 <= i < bytes ==> buf@[i] == 0u8,
            buf.is_on_stack() <==> bytes <= Self::MAX_STACK_CAPACITY,
    {
        if bytes <= Self::MAX_STACK_CAPACITY {
            AncillaryBuf { capacity: bytes, on_stack: [0u8; 256], on_heap: Vec::new() }
        } else {
            AncillaryBuf { capacity: bytes, on_stack: [0u8; 256], on_heap: vec![0u8; bytes] }
        }
    }

    /// A buffer of just the size that receiving `num_fds` file descriptors in
    /// one control block takes.
    pub fn with_fd_capacity(num_fds: usize) -> (buf: AncillaryBuf)
        requires
            num_fds <= Self::MAX_FDS,
        ensures
            buf.wf(),
            buf.made_with() == spec_fd_capacity(num_fds as int),
            buf@.len() == spec_fd_capacity(num_fds as int),
            forall|i: int| 0 <= i < buf@.len() ==> buf@[i] == 0u8,
            buf.is_on_stack() <==> spec_fd_capacity(num_fds as int) <= Self::MAX_STACK_CAPACITY,
    {
        if num_fds == 0 {
            Self::with_capacity(0)
        } else {
            let payload_bytes: usize = num_fds * FD_LEN;
            Self::with_capacity(cmsg_space(payload_bytes))
        }
    }

    /// The number of bytes in the buffer, which is the capacity that it was
    /// made with.
    pub fn capacity(&self) -> (bytes: usize)
        ensures
            bytes == self@.len(),
            self.wf() ==> bytes == self.made_with(),
    {
        if self.capacity <= Self::MAX_STACK_CAPACITY {
            self.capacity
        } else {
            self.on_heap.len()
        }
    }

    /// Whether the bytes live inside the value, without an allocation.
    pub fn on_stack(&self) -> (inside: bool)
        ensures
            inside == self.is_on_stack(),
    {
        self.capacity <= Self::MAX_STACK_CAPACITY
    }

    /// The bytes of the buffer, to read.
    pub fn as_slice(&self) -> (bytes: &[u8])
        ensures
            bytes@ == self@,
    {
        if self.capacity <= Self::MAX_STACK_CAPACITY {
            let whole: &[u8] = self.on_stack.as_slice();
            let (used, _) = whole.split_at(self.capacity);
            used
        } else {
            self.on_heap.as_slice()
        }
    }

    /// The bytes of the buffer, to write.
    ///
    /// What is written through the slice is what the buffer then holds. The
    /// slice cannot grow or shrink; a caller's proof learns that from its own
    /// writes. The capacity that the buffer was made with and the region that
    /// holds the bytes stay as they are.
    pub fn as_mut_slice(&mut self) -> (bytes: &mut [u8])
        ensures
            bytes@ == old(self)@,
            final(self).made_with() == old(self).made_with(),
            final(self).is_on_stack() == old(self).is_on_stack(),
            final(bytes)@.len() == bytes@.len() ==> final(self)@ == final(bytes)@,
            final(bytes)@.len() == bytes@.len() && old(self).wf() ==> final(self).wf(),
    {
        if self.capacity <= Self::MAX_STACK_CAPACITY {
            let whole: &mut [u8] = &mut self.on_stack;
            let (used, _) = whole.split_at_mut(self.capacity);
            used
        } else {
            self.on_heap.as_mut_slice()
        }
    }
}

impl Default for AncillaryBuf {
    /// The largest buffer that needs no allocation.
    fn default() -> (buf: AncillaryBuf)
        ensures
            buf.wf(),
            buf.made_with() == AncillaryBuf::MAX_STACK_CAPACITY,
            buf@.len() == AncillaryBuf::MAX_STACK_CAPACITY,
            forall|i: int| 0 <= i < buf@.len() ==> buf@[i] == 0u8,
            buf.is_on_stack(),
    {
        AncillaryBuf { capacity: 256, on_stack: [0u8; 256], on_heap: Vec::new() }
    }
}

impl core::ops::Deref for AncillaryBuf {
    type Target = [u8];

    /// The bytes of the buffer, to read.
    fn deref(&self) -> (bytes: &[u8])
        ensures
            bytes@ == self@,
    {
        self.as_slice()
    }
}

impl AsRef<[u8]> for AncillaryBuf {
    /// The bytes of the buffer, to read.
    fn as_ref(&self) -> (bytes: &[u8])
        ensures
            bytes@ == self@,
    {
        self.as_slice()
    }
}

impl core::ops::DerefMut for AncillaryBuf {
    /// The bytes of the buffer, to write. The capacity that the buffer was
    /// made with and the region that holds the bytes stay as they are.
    fn deref_mut(&mut self) -> (bytes: &mut [u8])
        ensures
            bytes@ == old(self)@,
            final(self).made_with() == old(self).made_with(),
            final(self).is_on_stack() == old(self).is_on_stack(),
            final(bytes)@.len() == bytes@.len() ==> final(self)@ == final(bytes)@,
            final(bytes)@.len() == bytes@.len() && old(self).wf() ==> final(self).wf(),
    {
        self.as_mut_slice()
    }
}

impl AsMut<[u8]> for AncillaryBuf {
    /// The bytes of the buffer, to write. The capacity that the buffer was
    /// made with and the region that holds the bytes stay as they are.
    fn as_mut(&mut self) -> (bytes: &mut [u8])
        ensures
            bytes@ == old(self)@,
            final(self).made_with() == old(self).made_with(),
            final(self).is_on_stack() == old(self).is_on_stack(),
            final(bytes)@.len() == bytes@.len() ==> final(self)@ == final(bytes)@,
            final(bytes)@.len() == bytes@.len() && old(self).wf() ==> final(self).wf(),
    {
        self.as_mut_slice()
    }
}

impl core::borrow::Borrow<[u8]> for AncillaryBuf {
    /// The bytes of the buffer, to read.
    fn borrow(&self) -> (bytes: &[u8])
        ensures
            <[u8] as View>::view(bytes) == self@,
    {
        self.as_slice()
    }
}

impl core::borrow::BorrowMut<[u8]> for AncillaryBuf {
    /// The bytes of the buffer, to write. The capacity that the buffer was
    /// made with and the region that holds the bytes stay as they are.
    fn borrow_mut(&mut self) -> (bytes: &mut [u8])
        ensures
            <[u8] as View>::view(bytes) == old(self)@,
            final(self).made_with() == old(self).made_with(),
            final(self).is_on_stack() == old(self).is_on_stack(),
            <[u8] as View>::view(final(bytes)).len() == <[u8] as View>::view(bytes).len()
                ==> final(self)@ == <[u8] as View>::view(final(bytes)),
            <[u8] as View>::view(final(bytes)).len() == <[u8] as View>::view(bytes).len() && old(
                self,
            ).wf() ==> final(self).wf(),
    {
        self.as_mut_slice()
    }
}

} // verus!
