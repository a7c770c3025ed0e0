//! Frame buffers: fixed-size blocks of pixel bytes, each tied to a slot of
//! the pool that made it.

use vstd::prelude::*;

verus! {

/// What a frame buffer is to a contract: its slot and its bytes.
#[verifier::ext_equal]
pub struct FrameView {
    pub slot: usize,
    pub pixels: Seq<u8>,
}

/// One buffer of the pool. Only a pool makes them, and none can be copied, so
/// whoever holds the value holds the buffer.
#[derive(Debug)]
pub struct FrameBuffer {
    slot: usize,
    pixels: Vec<u8>,
}

impl View for FrameBuffer {
    type V = FrameView;

    closed spec fn view(&self) -> FrameView {
        FrameView { slot: self.slot, pixels: self.pixels@ }
    }
}

/// The views of a queue of buffers, in the queue's order.
pub open spec fn frames(buffers: Seq<FrameBuffer>) -> Seq<FrameView> {
    buffers.map_values(|b: FrameBuffer| b@)
}

/// Copies `src` over `dest`, byte for byte and in order, when both have the
/// same length; otherwise `dest` is left as it was and `false` comes back.
pub fn repack(src: &[u8], dest: &mut Vec<u8>) -> (copied: bool)
    ensures
        copied == (src@.len() == old(dest)@.len()),
        copied ==> final(dest)@ == src@,
        !copied ==> final(dest)@ == old(dest)@,
{
    let n: usize = src.len();
    if dest.len() != n {
        return false;
    }
    let mut i: usize = 0;
    while i < n
        invariant
            n == src@.len(),
            dest@.len() == n,
            i <= n,
            forall|k: int| 0 <= k < i ==> dest@[k] == src@[k],
        decreases n - i,
    {
        dest.set(i, src[i]);
        i += 1;
    }
    true
}

impl FrameBuffer {
    /// A buffer of `len` zero bytes for the given slot.
    pub(crate) fn zeroed(slot: usize, len: usize) -> (b: FrameBuffer)
        ensures
            b@.slot == slot,
            b@.pixels == Seq::new(len as nat, |i: int| 0u8),
    {
        let mut pixels: Vec<u8> = Vec::with_capacity(len);
        let mut i: usize = 0;
        while i < len
            invariant
                i <= len,
                pixels@.len() == i,
                forall|k: int| 0 <= k < i ==> pixels@[k] == 0u8,
            decreases len - i,
        {
            pixels.push(0u8);
            i += 1;
        }
        FrameBuffer { slot, pixels }
    }

    /// The slot of the pool that this buffer belongs to.
    pub fn slot(&self) -> (s: usize)
        ensures
            s == self@.slot,
    {
        self.slot
    }

    /// The number of bytes in the buffer.
    pub fn len(&self) -> (n: usize)
        ensures
            n == self@.pixels.len(),
    {
        self.pixels.len()
    }

    /// The bytes of the buffer.
    pub fn pixels(&self) -> (p: &[u8])
        ensures
            p@ == self@.pixels,
    {
        self.pixels.as_slice()
    }

    /// Sets every byte to `value`.
    pub fn fill(&mut self, value: u8)
        ensures
            final(self)@.slot == old(self)@.slot,
            final(self)@.pixels == Seq::new(old(self)@.pixels.len(), |i: int| value),
    {
        let n: usize = self.pixels.len();
        let mut i: usize = 0;
        while i < n
            invariant
                self.slot == old(self).slot,
                self.pixels@.len() == n,
                n == old(self).pixels@.len(),
                i <= n,
                forall|k: int| 0 <= k < i ==> self.pixels@[k] == value,
            decreases n - i,
        {
            self.pixels.set(i, value);
            i += 1;
        }
    }

    /// Takes a frame of the buffer's own length; one of another length is
    /// refused and the buffer keeps its bytes.
    pub fn write(&mut self, data: &[u8]) -> (written: bool)
        ensures
            final(self)@.slot == old(self)@.slot,
            written == (data@.len() == old(self)@.pixels.len()),
            written ==> final(self)@.pixels == data@,
            !written ==> final(self)@ == old(self)@,
    {
        repack(data, &mut self.pixels)
    }
}

} // verus!
