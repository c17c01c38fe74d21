//! The frame buffer: accumulates raw bytes toward a target capacity, one
//! phase at a time, and queues completed frames until they are drained.
//!
//! A phase is either the 2-byte length prefix or the declared payload. The
//! buffer itself does not know which phase it is in; the state machine in
//! [`crate::framer`] owns that decision and drives the buffer through it.
//! The buffer's invariant is that the accumulator never holds more bytes
//! than the current target capacity allows.

use vstd::prelude::*;

verus! {

/// Accumulator, target capacity for the current phase, and the queue of
/// completed frames not yet retrieved.
pub struct FrameBuffer {
    acc: Vec<u8>,
    cap: u16,
    queue: Vec<Vec<u8>>,
}

impl FrameBuffer {
    /// The bytes accumulated so far in the current phase.
    pub closed spec fn bytes(&self) -> Seq<u8> {
        self.acc@
    }

    /// The number of bytes the current phase is collecting in total.
    pub closed spec fn capacity(&self) -> nat {
        self.cap as nat
    }

    /// The completed frames awaiting retrieval, in arrival order.
    pub closed spec fn frames(&self) -> Seq<Seq<u8>> {
        self.queue@.map_values(|v: Vec<u8>| v@)
    }

    /// A fresh buffer: empty accumulator, target capacity 2 (the length
    /// prefix of the first frame), no completed frames.
    pub fn new() -> (r: FrameBuffer)
        ensures
            r.bytes() == Seq::<u8>::empty(),
            r.capacity() == 2,
            r.frames() == Seq::<Seq<u8>>::empty(),
    {
        let r = FrameBuffer { acc: Vec::new(), cap: 2, queue: Vec::new() };
        proof {
            assert(r.frames() =~= Seq::<Seq<u8>>::empty());
        }
        r
    }

    /// How many bytes are still needed to complete the current phase.
    pub fn remaining(&self) -> (r: u16)
        requires
            self.bytes().len() <= self.capacity(),
        ensures
            r as nat == self.capacity() - self.bytes().len(),
    {
        self.cap - (self.acc.len() as u16)
    }

    /// Appends one byte to the accumulator. The caller must never push more
    /// bytes than `remaining()` allows.
    pub fn push(&mut self, byte: u8)
        requires
            old(self).bytes().len() < old(self).capacity(),
        ensures
            final(self).bytes() == old(self).bytes().push(byte),
            final(self).capacity() == old(self).capacity(),
            final(self).frames() == old(self).frames(),
    {
        self.acc.push(byte);
    }

    /// Read-only view of the accumulator.
    pub fn current(&self) -> (r: &Vec<u8>)
        ensures
            r@ == self.bytes(),
    {
        &self.acc
    }

    /// Interprets the two completed accumulator bytes as an unsigned
    /// big-endian 16-bit integer. Defined only when the accumulator holds
    /// exactly 2 bytes.
    pub fn decode_len(&self) -> (r: u16)
        requires
            self.bytes().len() == 2,
        ensures
            r as nat == crate::frame::decoded_len(self.bytes()[0], self.bytes()[1]),
    {
        (self.acc[0] as u16) * 256 + (self.acc[1] as u16)
    }

    /// Retargets the buffer for the next phase: the accumulator is cleared
    /// and `n` becomes the new target capacity.
    pub fn set_capacity(&mut self, n: u16)
        ensures
            final(self).bytes() == Seq::<u8>::empty(),
            final(self).capacity() == n as nat,
            final(self).frames() == old(self).frames(),
    {
        self.acc = Vec::new();
        self.cap = n;
    }

    /// Completes the current phase: the accumulator's contents move into the
    /// completed-frame queue as one frame, the accumulator is cleared, and
    /// the target capacity resets to 2 for the next length prefix.
    pub fn complete_phase(&mut self)
        ensures
            final(self).bytes() == Seq::<u8>::empty(),
            final(self).capacity() == 2,
            final(self).frames() == old(self).frames().push(old(self).bytes()),
    {
        let mut done: Vec<u8> = Vec::new();
        core::mem::swap(&mut done, &mut self.acc);
        self.queue.push(done);
        self.cap = 2;
        proof {
            assert(self.frames() =~= old(self).frames().push(old(self).bytes()));
        }
    }

    /// Removes and returns all queued completed frames, in arrival order;
    /// the queue becomes empty.
    pub fn drain_queue(&mut self) -> (r: Vec<Vec<u8>>)
        ensures
            r@.map_values(|v: Vec<u8>| v@) == old(self).frames(),
            final(self).frames() == Seq::<Seq<u8>>::empty(),
            final(self).bytes() == old(self).bytes(),
            final(self).capacity() == old(self).capacity(),
    {
        let mut out: Vec<Vec<u8>> = Vec::new();
        core::mem::swap(&mut out, &mut self.queue);
        proof {
            assert(self.frames() =~= Seq::<Seq<u8>>::empty());
        }
        out
    }
}

} // verus!
