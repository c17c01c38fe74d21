//! The framing state machine: interprets the frame buffer's transitions to
//! cut an arbitrarily fragmented byte stream into whole frames.
//!
//! A [`Framer`] owns one [`FrameBuffer`] and a read state. It holds no
//! transport: a transport (blocking or not, plain or TLS) feeds it whatever
//! bytes the connection delivered and performs the I/O itself. Duplicating a
//! connection therefore never shares framing state — each [`Framer`] is
//! built fresh, and at most one of the duplicates may read.
//!
//! The whole behaviour is modelled by the spec-level transition function
//! [`feed_seq`]: every byte fed moves the abstract machine one step, and the
//! executable code is proved to track it exactly.

use vstd::prelude::*;

use crate::buffer::FrameBuffer;
use crate::error::FrameError;
use crate::frame::decoded_len;
use crate::frame::frame_bytes;
use crate::frame::len_hi;
use crate::frame::len_lo;

verus! {

/// The two phases of the read state machine.
#[derive(Clone, Copy, Debug, PartialEq, Eq, Structural)]
pub enum ReadState {
    /// Accumulating the 2-byte length prefix.
    AwaitingLength,
    /// Accumulating the declared payload.
    AwaitingPayload,
}

/// The abstract state of a framer: its phase, the bytes accumulated in the
/// current phase, the phase's target capacity, and the frames completed but
/// not yet drained.
#[verifier::ext_equal]
pub ghost struct FramerModel {
    pub state: ReadState,
    pub acc: Seq<u8>,
    pub cap: nat,
    pub frames: Seq<Seq<u8>>,
}

/// Well-formedness of the abstract state. The accumulator is strictly below
/// the target capacity (a full accumulator always transitions at once), the
/// capacity fits the 16-bit length prefix, and while a length prefix is
/// awaited the capacity is exactly 2.
pub open spec fn wf(m: FramerModel) -> bool {
    &&& m.acc.len() < m.cap
    &&& m.cap <= 0xFFFF
    &&& (m.state == ReadState::AwaitingLength ==> m.cap == 2)
}

/// The state a fresh framer starts in: awaiting a length prefix, empty
/// accumulator, no completed frames beyond `frames` already queued.
pub open spec fn fresh_with(frames: Seq<Seq<u8>>) -> FramerModel {
    FramerModel { state: ReadState::AwaitingLength, acc: Seq::empty(), cap: 2, frames }
}

/// One step of the state machine: feed a single byte and perform whatever
/// phase transition it completes. Completing a length prefix that declares
/// zero immediately completes the (empty) payload phase as well.
pub open spec fn feed_one(m: FramerModel, b: u8) -> FramerModel
    recommends
        wf(m),
{
    let acc2 = m.acc.push(b);
    if acc2.len() < m.cap {
        FramerModel { state: m.state, acc: acc2, cap: m.cap, frames: m.frames }
    } else if m.state == ReadState::AwaitingLength {
        let l = decoded_len(acc2[0], acc2[1]);
        if l == 0 {
            fresh_with(m.frames.push(Seq::empty()))
        } else {
            FramerModel {
                state: ReadState::AwaitingPayload,
                acc: Seq::empty(),
                cap: l,
                frames: m.frames,
            }
        }
    } else {
        fresh_with(m.frames.push(acc2))
    }
}

/// The state machine run over a whole sequence of delivered bytes.
pub open spec fn feed_seq(m: FramerModel, data: Seq<u8>) -> FramerModel
    recommends
        wf(m),
    decreases data.len(),
{
    if data.len() == 0 {
        m
    } else {
        feed_seq(feed_one(m, data[0]), data.skip(1))
    }
}

/// How the transport fragments delivery does not matter: feeding `a`
/// followed by `b` reaches exactly the state that feeding `a + b` in one
/// piece reaches. Every split of the byte stream into chunks therefore
/// yields the same frames in the same order.
pub proof fn lemma_feed_split(m: FramerModel, a: Seq<u8>, b: Seq<u8>)
    requires
        wf(m),
    ensures
        feed_seq(m, a + b) == feed_seq(feed_seq(m, a), b),
    decreases a.len(),
{
    if a.len() == 0 {
        assert(a + b =~= b);
    } else {
        assert((a + b)[0] == a[0]);
        assert((a + b).skip(1) =~= a.skip(1) + b);
        lemma_feed_split(feed_one(m, a[0]), a.skip(1), b);
    }
}

/// Feeding a single byte as a sequence is one step of the machine.
pub proof fn lemma_feed_single(m: FramerModel, b: u8)
    ensures
        feed_seq(m, seq![b]) == feed_one(m, b),
{
    assert(seq![b].skip(1) =~= Seq::<u8>::empty());
    assert(feed_seq(feed_one(m, b), Seq::<u8>::empty()) == feed_one(m, b));
}

/// Bytes that do not fill the current phase only accumulate: no phase
/// transition happens and no frame completes.
pub proof fn lemma_feed_accumulates(m: FramerModel, data: Seq<u8>)
    requires
        wf(m),
        m.acc.len() + data.len() < m.cap,
    ensures
        feed_seq(m, data) == (FramerModel { acc: m.acc + data, ..m }),
    decreases data.len(),
{
    if data.len() == 0 {
        assert(m.acc + data =~= m.acc);
        assert(feed_seq(m, data) =~= (FramerModel { acc: m.acc + data, ..m }));
    } else {
        lemma_feed_accumulates(feed_one(m, data[0]), data.skip(1));
        assert(m.acc.push(data[0]) + data.skip(1) =~= m.acc + data);
        assert(feed_seq(m, data) =~= (FramerModel { acc: m.acc + data, ..m }));
    }
}

/// Exactly filling the current phase performs its transition: a filled
/// payload phase completes one frame and the machine returns to awaiting a
/// length prefix; a filled length prefix either retargets the machine at
/// the declared payload or, when the declared length is zero, completes an
/// empty frame at once.
pub proof fn lemma_feed_completes(m: FramerModel, data: Seq<u8>)
    requires
        wf(m),
        m.acc.len() + data.len() == m.cap,
    ensures
        ({
            let full = m.acc + data;
            if m.state == ReadState::AwaitingPayload {
                feed_seq(m, data) == fresh_with(m.frames.push(full))
            } else {
                let l = decoded_len(full[0], full[1]);
                if l == 0 {
                    feed_seq(m, data) == fresh_with(m.frames.push(Seq::empty()))
                } else {
                    feed_seq(m, data) == (FramerModel {
                        state: ReadState::AwaitingPayload,
                        acc: Seq::empty(),
                        cap: l,
                        frames: m.frames,
                    })
                }
            }
        }),
{
    let k = data.len() - 1;
    let last = data[k];
    assert(data.take(k) + seq![last] =~= data);
    lemma_feed_split(m, data.take(k), seq![last]);
    lemma_feed_accumulates(m, data.take(k));
    let mid = FramerModel { acc: m.acc + data.take(k), ..m };
    lemma_feed_single(mid, last);
    assert(mid.acc.push(last) =~= m.acc + data);
}

/// The round-trip law: starting from a machine awaiting a length prefix,
/// feeding the exact wire encoding of any payload of admissible length
/// completes exactly that payload as one frame and returns the machine to
/// awaiting the next length prefix. What one end writes, the peer reads
/// back unchanged.
pub proof fn lemma_round_trip(q: Seq<Seq<u8>>, p: Seq<u8>)
    requires
        p.len() <= crate::frame::MAX_PAYLOAD_LEN,
    ensures
        feed_seq(fresh_with(q), frame_bytes(p)) == fresh_with(q.push(p)),
{
    let m0 = fresh_with(q);
    let hi = len_hi(p.len());
    let lo = len_lo(p.len());
    let prefix = seq![hi, lo];
    assert(frame_bytes(p) == prefix + p);
    lemma_feed_split(m0, prefix, p);
    lemma_feed_completes(m0, prefix);
    crate::frame::lemma_len_prefix_inverse(p.len());
    let full = m0.acc + prefix;
    assert(full =~= prefix);
    assert(decoded_len(full[0], full[1]) == p.len());
    if p.len() == 0 {
        assert(feed_seq(m0, prefix) == fresh_with(q.push(Seq::empty())));
        assert(Seq::<u8>::empty() =~= p);
        assert(feed_seq(fresh_with(q), frame_bytes(p)) =~= fresh_with(q.push(p)));
    } else {
        let m2 = FramerModel {
            state: ReadState::AwaitingPayload,
            acc: Seq::empty(),
            cap: p.len(),
            frames: q,
        };
        assert(feed_seq(m0, prefix) == m2);
        lemma_feed_completes(m2, p);
        assert(m2.acc + p =~= p);
        assert(feed_seq(fresh_with(q), frame_bytes(p)) =~= fresh_with(q.push(p)));
    }
}

/// The framing state machine over one frame buffer.
pub struct Framer {
    state: ReadState,
    buffer: FrameBuffer,
}

impl View for Framer {
    type V = FramerModel;

    closed spec fn view(&self) -> FramerModel {
        FramerModel {
            state: self.state,
            acc: self.buffer.bytes(),
            cap: self.buffer.capacity(),
            frames: self.buffer.frames(),
        }
    }
}

impl Framer {
    /// A fresh state machine: awaiting the first length prefix, nothing
    /// accumulated, nothing queued. Duplicates of a connection each build
    /// their own framer with this, so no framing state is ever shared.
    pub fn new() -> (r: Framer)
        ensures
            r@ == fresh_with(Seq::empty()),
            wf(r@),
    {
        let r = Framer { state: ReadState::AwaitingLength, buffer: FrameBuffer::new() };
        proof {
            assert(r@ =~= fresh_with(Seq::empty()));
        }
        r
    }

    /// How many bytes the machine still needs to complete its current
    /// phase. A blocking transport read must request at most this many
    /// bytes, so that it never consumes bytes belonging to the next frame.
    pub fn wanted(&self) -> (r: u16)
        requires
            wf(self@),
        ensures
            r as nat == self@.cap - self@.acc.len(),
            r > 0,
    {
        self.buffer.remaining()
    }

    /// Feeds one delivered byte and performs whatever phase transition it
    /// completes, exactly as the abstract machine does.
    fn feed_byte(&mut self, b: u8)
        requires
            wf(old(self)@),
        ensures
            final(self)@ == feed_one(old(self)@, b),
            wf(final(self)@),
    {
        self.buffer.push(b);
        if self.buffer.remaining() == 0 {
            match self.state {
                ReadState::AwaitingLength => {
                    let l = self.buffer.decode_len();
                    if l == 0 {
                        // A declared length of zero means the payload phase
                        // is already complete: queue the empty frame now
                        // rather than wait to read zero bytes.
                        self.buffer.set_capacity(0);
                        self.buffer.complete_phase();
                    } else {
                        self.buffer.set_capacity(l);
                        self.state = ReadState::AwaitingPayload;
                    }
                },
                ReadState::AwaitingPayload => {
                    self.buffer.complete_phase();
                    self.state = ReadState::AwaitingLength;
                },
            }
        }
        proof {
            assert(final(self)@ =~= feed_one(old(self)@, b));
        }
    }

    /// Feeds a chunk of bytes exactly as the transport delivered it. Any
    /// frames completed along the way accumulate in the completed-frame
    /// queue; [`Self::drain_frames`] or [`Self::read_step`] retrieves them.
    pub fn feed(&mut self, data: &Vec<u8>)
        requires
            wf(old(self)@),
        ensures
            final(self)@ == feed_seq(old(self)@, data@),
            wf(final(self)@),
    {
        let n = data.len();
        let mut i: usize = 0;
        while i < n
            invariant
                i <= n,
                n == data@.len(),
                wf(old(self)@),
                wf(self@),
                self@ == feed_seq(old(self)@, data@.take(i as int)),
            decreases n - i,
        {
            proof {
                lemma_feed_split(old(self)@, data@.take(i as int), seq![data@[i as int]]);
                assert(data@.take(i as int) + seq![data@[i as int]] =~= data@.take(i + 1));
                lemma_feed_single(self@, data@[i as int]);
            }
            self.feed_byte(data[i]);
            i += 1;
        }
        proof {
            assert(data@.take(n as int) =~= data@);
        }
    }

    /// One iteration of a blocking read. The transport was asked for at
    /// most [`Self::wanted`] bytes (so the frame boundary is preserved) and
    /// delivered `data`; this decides what the read does next:
    ///
    /// - the transport delivered nothing, meaning the connection closed or
    ///   failed while the frame was incomplete: the read must surface
    ///   [`FrameError::ConnectionClosed`] rather than retry silently;
    /// - the bytes completed a frame: exactly that frame is drained and
    ///   returned, never a partial one;
    /// - otherwise the bytes only advanced the machine and the read must
    ///   ask the transport again.
    ///
    /// A completed-frame count other than one at the drain would surface as
    /// [`FrameError::InvariantViolation`]; the contract shows it cannot
    /// happen here.
    pub fn read_step(&mut self, data: &Vec<u8>) -> (r: Result<Option<Vec<u8>>, FrameError>)
        requires
            wf(old(self)@),
            old(self)@.frames.len() == 0,
            data@.len() <= old(self)@.cap - old(self)@.acc.len(),
        ensures
            wf(final(self)@),
            final(self)@.frames.len() == 0,
            data@.len() == 0 ==> r == Err::<Option<Vec<u8>>, FrameError>(
                FrameError::ConnectionClosed,
            ) && final(self)@ == old(self)@,
            data@.len() > 0 ==> ({
                let m2 = feed_seq(old(self)@, data@);
                &&& final(self)@ == (FramerModel { frames: Seq::empty(), ..m2 })
                &&& (m2.frames.len() == 0 ==> r == Ok::<Option<Vec<u8>>, FrameError>(None))
                &&& (m2.frames.len() != 0 ==> m2.frames.len() == 1 && (r matches Ok(Some(f))
                    && f@ == m2.frames[0]))
            }),
    {
        if data.len() == 0 {
            return Err(FrameError::ConnectionClosed);
        }
        proof {
            if data@.len() < old(self)@.cap - old(self)@.acc.len() {
                lemma_feed_accumulates(old(self)@, data@);
            } else {
                lemma_feed_completes(old(self)@, data@);
            }
        }
        self.feed(data);
        let mut frames = self.drain_frames();
        if frames.len() == 0 {
            Ok(None)
        } else if frames.len() == 1 {
            proof {
                assert(frames@.map_values(|v: Vec<u8>| v@)[0] == frames@[0]@);
            }
            match frames.pop() {
                Some(f) => Ok(Some(f)),
                None => Err(FrameError::InvariantViolation),
            }
        } else {
            // Shown above to be unreachable; surfaced loudly all the same.
            Err(FrameError::InvariantViolation)
        }
    }

    /// Removes and returns every completed frame, in arrival order.
    pub fn drain_frames(&mut self) -> (r: Vec<Vec<u8>>)
        ensures
            r@.map_values(|v: Vec<u8>| v@) == old(self)@.frames,
            final(self)@ == (FramerModel { frames: Seq::empty(), ..old(self)@ }),
    {
        let r = self.buffer.drain_queue();
        proof {
            assert(final(self)@ =~= (FramerModel { frames: Seq::empty(), ..old(self)@ }));
        }
        r
    }
}

} // verus!
