//! The wire form of a frame: a 2-byte unsigned big-endian length prefix
//! immediately followed by exactly that many payload bytes.

use vstd::prelude::*;

use crate::error::FrameError;

verus! {

/// The largest payload length the 2-byte prefix can declare.
pub const MAX_PAYLOAD_LEN: usize = 65535;

/// High byte of the big-endian length prefix declaring `n`.
pub open spec fn len_hi(n: nat) -> u8
    recommends
        n <= MAX_PAYLOAD_LEN,
{
    (n / 256) as u8
}

/// Low byte of the big-endian length prefix declaring `n`.
pub open spec fn len_lo(n: nat) -> u8 {
    (n % 256) as u8
}

/// The payload length declared by a big-endian prefix of bytes `b0`, `b1`.
pub open spec fn decoded_len(b0: u8, b1: u8) -> nat {
    b0 as nat * 256 + b1 as nat
}

/// The exact wire form of one frame carrying `payload`.
pub open spec fn frame_bytes(payload: Seq<u8>) -> Seq<u8>
    recommends
        payload.len() <= MAX_PAYLOAD_LEN,
{
    seq![len_hi(payload.len()), len_lo(payload.len())] + payload
}

/// Decoding a length prefix recovers exactly the length it was built from.
pub proof fn lemma_len_prefix_inverse(n: nat)
    requires
        n <= MAX_PAYLOAD_LEN,
    ensures
        decoded_len(len_hi(n), len_lo(n)) == n,
{
    assert(n / 256 <= 255) by (nonlinear_arith)
        requires
            n <= 65535,
    ;
    assert((n / 256) * 256 + n % 256 == n) by (nonlinear_arith);
}

/// Builds the single contiguous buffer a write hands to the transport:
/// the 2-byte big-endian length prefix followed by the payload. A payload
/// longer than [`MAX_PAYLOAD_LEN`] is rejected up front, before any byte
/// could reach the wire.
pub fn encode_frame(payload: &Vec<u8>) -> (r: Result<Vec<u8>, FrameError>)
    ensures
        payload@.len() <= MAX_PAYLOAD_LEN ==> (r matches Ok(v) && v@ == frame_bytes(
            payload@,
        )),
        payload@.len() > MAX_PAYLOAD_LEN ==> r == Err::<Vec<u8>, FrameError>(
            FrameError::PayloadTooLarge,
        ),
{
    if payload.len() > MAX_PAYLOAD_LEN {
        return Err(FrameError::PayloadTooLarge);
    }
    let n = payload.len();
    let hi: u8 = (n / 256) as u8;
    let lo: u8 = (n % 256) as u8;
    let mut out: Vec<u8> = Vec::new();
    out.push(hi);
    out.push(lo);
    let mut i: usize = 0;
    while i < payload.len()
        invariant
            i <= payload@.len(),
            payload@.len() <= MAX_PAYLOAD_LEN,
            out@ == seq![len_hi(payload@.len()), len_lo(payload@.len())] + payload@.take(
                i as int,
            ),
        decreases payload@.len() - i,
    {
        out.push(payload[i]);
        i += 1;
    }
    proof {
        assert(payload@.take(payload@.len() as int) =~= payload@);
        assert(out@ =~= frame_bytes(payload@));
    }
    Ok(out)
}

} // verus!
