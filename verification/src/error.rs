//! Error taxonomy for the framing layer.
//!
//! Three kinds of failure can surface to a caller:
//! - a transport-level failure or orderly closure, tagged with the operation
//!   that was in progress;
//! - a protocol violation by the caller (a payload too long for the 2-byte
//!   length prefix);
//! - a broken internal invariant of the framing state machine, surfaced
//!   loudly as its own kind rather than mistaken for an ordinary I/O error.

use vstd::prelude::*;

verus! {

/// The operation during which a transport error was observed.
#[derive(Clone, Copy, Debug, PartialEq, Eq, Structural)]
pub enum StreamOp {
    Read,
    Write,
    Shutdown,
}

/// Every error a framed stream can hand to its caller.
#[derive(Clone, Copy, Debug, PartialEq, Eq, Structural)]
pub enum FrameError {
    /// The payload handed to a write exceeds 65535 bytes, the largest length
    /// the 2-byte big-endian prefix can declare. Nothing is sent.
    PayloadTooLarge,
    /// The peer closed the connection (or the transport failed) while a frame
    /// was still incomplete.
    ConnectionClosed,
    /// The underlying transport reported a failure during the tagged
    /// operation; the second field carries the OS error code when one was
    /// available, and 0 otherwise.
    Transport(StreamOp, i32),
    /// A non-blocking operation could do no work without blocking. This is
    /// a "try again later" outcome for implementors of the non-blocking
    /// capability, not a connection failure.
    WouldBlock,
    /// The completed-frame queue held a count other than exactly one when a
    /// blocking read went to drain it. This indicates a bug in the state
    /// machine itself, never an ordinary transport condition.
    InvariantViolation,
}

} // verus!
