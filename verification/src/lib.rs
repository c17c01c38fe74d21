//! A message-framing layer for byte-oriented connections.
//!
//! The framing turns an unbounded, arbitrarily fragmented stream of bytes
//! into a sequence of discrete, length-delimited messages ("frames"), and
//! the inverse for sending. On the wire each frame is a 2-byte unsigned
//! big-endian length prefix followed by exactly that many payload bytes;
//! a zero-length payload is a valid frame.
//!
//! The verified core is the framing state machine and its accumulation
//! buffer. Transports (a plain TCP connection or a TLS-secured one) are
//! collaborators behind the [`Blocking`] and [`NonBlocking`] capability
//! traits: a transport drives the state machine with whatever bytes the
//! connection delivers and performs the actual I/O itself.

use vstd::prelude::*;

pub mod buffer;
pub mod error;
pub mod frame;
pub mod framer;

use crate::error::FrameError;

verus! {

/// Blocking capability: exchange whole frames, blocking the caller until one
/// frame is available (or sent) or an error occurs.
pub trait Blocking {
    /// Blocks until exactly one complete frame has arrived and returns its
    /// payload, or returns an error.
    fn b_recv(&mut self) -> Result<Vec<u8>, FrameError>;

    /// Blocks until the whole frame (prefix and payload) has been handed to
    /// the transport, or returns an error.
    fn b_send(&mut self, buf: &[u8]) -> Result<(), FrameError>;
}

/// Non-blocking capability: a receive returns immediately with every frame
/// that is currently complete (possibly none), and a send distinguishes
/// "would block, try later" from a hard failure.
pub trait NonBlocking {
    /// Returns every frame that completed with the bytes available right
    /// now, in arrival order; an empty list means no frame is ready yet.
    fn nb_recv(&mut self) -> Result<Vec<Vec<u8>>, FrameError>;

    /// Attempts to hand the frame to the transport without blocking.
    fn nb_send(&mut self, buf: &[u8]) -> Result<(), FrameError>;
}

} // verus!
