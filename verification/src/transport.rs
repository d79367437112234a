//! The capability interface between the session and a socket.
//!
//! The engine performs no I/O itself: a session is generic over an
//! implementation of [`Transport`], chosen once at construction to match the
//! session's transport kind — a UDP datagram socket or a TCP stream.  Nothing
//! can be assumed of what a network peer sends, so the methods carry no
//! contracts: the session states what holds of its own state for every
//! possible outcome, and the codec's contracts pin down how received bytes
//! are interpreted.

use vstd::prelude::*;

use crate::errors::IoErrorKind;

verus! {

pub trait Transport: Sized {
    /// Opens a socket to `host:port`.  For UDP this binds an ephemeral local
    /// port and fixes the remote peer; reads should time out after five
    /// seconds, reported as `IoErrorKind::TimedOut`.
    fn open(host: &String, port: u16) -> Result<Self, IoErrorKind>;

    /// Sends one buffer: a whole datagram over UDP, a stream write over TCP.
    fn send_bytes(&mut self, data: &Vec<u8>) -> Result<(), IoErrorKind>;

    /// Receives at most `max_len` bytes, waiting up to the configured
    /// timeout.  Over TCP a single call may return a short chunk; the
    /// session reassembles frames.
    fn receive_bytes(&mut self, max_len: usize) -> Result<Vec<u8>, IoErrorKind>;
}

} // verus!
