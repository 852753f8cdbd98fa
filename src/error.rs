//! Errors of the codecs and of the socket operations.

use vstd::prelude::*;

verus! {

/// Input too short to hold the record being decoded.
#[derive(Debug, Clone, Copy, PartialEq, Eq)]
pub struct DecodeError {
    /// Bytes the record needs.
    pub needed: usize,
    /// Bytes that were given.
    pub available: usize,
}


/// What made a socket operation fail.
#[derive(Debug, Clone, Copy, PartialEq, Eq)]
pub enum Cause {
    /// The operating system refused the call with this error number.
    Os(i32),
    /// The interface name does not fit the kernel's name buffer.
    NameTooLong,
}

/// A failed socket operation: what was being done, and why it failed.
#[derive(Debug, Clone, Copy, PartialEq, Eq)]
pub struct SocketError {
    pub action: &'static str,
    pub cause: Cause,
}

} // verus!
