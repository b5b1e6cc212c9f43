//! The failures a generation request can settle with.

use vstd::prelude::*;

verus! {

/// Why a generation request failed. None of these is retried on its own:
/// retry is a fresh dispatch.
#[derive(Clone, Copy, Debug, PartialEq, Eq, Structural)]
pub enum ErrorKind {
    /// Establishing the call failed, or reading bytes mid-stream did.
    TransportError,
    /// A complete line did not parse as a well-formed generation record.
    DecodeError,
    /// The stream ended before any record marked done arrived.
    PrematureTermination,
}

} // verus!
