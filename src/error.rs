//! Errors reported by the signaling operations.

use vstd::prelude::*;

verus! {

/// Why a synchronous signaling operation failed.
#[derive(Debug, PartialEq, Eq)]
pub enum RingRtcError {
    /// A text field holds the terminator `'\0'` and cannot reach the engine.
    /// No native call was made.
    TextEncoding,
    /// The engine returned no channel; carries the label that was asked for.
    CreateDataChannel(String),
    /// The engine rejected the candidate.
    AddIceCandidate,
}

} // verus!
