//! Remarks on frames that were decoded only in part.

use vstd::prelude::*;

verus! {

/// A remark on a frame that was decoded only in part. It goes with a result
/// that holds placeholders, and is no error.
#[derive(Clone, Copy, Debug, PartialEq, Eq, Structural)]
pub enum DecodeNote {
    /// The ethertype, given here, is none of the supported ones.
    UnsupportedEthertype(u16),
    /// The IP protocol, given here by its number, is neither TCP nor UDP.
    UnsupportedProtocol(u8),
}

} // verus!
