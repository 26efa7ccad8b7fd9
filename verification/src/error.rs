//! Error kinds of the decoder core.
//!
//! Every error is fatal to the enclosing decode: it bubbles unmodified
//! through all nested frames, with no partial result and no local recovery.

use vstd::prelude::*;

verus! {

/// What can go wrong while decoding.
///
/// `TruncatedInput`, `MalformedLength` and `InvalidTag` report bad input
/// data; `ProtocolMisuse` reports a contract violation by the calling
/// consumer, kept distinct so callers can separate "bad input file" from
/// "bad integration".
#[derive(Clone, Copy, Debug, PartialEq, Eq, Structural)]
pub enum Error {
    /// The cursor has fewer bytes left than a read requires.
    TruncatedInput,
    /// A declared element count is negative.
    MalformedLength,
    /// A byte in tag position is not one of the format's tag codes.
    InvalidTag,
    /// The consumer pulled fields out of order, past exhaustion, or asked
    /// this sub-decoder for a value kind it does not serve.
    ProtocolMisuse,
}

} // verus!
