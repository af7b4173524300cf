//! The decoder's error type.

use vstd::prelude::*;

verus! {

/// The single failure mode of chunk decoding: fewer bytes remain than the
/// next field or a declared blob length requires. Unknown tags and unknown
/// flag bits are not errors; only missing bytes are.
#[derive(Debug, Clone, Copy, PartialEq, Eq, Structural)]
pub enum ParseError {
    Truncated,
}

/// A parse either fails or yields the decoded value together with the
/// unconsumed remainder of the input, which borrows from the caller's buffer.
pub type ParseResult<'a, T> = Result<(&'a [u8], T), ParseError>;

} // verus!
