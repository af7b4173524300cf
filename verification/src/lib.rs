//! Decoder for the binary chunk format of a sprite/image asset container.
//!
//! A chunk is a self-describing, variable-length record: a numeric tag selects
//! one of several payload layouts, some of which embed length-prefixed blobs
//! and flag-gated optional fields. The decoder reads one chunk from a borrowed
//! byte slice and returns a typed record together with the unconsumed
//! remainder; unknown tags decode to an explicit fallback variant instead of
//! failing, while truncated input is always rejected.

pub mod assets;
pub mod chunks;
pub mod errors;
pub mod scalars;
