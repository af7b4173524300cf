//! The chunk decoders of the container format, one module per chunk kind.

pub mod color_profile;
