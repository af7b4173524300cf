//! The color-profile chunk: the template instance of the tag-dispatch
//! decoding protocol.
//!
//! A chunk body starts with a fixed 16-byte header — tag word, flags word,
//! fixed-point gamma, eight reserved bytes — and, for the embedded-ICC tag
//! only, a length-prefixed blob of profile bytes follows. Unknown tags decode
//! to an explicit fallback variant carrying the raw value; only missing bytes
//! are an error.

use vstd::prelude::*;

use crate::errors::{ParseError, ParseResult};
use crate::scalars::{dword_val, fixed, fixed_val, length_prefixed, take, word, word_val, Fixed, Word};

verus! {

/// The flags word's bit 0: the fixed-gamma field is meaningful.
pub const FIXED_GAMMA: Word = 0x01;

/// The known chunk-type tags, plus a total fallback: every raw tag maps to
/// exactly one kind, so a file from a newer format revision still decodes.
#[derive(Debug, Clone, Copy, PartialEq, Eq, Structural)]
pub enum ColorProfileType {
    NoColorProfile,
    Srgb,
    EmbeddedICC,
    Unknown(Word),
}

/// The kind selected by a raw tag: 0, 1 and 2 are the named kinds, anything
/// else is `Unknown` carrying the raw value.
pub open spec fn profile_type_of(raw: Word) -> ColorProfileType {
    if raw == 0 {
        ColorProfileType::NoColorProfile
    } else if raw == 1 {
        ColorProfileType::Srgb
    } else if raw == 2 {
        ColorProfileType::EmbeddedICC
    } else {
        ColorProfileType::Unknown(raw)
    }
}

impl ColorProfileType {
    /// Total, infallible tag resolution: no raw value is rejected here.
    pub fn from_word(raw: Word) -> (t: Self)
        ensures
            t == profile_type_of(raw),
    {
        if raw == 0 {
            ColorProfileType::NoColorProfile
        } else if raw == 1 {
            ColorProfileType::Srgb
        } else if raw == 2 {
            ColorProfileType::EmbeddedICC
        } else {
            ColorProfileType::Unknown(raw)
        }
    }
}

/// Whether the fixed-gamma bit of a flags word is set.
pub open spec fn fixed_gamma_flag(bits: Word) -> bool {
    bits & FIXED_GAMMA != 0
}

/// The chunk's bit-packed option word. Unknown bits are retained in the
/// value — they are reserved for future revisions, never an error — but only
/// named predicates are exposed.
#[derive(Debug, Clone, Copy, PartialEq, Eq, Structural)]
pub struct ColorProfileFlags {
    bits: Word,
}

impl ColorProfileFlags {
    /// The raw word the flag set was decoded from, with every bit kept.
    pub closed spec fn spec_bits(self) -> Word {
        self.bits
    }

    /// Wraps a flags word, preserving all bits, known and unknown alike.
    pub fn from_bits(bits: Word) -> (f: Self)
        ensures
            f.spec_bits() == bits,
    {
        ColorProfileFlags { bits }
    }

    /// Whether the chunk declares its gamma field meaningful.
    pub fn has_fixed_gamma(&self) -> (b: bool)
        ensures
            b == fixed_gamma_flag(self.spec_bits()),
    {
        self.bits & FIXED_GAMMA != 0
    }
}

/// The decoded payload: a tagged union over the known profile kinds. The
/// embedded ICC bytes are a borrowed view into the caller's buffer, never a
/// copy.
#[derive(Debug, PartialEq, Eq)]
pub enum ColorProfile<'a> {
    NoColorProfile,
    Srgb,
    EmbeddedICC(&'a [u8]),
    Unknown(Word),
}

/// The mathematical shape of a decoded payload: the ICC bytes as a sequence.
pub enum ColorProfileView {
    NoColorProfile,
    Srgb,
    EmbeddedICC(Seq<u8>),
    Unknown(Word),
}

impl<'a> View for ColorProfile<'a> {
    type V = ColorProfileView;

    open spec fn view(&self) -> ColorProfileView {
        match self {
            ColorProfile::NoColorProfile => ColorProfileView::NoColorProfile,
            ColorProfile::Srgb => ColorProfileView::Srgb,
            ColorProfile::EmbeddedICC(data) => ColorProfileView::EmbeddedICC(data@),
            ColorProfile::Unknown(raw) => ColorProfileView::Unknown(*raw),
        }
    }
}

/// One decoded color-profile chunk: the gamma field, kept only when the flag
/// grants it meaning, and the tag-selected payload.
#[derive(Debug, PartialEq, Eq)]
pub struct ColorProfileChunk<'a> {
    pub fixed_gamma: Option<Fixed>,
    pub profile: ColorProfile<'a>,
}

/// The mathematical shape of a decoded chunk.
pub struct ColorProfileChunkView {
    pub fixed_gamma: Option<Fixed>,
    pub profile: ColorProfileView,
}

impl<'a> View for ColorProfileChunk<'a> {
    type V = ColorProfileChunkView;

    open spec fn view(&self) -> ColorProfileChunkView {
        ColorProfileChunkView { fixed_gamma: self.fixed_gamma, profile: self.profile@ }
    }
}

/// The raw tag stored at offset 0 of a chunk body.
pub open spec fn raw_tag(b: Seq<u8>) -> Word
    recommends
        b.len() >= 2,
{
    word_val(b)
}

/// The flags word stored at offset 2.
pub open spec fn flags_word(b: Seq<u8>) -> Word
    recommends
        b.len() >= 4,
{
    word_val(b.skip(2))
}

/// The fixed-point gamma stored at offset 4.
pub open spec fn gamma_val(b: Seq<u8>) -> Fixed
    recommends
        b.len() >= 8,
{
    fixed_val(b.skip(4)) as i32
}

/// The declared ICC blob length stored at offset 16 (embedded-ICC tag only).
pub open spec fn icc_len(b: Seq<u8>) -> u32
    recommends
        b.len() >= 20,
{
    dword_val(b.skip(16))
}

/// Whether a chunk body decodes: the 16-byte header must be present, and for
/// the embedded-ICC tag the declared blob length must not exceed the bytes
/// that remain. Every other input decodes, whatever its tag or flags.
pub open spec fn decode_ok(b: Seq<u8>) -> bool {
    b.len() >= 16 && (raw_tag(b) == 2 ==> b.len() >= 20 + icc_len(b))
}

/// How many bytes a successful decode consumes: the 16-byte header, plus the
/// length prefix and blob for the embedded-ICC tag.
pub open spec fn consumed_len(b: Seq<u8>) -> int
    recommends
        decode_ok(b),
{
    if raw_tag(b) == 2 {
        20 + icc_len(b)
    } else {
        16
    }
}

/// The record a successful decode yields: gamma kept exactly when the flag
/// bit grants it meaning, and the payload selected by the tag kind.
pub open spec fn chunk_model(b: Seq<u8>) -> ColorProfileChunkView
    recommends
        decode_ok(b),
{
    ColorProfileChunkView {
        fixed_gamma: if fixed_gamma_flag(flags_word(b)) {
            Some(gamma_val(b))
        } else {
            None
        },
        profile: match profile_type_of(raw_tag(b)) {
            ColorProfileType::NoColorProfile => ColorProfileView::NoColorProfile,
            ColorProfileType::Srgb => ColorProfileView::Srgb,
            ColorProfileType::EmbeddedICC => ColorProfileView::EmbeddedICC(
                b.subrange(20, 20 + icc_len(b)),
            ),
            ColorProfileType::Unknown(raw) => ColorProfileView::Unknown(raw),
        },
    }
}

/// Decodes one color-profile chunk body and returns the typed record with
/// the unconsumed remainder. Succeeds exactly on the inputs `decode_ok`
/// admits; every failure is `Truncated`, and no partial record is returned.
pub fn parse_color_profile<'a>(input: &'a [u8]) -> (r: ParseResult<'a, ColorProfileChunk<'a>>)
    ensures
        r is Ok <==> decode_ok(input@),
        r matches Ok((rest, chunk)) ==> rest@ == input@.skip(consumed_len(input@)) && chunk@
            == chunk_model(input@),
        r matches Err(e) ==> e == ParseError::Truncated,
{
    let (input1, profile_type_raw) = match word(input) {
        Ok(v) => v,
        Err(e) => {
            return Err(e);
        },
    };
    let profile_type = ColorProfileType::from_word(profile_type_raw);
    let (input2, flags_raw) = match word(input1) {
        Ok(v) => v,
        Err(e) => {
            return Err(e);
        },
    };
    let flags = ColorProfileFlags::from_bits(flags_raw);
    let (input3, fixed_gamma) = match fixed(input2) {
        Ok(v) => v,
        Err(e) => {
            return Err(e);
        },
    };
    let (input4, _reserved) = match take(8, input3) {
        Ok(v) => v,
        Err(e) => {
            return Err(e);
        },
    };
    proof {
        assert(input2@ =~= input@.skip(4));
        assert(input3@ =~= input@.skip(8));
        assert(input4@ =~= input@.skip(16));
    }
    let (rest, profile) = match profile_type {
        ColorProfileType::NoColorProfile => (input4, ColorProfile::NoColorProfile),
        ColorProfileType::Srgb => (input4, ColorProfile::Srgb),
        ColorProfileType::EmbeddedICC => {
            let (input5, icc_data) = match length_prefixed(input4) {
                Ok(v) => v,
                Err(e) => {
                    return Err(e);
                },
            };
            proof {
                assert(icc_data@ =~= input@.subrange(20, 20 + icc_len(input@)));
                assert(input5@ =~= input@.skip(20 + icc_len(input@)));
            }
            (input5, ColorProfile::EmbeddedICC(icc_data))
        },
        ColorProfileType::Unknown(raw) => (input4, ColorProfile::Unknown(raw)),
    };
    Ok((
        rest,
        ColorProfileChunk {
            fixed_gamma: if flags.has_fixed_gamma() {
                Some(fixed_gamma)
            } else {
                None
            },
            profile,
        },
    ))
}

/// A chunk whose tag names a payload without a blob — no-profile or sRGB —
/// decodes whenever its 16-byte header is present, whatever its flags, gamma
/// and reserved bytes hold: exactly 16 bytes are consumed, the payload is the
/// unit variant the tag names, and the gamma field is kept exactly when the
/// fixed-gamma flag bit is set.
pub proof fn lemma_plain_profile_decodes(b: Seq<u8>)
    requires
        b.len() >= 16,
        raw_tag(b) == 0 || raw_tag(b) == 1,
    ensures
        decode_ok(b),
        consumed_len(b) == 16,
        raw_tag(b) == 0 ==> chunk_model(b).profile is NoColorProfile,
        raw_tag(b) == 1 ==> chunk_model(b).profile is Srgb,
        chunk_model(b).fixed_gamma is Some <==> fixed_gamma_flag(flags_word(b)),
        chunk_model(b).fixed_gamma matches Some(g) ==> g == gamma_val(b),
{
}

/// An embedded-ICC chunk whose declared blob length fits in the remaining
/// bytes decodes, consumes the header, the length prefix and the blob —
/// twenty bytes plus the declared length — and yields exactly the declared
/// number of bytes, equal to the bytes supplied after the prefix.
pub proof fn lemma_embedded_icc_decodes(b: Seq<u8>)
    requires
        raw_tag(b) == 2,
        b.len() >= 20 + icc_len(b),
    ensures
        decode_ok(b),
        consumed_len(b) == 20 + icc_len(b),
        chunk_model(b).profile matches ColorProfileView::EmbeddedICC(data) && data == b.subrange(
            20,
            20 + icc_len(b),
        ) && data.len() == icc_len(b),
{
}

/// An embedded-ICC chunk whose declared blob length exceeds the bytes that
/// remain does not decode: together with the decoder's contract, such input
/// fails with `Truncated`.
pub proof fn lemma_embedded_icc_truncated(b: Seq<u8>)
    requires
        raw_tag(b) == 2,
        b.len() < 20 + icc_len(b),
    ensures
        !decode_ok(b),
{
}

/// A tag outside the named kinds is not an error: the chunk decodes, consumes
/// exactly the 16-byte header, and the payload preserves the raw tag value.
pub proof fn lemma_unknown_tag_decodes(b: Seq<u8>)
    requires
        b.len() >= 16,
        raw_tag(b) != 0,
        raw_tag(b) != 1,
        raw_tag(b) != 2,
    ensures
        decode_ok(b),
        consumed_len(b) == 16,
        chunk_model(b).profile matches ColorProfileView::Unknown(raw) && raw == raw_tag(b),
{
}

/// Input shorter than the 16-byte header never decodes, whatever its tag:
/// together with the decoder's contract, it fails with `Truncated`.
pub proof fn lemma_short_input_truncated(b: Seq<u8>)
    requires
        b.len() < 16,
    ensures
        !decode_ok(b),
{
}

/// Decoding is deterministic: the decoded record is a function of the input
/// bytes alone, so decoding the same buffer twice yields identical records.
pub proof fn lemma_decode_deterministic(
    b: Seq<u8>,
    v1: ColorProfileChunkView,
    v2: ColorProfileChunkView,
)
    requires
        v1 == chunk_model(b),
        v2 == chunk_model(b),
    ensures
        v1 == v2,
{
}

} // verus!
