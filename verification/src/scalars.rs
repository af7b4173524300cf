//! Fixed-width little-endian scalars read from a byte slice.
//!
//! Every reader takes the remaining input, and on success returns the slice
//! past the consumed bytes together with the decoded value. Byte order is
//! little-endian throughout the format. Running out of bytes is the only
//! failure; nothing is zero-filled or wrapped.

use vstd::prelude::*;

use crate::errors::{ParseError, ParseResult};

verus! {

/// A 16-bit unsigned word as stored in the file.
pub type Word = u16;

/// A 32-bit unsigned double-word as stored in the file.
pub type Dword = u32;

/// A 32-bit signed fixed-point number: 16 integer bits, 16 fractional bits.
/// Consumers interpret it as the rational value `raw / 65536`.
pub type Fixed = i32;

/// The word stored little-endian in the first two bytes of `b`.
pub open spec fn word_val(b: Seq<u8>) -> u16
    recommends
        b.len() >= 2,
{
    (b[0] + b[1] * 0x100) as u16
}

/// The double-word stored little-endian in the first four bytes of `b`.
pub open spec fn dword_val(b: Seq<u8>) -> u32
    recommends
        b.len() >= 4,
{
    (b[0] + b[1] * 0x100 + b[2] * 0x10000 + b[3] * 0x1000000) as u32
}

/// The signed fixed-point number stored little-endian in the first four bytes
/// of `b`, as a mathematical integer: the double-word reinterpreted in two's
/// complement.
pub open spec fn fixed_val(b: Seq<u8>) -> int {
    if dword_val(b) < 0x8000_0000 {
        dword_val(b) as int
    } else {
        dword_val(b) - 0x1_0000_0000
    }
}

/// Reads one little-endian 16-bit word.
pub fn word(input: &[u8]) -> (r: ParseResult<'_, Word>)
    ensures
        r is Ok <==> input@.len() >= 2,
        r matches Ok((rest, w)) ==> rest@ == input@.skip(2) && w == word_val(input@),
        r matches Err(e) ==> e == ParseError::Truncated,
{
    if input.len() < 2 {
        return Err(ParseError::Truncated);
    }
    let w: u16 = input[0] as u16 + input[1] as u16 * 0x100;
    let rest = &input[2..input.len()];
    proof {
        assert(rest@ =~= input@.skip(2));
    }
    Ok((rest, w))
}

/// Reads one little-endian 32-bit double-word.
pub fn dword(input: &[u8]) -> (r: ParseResult<'_, Dword>)
    ensures
        r is Ok <==> input@.len() >= 4,
        r matches Ok((rest, d)) ==> rest@ == input@.skip(4) && d == dword_val(input@),
        r matches Err(e) ==> e == ParseError::Truncated,
{
    if input.len() < 4 {
        return Err(ParseError::Truncated);
    }
    let d: u32 = input[0] as u32 + input[1] as u32 * 0x100 + input[2] as u32 * 0x10000
        + input[3] as u32 * 0x1000000;
    let rest = &input[4..input.len()];
    proof {
        assert(rest@ =~= input@.skip(4));
    }
    Ok((rest, d))
}

/// Reads one little-endian 32-bit fixed-point number.
pub fn fixed(input: &[u8]) -> (r: ParseResult<'_, Fixed>)
    ensures
        r is Ok <==> input@.len() >= 4,
        r matches Ok((rest, f)) ==> rest@ == input@.skip(4) && f == fixed_val(input@),
        r matches Err(e) ==> e == ParseError::Truncated,
{
    match dword(input) {
        Ok((rest, d)) => {
            let f: i32 = 0i32.wrapping_add_unsigned(d);
            Ok((rest, f))
        },
        Err(e) => Err(e),
    }
}

/// Takes exactly `count` raw bytes as a borrowed view of the input.
pub fn take<'a>(count: usize, input: &'a [u8]) -> (r: ParseResult<'a, &'a [u8]>)
    ensures
        r is Ok <==> input@.len() >= count,
        r matches Ok((rest, taken)) ==> rest@ == input@.skip(count as int) && taken@ == input@.take(
            count as int,
        ),
        r matches Err(e) ==> e == ParseError::Truncated,
{
    if input.len() < count {
        return Err(ParseError::Truncated);
    }
    let taken = &input[0..count];
    let rest = &input[count..input.len()];
    proof {
        assert(taken@ =~= input@.take(count as int));
        assert(rest@ =~= input@.skip(count as int));
    }
    Ok((rest, taken))
}

/// Reads a double-word length field, then takes exactly that many following
/// bytes as a borrowed view. Fails with `Truncated` when the declared length
/// exceeds the remaining buffer.
pub fn length_prefixed(input: &[u8]) -> (r: ParseResult<'_, &[u8]>)
    ensures
        r is Ok <==> input@.len() >= 4 && input@.len() >= 4 + dword_val(input@),
        r matches Ok((rest, data)) ==> rest@ == input@.skip(4 + dword_val(input@)) && data@
            == input@.subrange(4, 4 + dword_val(input@)),
        r matches Err(e) ==> e == ParseError::Truncated,
{
    let (rest, declared) = match dword(input) {
        Ok(v) => v,
        Err(e) => {
            return Err(e);
        },
    };
    let r = take(declared as usize, rest);
    proof {
        if rest@.len() >= declared {
            assert(rest@.skip(declared as int) =~= input@.skip(4 + dword_val(input@)));
            assert(rest@.take(declared as int) =~= input@.subrange(4, 4 + dword_val(input@)));
        }
    }
    r
}

} // verus!
