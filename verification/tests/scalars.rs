use sprity_aseprite::errors::ParseError;
use sprity_aseprite::scalars::{dword, fixed, length_prefixed, take, word};

#[test]
fn word_is_little_endian() {
    let bytes = [0x34, 0x12, 0x99];
    let (rest, w) = word(&bytes).unwrap();
    assert_eq!(w, 0x1234);
    assert_eq!(rest, &[0x99]);
}

#[test]
fn word_needs_two_bytes() {
    assert_eq!(word(&[0x34]), Err(ParseError::Truncated));
    assert_eq!(word(&[]), Err(ParseError::Truncated));
}

#[test]
fn dword_is_little_endian() {
    let bytes = [0x78, 0x56, 0x34, 0x12];
    let (rest, d) = dword(&bytes).unwrap();
    assert_eq!(d, 0x12345678);
    assert!(rest.is_empty());
}

#[test]
fn dword_needs_four_bytes() {
    assert_eq!(dword(&[0x78, 0x56, 0x34]), Err(ParseError::Truncated));
}

#[test]
fn fixed_reads_one_unit() {
    // Raw 0x00010000 is the fixed-point value 1.0: one whole unit.
    let bytes = [0x00, 0x00, 0x01, 0x00];
    let (rest, f) = fixed(&bytes).unwrap();
    assert_eq!(f, 65536);
    assert!(rest.is_empty());
}

#[test]
fn fixed_is_signed() {
    let bytes = [0xFF, 0xFF, 0xFF, 0xFF];
    let (_, f) = fixed(&bytes).unwrap();
    assert_eq!(f, -1);
    let bytes = [0x00, 0x00, 0x00, 0x80];
    let (_, f) = fixed(&bytes).unwrap();
    assert_eq!(f, i32::MIN);
}

#[test]
fn take_splits_exactly() {
    let bytes = [1, 2, 3, 4, 5];
    let (rest, taken) = take(3, &bytes).unwrap();
    assert_eq!(taken, &[1, 2, 3]);
    assert_eq!(rest, &[4, 5]);
    let (rest, taken) = take(0, &bytes).unwrap();
    assert!(taken.is_empty());
    assert_eq!(rest, &bytes);
}

#[test]
fn take_fails_past_the_end() {
    assert_eq!(take(6, &[1, 2, 3, 4, 5]), Err(ParseError::Truncated));
}

#[test]
fn length_prefixed_reads_declared_bytes() {
    let bytes = [0x02, 0x00, 0x00, 0x00, 0xAB, 0xCD, 0xEF];
    let (rest, data) = length_prefixed(&bytes).unwrap();
    assert_eq!(data, &[0xAB, 0xCD]);
    assert_eq!(rest, &[0xEF]);
}

#[test]
fn length_prefixed_fails_when_declared_length_exceeds_buffer() {
    let bytes = [0x04, 0x00, 0x00, 0x00, 0xAB, 0xCD];
    assert_eq!(length_prefixed(&bytes), Err(ParseError::Truncated));
    assert_eq!(length_prefixed(&[0x01, 0x00]), Err(ParseError::Truncated));
}
