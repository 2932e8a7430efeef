use thicc::Chars;

#[test]
fn single_scalar_round_trip_16() {
    // 'A' encodes as one 16-bit unit and decodes back to exactly [Ok('A')].
    let units: [u16; 1] = [0x0041];
    let mut it = Chars::new(&units);
    assert_eq!(it.next(), Some(Ok('A')));
    assert_eq!(it.next(), None);
}

#[test]
fn single_scalar_round_trip_32() {
    // U+1D11E fits in one 32-bit unit.
    let units: [u32; 2] = [0x1D11E, 0x006D];
    let mut it = Chars::new(&units);
    assert_eq!(it.next(), Some(Ok('\u{1D11E}')));
    assert_eq!(it.next(), Some(Ok('m')));
    assert_eq!(it.next(), None);
}

#[test]
fn surrogate_pair_combines() {
    // (high - 0xD800) << 10 | (low - 0xDC00), plus 0x10000.
    let units: [u16; 2] = [0xD800, 0xDC00];
    let mut it = Chars::new(&units);
    assert_eq!(it.next(), Some(Ok('\u{10000}')));
    assert_eq!(it.next(), None);

    let units: [u16; 2] = [0xD834, 0xDD1E];
    let mut it = Chars::new(&units);
    assert_eq!(it.next(), Some(Ok('\u{1D11E}')));
    assert_eq!(it.next(), None);

    let units: [u16; 2] = [0xDBFF, 0xDFFF];
    let mut it = Chars::new(&units);
    assert_eq!(it.next(), Some(Ok('\u{10FFFF}')));
    assert_eq!(it.next(), None);
}

#[test]
fn lone_low_surrogate_is_error_and_advances_one() {
    let units: [u16; 2] = [0xDC00, 0x0041];
    let mut it = Chars::new(&units);
    let first = it.next().unwrap();
    assert_eq!(first.unwrap_err().code(), 0xDC00);
    // Decoding resumed at the unit after the error.
    assert_eq!(it.next(), Some(Ok('A')));
    assert_eq!(it.next(), None);
}

#[test]
fn lone_high_surrogate_at_end_is_error_then_termination() {
    let units: [u16; 1] = [0xD800];
    let mut it = Chars::new(&units);
    let first = it.next().unwrap();
    assert_eq!(first.unwrap_err().code(), 0xD800);
    assert_eq!(it.next(), None);
}

#[test]
fn high_surrogate_followed_by_non_trail_is_error_keeping_lookahead() {
    // The lookahead unit is not consumed: it decodes on the next call.
    let units: [u16; 2] = [0xD800, 0x0041];
    let mut it = Chars::new(&units);
    let first = it.next().unwrap();
    assert_eq!(first.unwrap_err().code(), 0xD800);
    assert_eq!(it.next(), Some(Ok('A')));
    assert_eq!(it.next(), None);
}

#[test]
fn errors_do_not_poison_later_steps() {
    let units: [u16; 5] = [0x0044, 0xDC00, 0xD800, 0xDC00, 0x0045];
    let mut it = Chars::new(&units);
    assert_eq!(it.next(), Some(Ok('D')));
    assert_eq!(it.next().unwrap().unwrap_err().code(), 0xDC00);
    assert_eq!(it.next(), Some(Ok('\u{10000}')));
    assert_eq!(it.next(), Some(Ok('E')));
    assert_eq!(it.next(), None);
}

#[test]
fn out_of_range_32_bit_unit_is_error() {
    let units: [u32; 3] = [0x110000, 0xD800, 0x0041];
    let mut it = Chars::new(&units);
    assert_eq!(it.next().unwrap().unwrap_err().code(), 0x110000);
    assert_eq!(it.next().unwrap().unwrap_err().code(), 0xD800);
    assert_eq!(it.next(), Some(Ok('A')));
    assert_eq!(it.next(), None);
}

#[test]
fn signed_16_bit_units_decode_like_unsigned() {
    let units: [i16; 3] = [0x0041, 0xD834u16 as i16, 0xDD1Eu16 as i16];
    let mut it = Chars::new(&units);
    assert_eq!(it.next(), Some(Ok('A')));
    assert_eq!(it.next(), Some(Ok('\u{1D11E}')));
    assert_eq!(it.next(), None);

    let units: [i16; 1] = [0xDC00u16 as i16];
    let mut it = Chars::new(&units);
    assert_eq!(it.next().unwrap().unwrap_err().code(), 0xDC00u16 as i16);
    assert_eq!(it.next(), None);
}

#[test]
fn signed_32_bit_units_decode_like_unsigned() {
    let units: [i32; 2] = [0x1D11E, 0x0041];
    let mut it = Chars::new(&units);
    assert_eq!(it.next(), Some(Ok('\u{1D11E}')));
    assert_eq!(it.next(), Some(Ok('A')));
    assert_eq!(it.next(), None);
}

#[test]
fn size_hint_bounds_16() {
    // 16-bit: lower bound assumes all surrogate pairs, upper none.
    let units: [u16; 3] = [0xD834, 0xDD1E, 0x006D];
    let mut it = Chars::new(&units);
    assert_eq!(it.size_hint(), (1, Some(3)));
    assert_eq!(it.len(), 3);
    it.next().unwrap().unwrap();
    assert_eq!(it.size_hint(), (0, Some(1)));
    assert_eq!(it.len(), 1);
}

#[test]
fn size_hint_exact_32() {
    // 32-bit: each unit is exactly one decode step.
    let units: [u32; 2] = [0x0041, 0x0042];
    let it = Chars::new(&units);
    assert_eq!(it.size_hint(), (2, Some(2)));
    assert_eq!(it.len(), 2);
}

#[test]
fn cloned_cursor_is_independent() {
    let units: [u16; 2] = [0x0041, 0x0042];
    let mut it = Chars::new(&units);
    assert_eq!(it.next(), Some(Ok('A')));
    let mut copy = it.clone();
    assert_eq!(it.next(), Some(Ok('B')));
    assert_eq!(copy.next(), Some(Ok('B')));
    assert_eq!(copy.next(), None);
}
