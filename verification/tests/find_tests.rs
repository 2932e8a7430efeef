use thicc::find::{wcslen_portable, wmemchr_portable};
use thicc::SpecWide;

fn both_wmemchr_u16(needle: u16, haystack: &[u16]) -> Option<usize> {
    let fast = <u16 as SpecWide>::wmemchr(needle, haystack);
    let portable = wmemchr_portable(needle, haystack);
    assert_eq!(fast, portable);
    fast
}

fn both_wmemchr_i32(needle: i32, haystack: &[i32]) -> Option<usize> {
    let fast = <i32 as SpecWide>::wmemchr(needle, haystack);
    let portable = wmemchr_portable(needle, haystack);
    assert_eq!(fast, portable);
    fast
}

#[test]
fn wmemchr_finds_first_occurrence() {
    let haystack: [u16; 7] = [0x66, 0x6F, 0x6F, 0x20, 0x62, 0x61, 0x72];
    assert_eq!(both_wmemchr_u16(0x6F, &haystack), Some(1));
    assert_eq!(both_wmemchr_u16(0x7A, &haystack), None);
    assert_eq!(both_wmemchr_u16(0x72, &haystack), Some(6));
}

#[test]
fn wmemchr_empty_haystack() {
    let haystack: [u16; 0] = [];
    assert_eq!(both_wmemchr_u16(0x41, &haystack), None);
    assert_eq!(both_wmemchr_u16(0, &haystack), None);
}

#[test]
fn wmemchr_empty_prefix_all_matching_no_match() {
    // Empty prefix: the needle sits at index zero.
    assert_eq!(both_wmemchr_u16(0, &[0x0000]), Some(0));
    // All-matching: still the first occurrence.
    assert_eq!(both_wmemchr_u16(0x41, &[0x41, 0x41, 0x41]), Some(0));
    // No-match.
    assert_eq!(both_wmemchr_u16(0x41, &[0x42, 0x43]), None);
}

#[test]
fn wmemchr_signed_negative_units() {
    let haystack: [i32; 4] = [5, -1, -2, -1];
    assert_eq!(both_wmemchr_i32(-1, &haystack), Some(1));
    assert_eq!(both_wmemchr_i32(-2, &haystack), Some(2));
    assert_eq!(both_wmemchr_i32(-3, &haystack), None);
}

#[test]
fn wcslen_paths_agree() {
    let units: [u16; 4] = [0x52, 0x75, 0x73, 0x00];
    assert_eq!(<u16 as SpecWide>::wcslen(&units), 3);
    assert_eq!(wcslen_portable(&units), 3);

    let units: [u16; 1] = [0x0000];
    assert_eq!(<u16 as SpecWide>::wcslen(&units), 0);
    assert_eq!(wcslen_portable(&units), 0);

    let units: [i16; 5] = [0x48, 0x69, 0x00, 0x21, 0x00];
    assert_eq!(<i16 as SpecWide>::wcslen(&units), 2);
    assert_eq!(wcslen_portable(&units), 2);

    let units: [u32; 3] = [0x1D11E, 0x6D, 0x00];
    assert_eq!(<u32 as SpecWide>::wcslen(&units), 2);
    assert_eq!(wcslen_portable(&units), 2);

    let units: [i32; 2] = [-5, 0];
    assert_eq!(<i32 as SpecWide>::wcslen(&units), 1);
    assert_eq!(wcslen_portable(&units), 1);
}

#[test]
fn wmemchr_paths_agree_on_longer_input() {
    // Long enough to exercise the vectorized kernels of the fast path.
    let mut haystack: Vec<u16> = Vec::new();
    let mut i: u16 = 0;
    while i < 300 {
        haystack.push(i % 7);
        i += 1;
    }
    haystack.push(0x4242);
    for needle in [0u16, 1, 6, 7, 0x4242, 0x9999] {
        let fast = <u16 as SpecWide>::wmemchr(needle, &haystack);
        let portable = wmemchr_portable(needle, &haystack);
        assert_eq!(fast, portable);
    }
}

#[test]
fn wmemchr_paths_agree_for_all_unit_types() {
    let haystack16: [i16; 4] = [3, -7, 0, -7];
    for needle in [0i16, 3, -7, 9] {
        assert_eq!(
            <i16 as SpecWide>::wmemchr(needle, &haystack16),
            wmemchr_portable(needle, &haystack16)
        );
    }
    let haystack32: [u32; 4] = [0x110000, 0, 0x41, 0];
    for needle in [0u32, 0x41, 0x110000, 5] {
        assert_eq!(
            <u32 as SpecWide>::wmemchr(needle, &haystack32),
            wmemchr_portable(needle, &haystack32)
        );
    }
}
