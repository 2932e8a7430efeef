//! Length scan (`wcslen`) and needle search (`wmemchr`) over wide code units.
//!
//! Each operation has two implementations that agree exactly on every input:
//! a portable unit-by-unit scan, verified here, and a specialized fast path
//! behind the [`SpecWide`] trait that defers to a vectorized search. Both are
//! pinned to the same specification, [`find_unit`].

use vstd::prelude::*;

use crate::wide::{unit_bits, Decode, Wide};

verus! {

/// The index of the first occurrence of `x` in `s`, if any.
pub open spec fn find_unit(s: Seq<u32>, x: u32) -> Option<int>
    decreases s.len(),
{
    if s.len() == 0 {
        None
    } else if s[0] == x {
        Some(0)
    } else {
        match find_unit(s.skip(1), x) {
            Some(i) => Some(i + 1),
            None => None,
        }
    }
}

/// An `Option<usize>` result, widened for comparison with [`find_unit`].
pub open spec fn opt_index(r: Option<usize>) -> Option<int> {
    match r {
        Some(i) => Some(i as int),
        None => None,
    }
}

/// `find_unit` returns the first occurrence: the found index holds `x` and no
/// earlier index does; `None` means `x` occurs nowhere.
pub proof fn lemma_find_unit(s: Seq<u32>, x: u32)
    ensures
        match find_unit(s, x) {
            Some(i) => 0 <= i < s.len() && s[i] == x && forall|j: int| 0 <= j < i ==> s[j] != x,
            None => forall|j: int| 0 <= j < s.len() ==> s[j] != x,
        },
    decreases s.len(),
{
    if s.len() == 0 {
    } else if s[0] == x {
    } else {
        lemma_find_unit(s.skip(1), x);
        assert forall|j: int| 1 <= j < s.len() implies s[j] == s.skip(1)[j - 1] by {}
    }
}

/// Any index that holds `x` with no earlier occurrence is the one that
/// `find_unit` returns.
pub proof fn lemma_find_unit_is_first(s: Seq<u32>, x: u32, i: int)
    requires
        0 <= i < s.len(),
        s[i] == x,
        forall|j: int| 0 <= j < i ==> s[j] != x,
    ensures
        find_unit(s, x) == Some(i),
{
    lemma_find_unit(s, x);
    match find_unit(s, x) {
        Some(k) => {
            if k < i {
                assert(s[k] != x);
            }
            if i < k {
                assert(s[i] != x);
            }
        },
        None => {
            assert(s[i] != x);
        },
    }
}

/// If `x` occurs nowhere in `s`, `find_unit` returns `None`.
pub proof fn lemma_find_unit_absent(s: Seq<u32>, x: u32)
    requires
        forall|j: int| 0 <= j < s.len() ==> s[j] != x,
    ensures
        find_unit(s, x) is None,
{
    lemma_find_unit(s, x);
    if let Some(i) = find_unit(s, x) {
        assert(s[i] != x);
    }
}

/// Portable needle search: a linear scan comparing one unit at a time.
///
/// Agrees exactly with the specialized path of [`SpecWide::wmemchr`]: both
/// return `find_unit` of the haystack's bit patterns.
pub fn wmemchr_portable<T: Wide>(needle: T, haystack: &[T]) -> (r: Option<usize>)
    ensures
        opt_index(r) == find_unit(unit_bits(haystack@), needle.bits()),
{
    let ghost s = unit_bits(haystack@);
    let n = haystack.len();
    let mut pos: usize = 0;
    while pos < n
        invariant
            n == haystack@.len(),
            s == unit_bits(haystack@),
            0 <= pos <= n,
            forall|j: int| 0 <= j < pos ==> s[j] != needle.bits(),
        decreases n - pos,
    {
        if haystack[pos].eq_unit(needle) {
            proof {
                lemma_find_unit_is_first(s, needle.bits(), pos as int);
            }
            return Some(pos);
        }
        pos = pos + 1;
    }
    proof {
        lemma_find_unit_absent(s, needle.bits());
    }
    None
}

/// Portable length scan: counts units until the first NUL.
///
/// Agrees exactly with the specialized path of [`SpecWide::wcslen`]: both
/// return the index of the first zero unit.
pub fn wcslen_portable<T: Wide>(units: &[T]) -> (r: usize)
    requires
        find_unit(unit_bits(units@), 0) is Some,
    ensures
        Some(r as int) == find_unit(unit_bits(units@), 0),
{
    let ghost s = unit_bits(units@);
    proof {
        lemma_find_unit(s, 0);
    }
    let mut pos: usize = 0;
    loop
        invariant
            s == unit_bits(units@),
            find_unit(s, 0) is Some,
            0 <= pos <= find_unit(s, 0).unwrap(),
            forall|j: int| 0 <= j < pos ==> s[j] != 0,
        decreases s.len() - pos,
    {
        proof {
            lemma_find_unit(s, 0);
        }
        if units[pos].is_nul() {
            proof {
                lemma_find_unit_is_first(s, 0, pos as int);
            }
            return pos;
        }
        pos = pos + 1;
    }
}

/// Relies on `wmemchr::wmemchr`: the index of the first occurrence of the
/// needle in the haystack, or `None` if it is not found.
#[verifier::external_body]
fn wmemchr_fast_u16(needle: u16, haystack: &[u16]) -> (r: Option<usize>)
    ensures
        match r {
            Some(i) => i < haystack@.len() && haystack@[i as int] == needle && forall|j: int|
                0 <= j < i ==> haystack@[j] != needle,
            None => forall|j: int| 0 <= j < haystack@.len() ==> haystack@[j] != needle,
        },
{
    wmemchr::wmemchr(needle, haystack)
}

/// Relies on `wmemchr::wmemchr`: the index of the first occurrence of the
/// needle in the haystack, or `None` if it is not found.
#[verifier::external_body]
fn wmemchr_fast_i16(needle: i16, haystack: &[i16]) -> (r: Option<usize>)
    ensures
        match r {
            Some(i) => i < haystack@.len() && haystack@[i as int] == needle && forall|j: int|
                0 <= j < i ==> haystack@[j] != needle,
            None => forall|j: int| 0 <= j < haystack@.len() ==> haystack@[j] != needle,
        },
{
    wmemchr::wmemchr(needle, haystack)
}

/// Relies on `wmemchr::wmemchr`: the index of the first occurrence of the
/// needle in the haystack, or `None` if it is not found.
#[verifier::external_body]
fn wmemchr_fast_u32(needle: u32, haystack: &[u32]) -> (r: Option<usize>)
    ensures
        match r {
            Some(i) => i < haystack@.len() && haystack@[i as int] == needle && forall|j: int|
                0 <= j < i ==> haystack@[j] != needle,
            None => forall|j: int| 0 <= j < haystack@.len() ==> haystack@[j] != needle,
        },
{
    wmemchr::wmemchr(needle, haystack)
}

/// Relies on `wmemchr::wmemchr`: the index of the first occurrence of the
/// needle in the haystack, or `None` if it is not found.
#[verifier::external_body]
fn wmemchr_fast_i32(needle: i32, haystack: &[i32]) -> (r: Option<usize>)
    ensures
        match r {
            Some(i) => i < haystack@.len() && haystack@[i as int] == needle && forall|j: int|
                0 <= j < i ==> haystack@[j] != needle,
            None => forall|j: int| 0 <= j < haystack@.len() ==> haystack@[j] != needle,
        },
{
    wmemchr::wmemchr(needle, haystack)
}

/// The specialized fast paths for length scan and needle search.
///
/// Every implementation must agree exactly with the portable scans
/// [`wcslen_portable`] and [`wmemchr_portable`]: the contracts of both pin the
/// result to [`find_unit`] on the same input.
pub trait SpecWide: Wide {
    /// The number of units before the first NUL unit.
    fn wcslen(units: &[Self]) -> (r: usize)
        requires
            find_unit(unit_bits(units@), 0) is Some,
        ensures
            Some(r as int) == find_unit(unit_bits(units@), 0),
    ;

    /// The index of the first unit equal to `needle`, if any.
    fn wmemchr(needle: Self, haystack: &[Self]) -> (r: Option<usize>)
        ensures
            opt_index(r) == find_unit(unit_bits(haystack@), needle.bits()),
    ;
}

impl SpecWide for u16 {
    fn wcslen(units: &[u16]) -> (r: usize) {
        let found = wmemchr_fast_u16(0, units);
        proof {
            lemma_unit_search_result::<u16>(0u16, units@, found);
        }
        match found {
            Some(i) => i,
            None => {
                proof {
                    assert(false);
                }
                0
            },
        }
    }

    fn wmemchr(needle: u16, haystack: &[u16]) -> (r: Option<usize>) {
        let r = wmemchr_fast_u16(needle, haystack);
        proof {
            lemma_unit_search_result::<u16>(needle, haystack@, r);
        }
        r
    }
}

impl SpecWide for i16 {
    fn wcslen(units: &[i16]) -> (r: usize) {
        let found = wmemchr_fast_i16(0, units);
        proof {
            lemma_unit_search_result::<i16>(0i16, units@, found);
        }
        match found {
            Some(i) => i,
            None => {
                proof {
                    assert(false);
                }
                0
            },
        }
    }

    fn wmemchr(needle: i16, haystack: &[i16]) -> (r: Option<usize>) {
        let r = wmemchr_fast_i16(needle, haystack);
        proof {
            lemma_unit_search_result::<i16>(needle, haystack@, r);
        }
        r
    }
}

impl SpecWide for u32 {
    fn wcslen(units: &[u32]) -> (r: usize) {
        let found = wmemchr_fast_u32(0, units);
        proof {
            lemma_unit_search_result::<u32>(0u32, units@, found);
        }
        match found {
            Some(i) => i,
            None => {
                proof {
                    assert(false);
                }
                0
            },
        }
    }

    fn wmemchr(needle: u32, haystack: &[u32]) -> (r: Option<usize>) {
        let r = wmemchr_fast_u32(needle, haystack);
        proof {
            lemma_unit_search_result::<u32>(needle, haystack@, r);
        }
        r
    }
}

impl SpecWide for i32 {
    fn wcslen(units: &[i32]) -> (r: usize) {
        let found = wmemchr_fast_i32(0, units);
        proof {
            lemma_unit_search_result::<i32>(0i32, units@, found);
        }
        match found {
            Some(i) => i,
            None => {
                proof {
                    assert(false);
                }
                0
            },
        }
    }

    fn wmemchr(needle: i32, haystack: &[i32]) -> (r: Option<usize>) {
        let r = wmemchr_fast_i32(needle, haystack);
        proof {
            lemma_unit_search_result::<i32>(needle, haystack@, r);
        }
        r
    }
}

/// Turns a first-occurrence result stated over units into one stated over
/// their bit patterns: units are equal exactly when their bit patterns are.
proof fn lemma_unit_search_result<T: Wide>(needle: T, haystack: Seq<T>, r: Option<usize>)
    requires
        match r {
            Some(i) => i < haystack.len() && haystack[i as int] == needle && forall|j: int|
                0 <= j < i ==> haystack[j] != needle,
            None => forall|j: int| 0 <= j < haystack.len() ==> haystack[j] != needle,
        },
    ensures
        opt_index(r) == find_unit(unit_bits(haystack), needle.bits()),
{
    let s = unit_bits(haystack);
    match r {
        Some(i) => {
            assert forall|j: int| 0 <= j < i implies s[j] != needle.bits() by {
                haystack[j].lemma_bits_injective(needle);
            }
            lemma_find_unit_is_first(s, needle.bits(), i as int);
        },
        None => {
            assert forall|j: int| 0 <= j < s.len() implies s[j] != needle.bits() by {
                haystack[j].lemma_bits_injective(needle);
            }
            lemma_find_unit_absent(s, needle.bits());
        },
    }
}

} // verus!
