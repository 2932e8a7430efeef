//! The borrowed NUL-terminated wide string view.

use vstd::prelude::*;

use crate::decode::{decoded, lossy, Chars};
use crate::find::{find_unit, lemma_find_unit, lemma_find_unit_is_first, SpecWide};
use crate::wide::{unit_bits, Wide};

verus! {

/// A run of unit bit patterns ending in exactly one NUL unit: the last unit
/// is zero and no earlier unit is.
pub open spec fn is_nul_terminated(s: Seq<u32>) -> bool {
    &&& s.len() >= 1
    &&& s[s.len() - 1] == 0
    &&& forall|j: int| 0 <= j < s.len() - 1 ==> s[j] != 0
}

/// A run ends in exactly one NUL unit precisely when the first zero unit is
/// the last unit.
pub proof fn lemma_nul_terminated_iff_find(s: Seq<u32>)
    ensures
        is_nul_terminated(s) <==> (s.len() >= 1 && find_unit(s, 0) == Some(s.len() - 1)),
{
    if is_nul_terminated(s) {
        lemma_find_unit_is_first(s, 0, s.len() - 1);
    }
    if s.len() >= 1 && find_unit(s, 0) == Some(s.len() - 1) {
        lemma_find_unit(s, 0);
    }
}

/// An error indicating that a NUL unit was not in the expected position.
///
/// The slice used to create a [`WCStr`] must have one and only one NUL unit,
/// positioned at the end. This error is created by
/// [`WCStr::from_slice_with_nul`]; see its documentation for more.
#[derive(Clone, PartialEq, Eq, Debug)]
pub struct FromSliceWithNulError {
    kind: FromSliceWithNulErrorKind,
}

/// The two ways a slice can fail NUL-termination validation.
#[derive(Clone, PartialEq, Eq, Debug)]
pub enum FromSliceWithNulErrorKind {
    /// A NUL unit sits before the final slice position; carries its index.
    InteriorNul(usize),
    /// No NUL unit exists anywhere in the slice.
    NotNulTerminated,
}

impl FromSliceWithNulError {
    /// Which of the two validation failures this error reports.
    pub closed spec fn spec_kind(self) -> FromSliceWithNulErrorKind {
        self.kind
    }

    /// An error for a NUL unit found at interior position `pos`.
    pub fn interior_nul(pos: usize) -> (r: FromSliceWithNulError)
        ensures
            r.spec_kind() == FromSliceWithNulErrorKind::InteriorNul(pos),
    {
        FromSliceWithNulError { kind: FromSliceWithNulErrorKind::InteriorNul(pos) }
    }

    /// An error for a slice with no NUL unit at all.
    pub fn not_nul_terminated() -> (r: FromSliceWithNulError)
        ensures
            r.spec_kind() == FromSliceWithNulErrorKind::NotNulTerminated,
    {
        FromSliceWithNulError { kind: FromSliceWithNulErrorKind::NotNulTerminated }
    }

    /// Which of the two validation failures this error reports.
    pub fn kind(&self) -> (r: &FromSliceWithNulErrorKind)
        ensures
            *r == self.spec_kind(),
    {
        &self.kind
    }
}

/// A C-style wide character string: a borrowed view of a contiguous run of
/// code units terminated by exactly one NUL unit at its end.
///
/// The view never owns or mutates the units; it stores no length and computes
/// it on demand by scanning for the terminator.
pub struct WCStr<'a, T: Wide> {
    units: &'a [T],
}

impl<'a, T: Wide> WCStr<'a, T> {
    /// The borrowed units, including the trailing NUL.
    pub closed spec fn units_with_nul(self) -> Seq<T> {
        self.units@
    }

    /// The bit patterns of the borrowed units, including the trailing NUL.
    pub open spec fn bits_with_nul(self) -> Seq<u32> {
        unit_bits(self.units_with_nul())
    }

    /// The bit patterns of the string's units, without the terminator.
    pub open spec fn content(self) -> Seq<u32> {
        self.bits_with_nul().take(self.bits_with_nul().len() - 1)
    }

    #[verifier::type_invariant]
    spec fn wf(self) -> bool {
        is_nul_terminated(self.bits_with_nul())
    }

    /// Creates a `WCStr` from a slice of wide characters with a
    /// NUL-terminator, without scanning it.
    ///
    /// The caller guarantees that `slice` is NUL-terminated and contains no
    /// interior NUL characters.
    pub fn from_slice_with_nul_unchecked(slice: &'a [T]) -> (r: WCStr<'a, T>)
        requires
            is_nul_terminated(unit_bits(slice@)),
        ensures
            r.units_with_nul() == slice@,
    {
        WCStr { units: slice }
    }
}

impl<'a, T: SpecWide> WCStr<'a, T> {
    /// Creates a `WCStr` from a slice of wide characters.
    ///
    /// The slice is scanned for its first NUL unit. Succeeds exactly when
    /// that unit is the last element; fails with `InteriorNul` when a NUL
    /// unit sits earlier, and with `NotNulTerminated` when there is none.
    pub fn from_slice_with_nul(slice: &'a [T]) -> (r: Result<
        WCStr<'a, T>,
        FromSliceWithNulError,
    >)
        ensures
            r is Ok <==> is_nul_terminated(unit_bits(slice@)),
            r matches Ok(w) ==> w.units_with_nul() == slice@,
            r matches Err(e) ==> match e.spec_kind() {
                FromSliceWithNulErrorKind::InteriorNul(i) => find_unit(unit_bits(slice@), 0)
                    == Some(i as int) && i + 1 < slice@.len(),
                FromSliceWithNulErrorKind::NotNulTerminated => find_unit(unit_bits(slice@), 0)
                    is None,
            },
    {
        let ghost s = unit_bits(slice@);
        proof {
            lemma_nul_terminated_iff_find(s);
            lemma_find_unit(s, 0);
        }
        let n = slice.len();
        let nul_pos = T::wmemchr(T::nul(), slice);
        if let Some(nul_pos) = nul_pos {
            assert(nul_pos < n);
            if nul_pos + 1 != n {
                return Err(FromSliceWithNulError::interior_nul(nul_pos));
            }
            Ok(WCStr::from_slice_with_nul_unchecked(slice))
        } else {
            Err(FromSliceWithNulError::not_nul_terminated())
        }
    }

    /// Returns the length of the wide string: the number of non-NUL units
    /// that precede the NUL-terminator.
    ///
    /// Computed by scanning for the terminator on each call; the view stores
    /// no length field.
    pub fn len(&self) -> (r: usize)
        ensures
            r == self.content().len(),
            r + 1 == self.units_with_nul().len(),
    {
        proof {
            use_type_invariant(self);
            lemma_nul_terminated_iff_find(self.bits_with_nul());
        }
        T::wcslen(self.units)
    }

    /// Converts the `WCStr` to a slice of wide characters, without the
    /// trailing NUL-terminator.
    pub fn to_slice(&self) -> (r: &[T])
        ensures
            r@ == self.units_with_nul().take(self.units_with_nul().len() - 1),
            unit_bits(r@) == self.content(),
    {
        proof {
            use_type_invariant(self);
        }
        let len = self.len();
        let r = &self.units[0..len];
        proof {
            assert(r@ =~= self.units_with_nul().take(self.units_with_nul().len() - 1));
            assert(unit_bits(r@) =~= self.content());
        }
        r
    }

    /// Converts the `WCStr` to a slice of wide characters containing the
    /// trailing NUL-terminator.
    pub fn to_slice_with_nul(&self) -> (r: &[T])
        ensures
            r@ == self.units_with_nul(),
            unit_bits(r@) == self.bits_with_nul(),
    {
        self.units
    }

    /// Returns an iterator over the scalar values of the wide string.
    ///
    /// The cursor starts at the view's beginning, independent of earlier
    /// calls to [`WCStr::len`] or the slice accessors.
    pub fn chars(&self) -> (r: Chars<'_, T>)
        ensures
            r.remaining() == self.content(),
    {
        Chars::new(self.to_slice())
    }

    /// Decodes the full wide string into an owned `String`, substituting
    /// U+FFFD, the replacement character, for every decode error.
    ///
    /// Every successfully decoded scalar value is preserved in order and
    /// position; each error contributes exactly one replacement character.
    pub fn to_string_lossy(&self) -> (r: String)
        ensures
            r@ == lossy(decoded(T::sixteen_bit(), self.content())),
    {
        let ghost all = self.content();
        let mut out = String::new();
        let mut it = self.chars();
        proof {
            assert(out@ + lossy(decoded(T::sixteen_bit(), it.remaining())) =~= lossy(
                decoded(T::sixteen_bit(), all),
            ));
        }
        loop
            invariant
                out@ + lossy(decoded(T::sixteen_bit(), it.remaining())) == lossy(
                    decoded(T::sixteen_bit(), all),
                ),
            ensures
                out@ == lossy(decoded(T::sixteen_bit(), all)),
            decreases it.remaining().len(),
        {
            let ghost rem0 = it.remaining();
            match it.next() {
                None => {
                    proof {
                        assert(lossy(decoded(T::sixteen_bit(), it.remaining())) =~= Seq::<
                            char,
                        >::empty());
                        assert(out@ + lossy(decoded(T::sixteen_bit(), it.remaining())) =~= out@);
                    }
                    break ;
                },
                Some(res) => {
                    match res {
                        Ok(c) => out.push(c),
                        Err(_) => out.push('\u{FFFD}'),
                    }
                    proof {
                        assert(lossy(decoded(T::sixteen_bit(), rem0)) =~= lossy(
                            seq![crate::decode::result_bits(res)],
                        ) + lossy(decoded(T::sixteen_bit(), it.remaining())));
                        assert(out@ + lossy(decoded(T::sixteen_bit(), it.remaining())) =~= lossy(
                            decoded(T::sixteen_bit(), all),
                        ));
                    }
                },
            }
        }
        out
    }
}

/// Relies on `String::push`: appends the given character to the end of the
/// string.
pub assume_specification[ String::push ](s: &mut String, ch: char)
    ensures
        final(s)@ == old(s)@.push(ch),
;

} // verus!
