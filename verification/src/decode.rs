//! Decoding wide code units into Unicode scalar values.
//!
//! The specification model works on a sequence of unit bit patterns
//! (`Seq<u32>`). One decode step reads one unit; a 16-bit leading surrogate
//! followed by a trailing surrogate combines into one scalar and consumes two
//! units. A malformed unit yields an error carrying that unit, and decoding
//! resumes at the next unit: errors never poison later steps.

use vstd::prelude::*;

use crate::wide::{unit_bits, Decode, Wide};

verus! {

/// A leading (high) surrogate: the first half of a 16-bit surrogate pair.
pub open spec fn is_lead_surrogate(u: u32) -> bool {
    0xD800 <= u <= 0xDBFF
}

/// A trailing (low) surrogate: the second half of a 16-bit surrogate pair.
pub open spec fn is_trail_surrogate(u: u32) -> bool {
    0xDC00 <= u <= 0xDFFF
}

/// Any surrogate code point.
pub open spec fn is_surrogate(u: u32) -> bool {
    0xD800 <= u <= 0xDFFF
}

/// The scalar value encoded by a surrogate pair.
pub open spec fn combine_surrogates(hi: u32, lo: u32) -> u32
    recommends
        is_lead_surrogate(hi),
        is_trail_surrogate(lo),
{
    (((hi - 0xD800) * 0x400) + (lo - 0xDC00) + 0x10000) as u32
}

/// How many units the first 16-bit decode step consumes: two for a well-formed
/// surrogate pair, one otherwise.
pub open spec fn step_width16(s: Seq<u32>) -> int
    recommends
        s.len() > 0,
{
    if s.len() >= 2 && is_lead_surrogate(s[0]) && is_trail_surrogate(s[1]) {
        2
    } else {
        1
    }
}

/// What the first 16-bit decode step yields: a direct scalar, a combined
/// surrogate pair, or an error carrying the offending unit.
pub open spec fn step_value16(s: Seq<u32>) -> Result<char, u32>
    recommends
        s.len() > 0,
{
    let u = s[0];
    if !is_surrogate(u) {
        Ok(u as char)
    } else if is_trail_surrogate(u) {
        Err(u)
    } else if s.len() >= 2 && is_trail_surrogate(s[1]) {
        Ok(combine_surrogates(u, s[1]) as char)
    } else {
        Err(u)
    }
}

/// What a 32-bit decode step yields: the unit itself if it is a Unicode
/// scalar value, else an error carrying it.
pub open spec fn step_value32(u: u32) -> Result<char, u32> {
    if vstd::utf8::is_scalar(u) {
        Ok(u as char)
    } else {
        Err(u)
    }
}

/// How many units the first decode step consumes, for either width.
pub open spec fn step_width(sixteen: bool, s: Seq<u32>) -> int
    recommends
        s.len() > 0,
{
    if sixteen {
        step_width16(s)
    } else {
        1
    }
}

/// What the first decode step yields, for either width.
pub open spec fn step_value(sixteen: bool, s: Seq<u32>) -> Result<char, u32>
    recommends
        s.len() > 0,
{
    if sixteen {
        step_value16(s)
    } else {
        step_value32(s[0])
    }
}

/// The full sequence of decode results for a run of unit bit patterns.
pub open spec fn decoded(sixteen: bool, s: Seq<u32>) -> Seq<Result<char, u32>>
    decreases s.len(),
{
    if s.len() == 0 {
        Seq::empty()
    } else {
        seq![step_value(sixteen, s)] + decoded(sixteen, s.skip(step_width(sixteen, s)))
    }
}

/// An error raised by one decode step. Carries the offending code unit;
/// decoding resumes at the following unit.
#[derive(Clone, Copy, Debug, PartialEq, Eq)]
pub struct DecodeWideError<T> {
    code: T,
}

impl<T: Decode> DecodeWideError<T> {
    /// The wide character unit that caused this error.
    pub closed spec fn spec_code(self) -> T {
        self.code
    }

    /// Returns the wide character that caused this error.
    pub fn code(&self) -> (r: T)
        ensures
            r == self.spec_code(),
    {
        self.code
    }

    fn new(code: T) -> (r: Self)
        ensures
            r.spec_code() == code,
    {
        DecodeWideError { code }
    }
}

/// A decode result with its error reduced to the offending unit's bit
/// pattern, for comparison with the specification model.
pub open spec fn result_bits<T: Decode>(r: Result<char, DecodeWideError<T>>) -> Result<char, u32> {
    match r {
        Ok(c) => Ok(c),
        Err(e) => Err(e.spec_code().bits()),
    }
}

/// A total view of decode results: every successfully decoded scalar value
/// kept in place, every error replaced by U+FFFD, the replacement character.
pub open spec fn lossy(rs: Seq<Result<char, u32>>) -> Seq<char> {
    rs.map_values(
        |r: Result<char, u32>|
            match r {
                Ok(c) => c,
                Err(_) => '\u{FFFD}',
            },
    )
}

/// Relies on `char::from_u32`: `Some` exactly when the value is a Unicode
/// scalar value (not a surrogate, not beyond U+10FFFF), carrying that value.
pub assume_specification[ char::from_u32 ](i: u32) -> (r: Option<char>)
    ensures
        r is Some <==> vstd::utf8::is_scalar(i),
        r matches Some(c) ==> c as u32 == i,
;

/// An iterator over the scalar values of a run of wide code units.
///
/// The cursor only moves forward. Each call to [`Chars::next`] performs one
/// decode step on the remaining units.
pub struct Chars<'a, T: Wide> {
    units: &'a [T],
    pos: usize,
}

impl<'a, T: Wide> Clone for Chars<'a, T> {
    /// An independent cursor at the same position over the same units.
    fn clone(&self) -> (r: Self)
        ensures
            r == *self,
    {
        proof {
            use_type_invariant(self);
        }
        Chars { units: self.units, pos: self.pos }
    }
}

impl<'a, T: Wide> Chars<'a, T> {
    /// The bit patterns of the units not yet consumed.
    pub closed spec fn remaining(self) -> Seq<u32> {
        unit_bits(self.units@).skip(self.pos as int)
    }

    #[verifier::type_invariant]
    spec fn wf(self) -> bool {
        self.pos <= self.units@.len()
    }

    /// A fresh cursor positioned at the start of `units`.
    pub fn new(units: &'a [T]) -> (r: Self)
        ensures
            r.remaining() == unit_bits(units@),
    {
        let r = Chars { units, pos: 0 };
        proof {
            assert(r.remaining() =~= unit_bits(units@));
        }
        r
    }

    /// Performs one decode step.
    ///
    /// Returns `None` when no units remain, and leaves the cursor unchanged,
    /// so an exhausted cursor keeps returning `None`. Otherwise yields the
    /// step's result and consumes the units of that step: the scalar value of
    /// a direct unit or of a well-formed surrogate pair, or an error carrying
    /// the single offending unit.
    pub fn next(&mut self) -> (r: Option<Result<char, DecodeWideError<T>>>)
        ensures
            r is None <==> old(self).remaining().len() == 0,
            r is None ==> *final(self) == *old(self),
            r matches Some(item) ==> ({
                &&& old(self).remaining().len() > 0
                &&& result_bits(item) == step_value(T::sixteen_bit(), old(self).remaining())
                &&& final(self).remaining() == old(self).remaining().skip(
                    step_width(T::sixteen_bit(), old(self).remaining()),
                )
                &&& decoded(T::sixteen_bit(), old(self).remaining()) == seq![result_bits(item)]
                    + decoded(T::sixteen_bit(), final(self).remaining())
            }),
    {
        proof {
            use_type_invariant(&*self);
        }
        let ghost rem = self.remaining();
        let n = self.units.len();
        if self.pos == n {
            assert(rem.len() == 0);
            return None;
        }
        assert(rem.len() > 0);
        let unit = self.units[self.pos];
        let u = unit.to_bits();
        proof {
            unit.lemma_bits_bounded();
            assert(rem[0] == u);
        }
        self.pos = self.pos + 1;
        let r = if T::is_sixteen() {
            if u < 0xD800 || u > 0xDFFF {
                let c = char_of_scalar(u);
                Some(Ok(c))
            } else if u >= 0xDC00 {
                Some(Err(DecodeWideError::new(unit)))
            } else if self.pos < n {
                let unit2 = self.units[self.pos];
                let u2 = unit2.to_bits();
                proof {
                    assert(rem[1] == u2);
                }
                if 0xDC00 <= u2 && u2 <= 0xDFFF {
                    self.pos = self.pos + 1;
                    let c = char_of_scalar(((u - 0xD800) * 0x400) + (u2 - 0xDC00) + 0x10000);
                    Some(Ok(c))
                } else {
                    Some(Err(DecodeWideError::new(unit)))
                }
            } else {
                Some(Err(DecodeWideError::new(unit)))
            }
        } else {
            match char::from_u32(u) {
                Some(c) => {
                    proof {
                        vstd::utf8::char_u32_cast(c, u);
                    }
                    Some(Ok(c))
                },
                None => Some(Err(DecodeWideError::new(unit))),
            }
        };
        proof {
            let w = step_width(T::sixteen_bit(), rem);
            assert(self.remaining() =~= rem.skip(w));
        }
        r
    }

    /// Bounds on how many decode steps remain, for iteration planning.
    ///
    /// For 16-bit units the remaining steps lie between half the remaining
    /// unit count (all surrogate pairs) and the full count (no pairs); for
    /// 32-bit units each unit is exactly one step.
    pub fn size_hint(&self) -> (r: (usize, Option<usize>))
        ensures
            T::sixteen_bit() ==> r.0 == self.remaining().len() / 2,
            !T::sixteen_bit() ==> r.0 == self.remaining().len(),
            r.1 matches Some(upper) && upper == self.remaining().len(),
    {
        proof {
            use_type_invariant(&*self);
        }
        let rem = self.units.len() - self.pos;
        if T::is_sixteen() {
            (rem / 2, Some(rem))
        } else {
            (rem, Some(rem))
        }
    }

    /// The number of units not yet consumed.
    ///
    /// For 32-bit units this is also the exact number of decode steps that
    /// remain, since every unit is one step.
    pub fn len(&self) -> (r: usize)
        ensures
            r == self.remaining().len(),
    {
        proof {
            use_type_invariant(&*self);
        }
        self.units.len() - self.pos
    }
}

/// Converts a known Unicode scalar value to `char`.
fn char_of_scalar(u: u32) -> (c: char)
    requires
        vstd::utf8::is_scalar(u),
    ensures
        c as u32 == u,
        c == (u as char),
{
    let c = char::from_u32(u).unwrap();
    proof {
        vstd::utf8::char_u32_cast(c, u);
    }
    c
}

} // verus!

verus! {

/// The lossy view of decode results, pointwise: the length is kept, every
/// successfully decoded scalar stays at its position, and every error is
/// replaced by exactly one U+FFFD at its position.
pub proof fn lemma_lossy_pointwise(rs: Seq<Result<char, u32>>)
    ensures
        lossy(rs).len() == rs.len(),
        forall|i: int| 0 <= i < rs.len() ==> lossy(rs)[i] == (match rs[i] {
            Ok(c) => c,
            Err(_) => '\u{FFFD}',
        }),
{
}

/// The UTF-16 encoding of a scalar value: a single unit below U+10000, and a
/// surrogate pair above.
pub open spec fn encode_utf16(c: char) -> Seq<u32> {
    let v = c as u32;
    if v < 0x10000 {
        seq![v]
    } else {
        seq![
            (0xD800 + ((v - 0x10000) / 0x400)) as u32,
            (0xDC00 + ((v - 0x10000) % 0x400)) as u32,
        ]
    }
}

/// Round trip through 16-bit units: encoding any scalar value and decoding it
/// back yields exactly that one scalar, then termination.
pub proof fn lemma_utf16_round_trip(c: char)
    ensures
        decoded(true, encode_utf16(c)) == seq![Ok::<char, u32>(c)],
{
    reveal_with_fuel(decoded, 2);
    vstd::utf8::char_is_scalar(c);
    let v = c as u32;
    let s = encode_utf16(c);
    vstd::utf8::char_u32_cast(c, v);
    if v < 0x10000 {
        assert(!is_surrogate(s[0]));
        assert(step_value16(s) == Ok::<char, u32>(c));
        assert(s.skip(1) =~= Seq::<u32>::empty());
        assert(decoded(true, s) =~= seq![Ok::<char, u32>(c)]);
    } else {
        let d = v - 0x10000;
        let q = d / 0x400;
        let r = d % 0x400;
        vstd::arithmetic::div_mod::lemma_fundamental_div_mod(d, 0x400);
        vstd::arithmetic::div_mod::lemma_mod_bound(d, 0x400);
        assert(0 <= q <= 0x3FF);
        assert(s[0] == 0xD800 + q && s[1] == 0xDC00 + r);
        assert(is_lead_surrogate(s[0]) && is_trail_surrogate(s[1]));
        assert(combine_surrogates(s[0], s[1]) == v);
        assert(step_value16(s) == Ok::<char, u32>(c));
        assert(step_width16(s) == 2);
        assert(s.skip(2) =~= Seq::<u32>::empty());
        assert(decoded(true, s) =~= seq![Ok::<char, u32>(c)]);
    }
}

/// Round trip through 32-bit units: any scalar value is one unit, and decodes
/// back to exactly that one scalar, then termination.
pub proof fn lemma_utf32_round_trip(c: char)
    ensures
        decoded(false, seq![c as u32]) == seq![Ok::<char, u32>(c)],
{
    reveal_with_fuel(decoded, 2);
    vstd::utf8::char_is_scalar(c);
    vstd::utf8::char_u32_cast(c, c as u32);
    let s = seq![c as u32];
    assert(s.skip(1) =~= Seq::<u32>::empty());
    assert(decoded(false, s) =~= seq![Ok::<char, u32>(c)]);
}

/// A leading surrogate immediately followed by a trailing surrogate decodes
/// to exactly one scalar value combining both units.
pub proof fn lemma_surrogate_pair_decodes(hi: u32, lo: u32)
    requires
        is_lead_surrogate(hi),
        is_trail_surrogate(lo),
    ensures
        ({
            let v = combine_surrogates(hi, lo);
            &&& 0x10000 <= v <= 0x10FFFF
            &&& (v as char) as u32 == v
            &&& decoded(true, seq![hi, lo]) == seq![Ok::<char, u32>(v as char)]
        }),
{
    reveal_with_fuel(decoded, 2);
    let v = combine_surrogates(hi, lo);
    let s = seq![hi, lo];
    assert(step_value16(s) == Ok::<char, u32>(v as char));
    assert(step_width16(s) == 2);
    assert(s.skip(2) =~= Seq::<u32>::empty());
    assert(decoded(true, s) =~= seq![Ok::<char, u32>(v as char)]);
}

/// A trailing surrogate where a leading one is expected yields an error
/// carrying that unit and consumes it alone: decoding resumes at the next
/// unit.
pub proof fn lemma_trail_surrogate_is_error(s: Seq<u32>)
    requires
        s.len() > 0,
        is_trail_surrogate(s[0]),
    ensures
        decoded(true, s) == seq![Err::<char, u32>(s[0])] + decoded(true, s.skip(1)),
{
}

/// A leading surrogate not followed by a trailing surrogate — in particular
/// one at the end of the string — yields an error carrying that unit and
/// consumes it alone.
pub proof fn lemma_unpaired_lead_surrogate_is_error(s: Seq<u32>)
    requires
        s.len() > 0,
        is_lead_surrogate(s[0]),
        s.len() == 1 || !is_trail_surrogate(s[1]),
    ensures
        decoded(true, s) == seq![Err::<char, u32>(s[0])] + decoded(true, s.skip(1)),
{
}

/// How many decode steps a run of units yields: for 32-bit units exactly one
/// per unit; for 16-bit units between half the unit count and the full count,
/// matching the bounds that [`Chars::size_hint`] reports.
pub proof fn lemma_decoded_len(sixteen: bool, s: Seq<u32>)
    ensures
        decoded(sixteen, s).len() <= s.len(),
        s.len() / 2 <= decoded(sixteen, s).len(),
        !sixteen ==> decoded(sixteen, s).len() == s.len(),
    decreases s.len(),
{
    if s.len() == 0 {
    } else {
        let w = step_width(sixteen, s);
        lemma_decoded_len(sixteen, s.skip(w));
    }
}

} // verus!
