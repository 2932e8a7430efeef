//! The wide code-unit traits and their four instantiations.
//!
//! A wide string stores text as 16-bit or 32-bit code units. Each width comes
//! in a signed and an unsigned flavour, to match foreign ABIs whose
//! wide-character type is signed; signedness is cosmetic, so every unit is
//! modelled in specifications by its unsigned bit pattern, a `u32`.

use vstd::prelude::*;

verus! {

/// The unsigned bit patterns of a sequence of code units.
pub open spec fn unit_bits<T: Decode>(s: Seq<T>) -> Seq<u32> {
    s.map_values(|t: T| t.bits())
}

/// The marker supertrait of the code-unit traits, implemented by the four
/// fixed-width integer unit types.
pub trait Sealed {

}

/// A code unit that the decoder understands.
///
/// `bits` is the unit's unsigned bit pattern; `sixteen_bit` tells the decoder
/// whether units of this type are 16 bits wide (surrogate pairs possible) or
/// 32 bits wide (each unit decodes alone).
pub trait Decode: Sealed + Copy + Sized {
    /// The unit's value as an unsigned bit pattern.
    spec fn bits(self) -> u32;

    /// Whether this unit type is 16 bits wide.
    spec fn sixteen_bit() -> bool;

    /// A 16-bit unit's bit pattern fits in 16 bits.
    proof fn lemma_bits_bounded(self)
        ensures
            Self::sixteen_bit() ==> self.bits() < 0x10000,
    ;

    /// Two units with the same bit pattern are the same unit.
    proof fn lemma_bits_injective(self, other: Self)
        ensures
            self.bits() == other.bits() ==> self == other,
    ;

    /// The width of this unit type, as a run-time value.
    fn is_sixteen() -> (b: bool)
        ensures
            b == Self::sixteen_bit(),
    ;

    /// The unit's unsigned bit pattern, as a run-time value.
    fn to_bits(self) -> (r: u32)
        ensures
            r == self.bits(),
    ;
}

/// A wide character type: a code unit with a distinguished NUL value.
pub trait Wide: Decode {
    /// The NUL control character.
    fn nul() -> (r: Self)
        ensures
            r.bits() == 0,
    ;

    /// Whether this unit is the NUL control character.
    fn is_nul(self) -> (b: bool)
        ensures
            b == (self.bits() == 0),
    ;

    /// Whether two units hold the same value.
    fn eq_unit(self, other: Self) -> (b: bool)
        ensures
            b == (self.bits() == other.bits()),
    ;
}

impl Sealed for u16 {

}

impl Decode for u16 {
    open spec fn bits(self) -> u32 {
        self as u32
    }

    open spec fn sixteen_bit() -> bool {
        true
    }

    proof fn lemma_bits_bounded(self) {
    }

    proof fn lemma_bits_injective(self, other: Self) {
    }

    fn is_sixteen() -> bool {
        true
    }

    fn to_bits(self) -> u32 {
        self as u32
    }
}

impl Wide for u16 {
    fn nul() -> u16 {
        0
    }

    fn is_nul(self) -> bool {
        self == 0
    }

    fn eq_unit(self, other: u16) -> bool {
        self == other
    }
}

impl Sealed for i16 {

}

impl Decode for i16 {
    open spec fn bits(self) -> u32 {
        (self as u16) as u32
    }

    open spec fn sixteen_bit() -> bool {
        true
    }

    proof fn lemma_bits_bounded(self) {
    }

    proof fn lemma_bits_injective(self, other: Self) {
        let x = self;
        let y = other;
        assert((x as u16) == (y as u16) ==> x == y) by (bit_vector);
    }

    fn is_sixteen() -> bool {
        true
    }

    fn to_bits(self) -> u32 {
        (#[verifier::truncate] (self as u16)) as u32
    }
}

impl Wide for i16 {
    fn nul() -> i16 {
        0
    }

    fn is_nul(self) -> (b: bool) {
        proof {
            let x = self;
            assert(((x as u16) as u32 == 0) == (x == 0)) by (bit_vector);
        }
        self == 0
    }

    fn eq_unit(self, other: i16) -> (b: bool) {
        proof {
            self.lemma_bits_injective(other);
        }
        self == other
    }
}

impl Sealed for u32 {

}

impl Decode for u32 {
    open spec fn bits(self) -> u32 {
        self
    }

    open spec fn sixteen_bit() -> bool {
        false
    }

    proof fn lemma_bits_bounded(self) {
    }

    proof fn lemma_bits_injective(self, other: Self) {
    }

    fn is_sixteen() -> bool {
        false
    }

    fn to_bits(self) -> u32 {
        self
    }
}

impl Wide for u32 {
    fn nul() -> u32 {
        0
    }

    fn is_nul(self) -> bool {
        self == 0
    }

    fn eq_unit(self, other: u32) -> bool {
        self == other
    }
}

impl Sealed for i32 {

}

impl Decode for i32 {
    open spec fn bits(self) -> u32 {
        self as u32
    }

    open spec fn sixteen_bit() -> bool {
        false
    }

    proof fn lemma_bits_bounded(self) {
    }

    proof fn lemma_bits_injective(self, other: Self) {
        let x = self;
        let y = other;
        assert((x as u32) == (y as u32) ==> x == y) by (bit_vector);
    }

    fn is_sixteen() -> bool {
        false
    }

    fn to_bits(self) -> u32 {
        #[verifier::truncate] (self as u32)
    }
}

impl Wide for i32 {
    fn nul() -> i32 {
        0
    }

    fn is_nul(self) -> (b: bool) {
        proof {
            let x = self;
            assert((x as u32 == 0) == (x == 0)) by (bit_vector);
        }
        self == 0
    }

    fn eq_unit(self, other: i32) -> (b: bool) {
        proof {
            self.lemma_bits_injective(other);
        }
        self == other
    }
}

} // verus!
