//! A session volume level, held as the bit pattern of an IEEE-754 single
//! precision number so that its range can be checked with integer logic.
use vstd::prelude::*;

verus! {

/// The bit pattern of the level 1.0.
pub const FULL_VOLUME_BITS: u32 = 0x3f80_0000;

/// The bit pattern of negative zero, which compares equal to 0.0.
pub const NEGATIVE_ZERO_BITS: u32 = 0x8000_0000;

/// Whether `bits` encodes a number `x` with `0.0 <= x <= 1.0`. Non-negative
/// numbers order as their bit patterns, from 0.0 (all bits clear) up to 1.0;
/// every pattern above that with the sign bit clear is larger or not a number,
/// and of the patterns with the sign bit set only negative zero is not below 0.0.
pub open spec fn in_unit_range(bits: u32) -> bool {
    bits <= FULL_VOLUME_BITS || bits == NEGATIVE_ZERO_BITS
}

/// A volume level in `[0.0, 1.0]`.
pub struct Level {
    bits: u32,
}

impl View for Level {
    type V = u32;

    closed spec fn view(&self) -> u32 {
        self.bits
    }
}

impl Level {
    #[verifier::type_invariant]
    closed spec fn inv(&self) -> bool {
        in_unit_range(self.bits)
    }

    /// The level whose bit pattern is `bits`, or `None` when that number lies
    /// outside `[0.0, 1.0]` or is not a number.
    pub fn from_bits(bits: u32) -> (r: Option<Level>)
        ensures
            r is Some <==> in_unit_range(bits),
            r matches Some(l) ==> l@ == bits,
    {
        if bits <= FULL_VOLUME_BITS || bits == NEGATIVE_ZERO_BITS {
            Some(Level { bits })
        } else {
            None
        }
    }

    /// The bit pattern of this level.
    pub fn to_bits(&self) -> (r: u32)
        ensures
            r == self@,
            in_unit_range(r),
    {
        proof {
            use_type_invariant(self);
        }
        self.bits
    }
}

impl Clone for Level {
    fn clone(&self) -> (r: Level)
        ensures
            r@ == self@,
            in_unit_range(r@),
    {
        proof {
            use_type_invariant(self);
        }
        Level { bits: self.bits }
    }
}

} // verus!
