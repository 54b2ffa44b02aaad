//! The x86 privilege rings.

use vstd::prelude::*;

verus! {

/// One of the four protection rings, ring 0 being the most privileged.
#[derive(Clone, Copy, Debug, PartialEq, Eq, Structural)]
pub enum ProtectionRing {
    Zero,
    One,
    Two,
    Three,
}

/// The two-bit encoding of a ring.
pub open spec fn ring_bits(r: ProtectionRing) -> u8 {
    match r {
        ProtectionRing::Zero => 0,
        ProtectionRing::One => 1,
        ProtectionRing::Two => 2,
        ProtectionRing::Three => 3,
    }
}

impl ProtectionRing {
    /// The two-bit encoding of the ring.
    pub fn as_u8(self) -> (r: u8)
        ensures
            r == ring_bits(self),
            r < 4,
    {
        match self {
            ProtectionRing::Zero => 0,
            ProtectionRing::One => 1,
            ProtectionRing::Two => 2,
            ProtectionRing::Three => 3,
        }
    }

    /// The ring encoded by `value`, rejected when `value` is not a
    /// two-bit encoding.
    pub fn try_from(value: u8) -> (r: Result<Self, ()>)
        ensures
            match r {
                Ok(p) => ring_bits(p) == value,
                Err(()) => value >= 4,
            },
    {
        match value {
            0 => Ok(ProtectionRing::Zero),
            1 => Ok(ProtectionRing::One),
            2 => Ok(ProtectionRing::Two),
            3 => Ok(ProtectionRing::Three),
            _ => Err(()),
        }
    }
}

} // verus!
