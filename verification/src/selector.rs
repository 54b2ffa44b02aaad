//! Segment selectors.
//!
//! A selector packs a descriptor-table index (bits 3 and up), the local
//! table flag (bit 2), and the requested privilege level (bits 0 and 1)
//! into 16 bits.

use vstd::prelude::*;

use crate::bits::{bit16, bit16_read, bit16_with, bit16_write};
use crate::privilege::{ProtectionRing, ring_bits};

verus! {

/// The ring encoded in the low two bits of `v`.
pub open spec fn ring_of_low_bits(v: u16) -> ProtectionRing {
    if v & 3 == 0 {
        ProtectionRing::Zero
    } else if v & 3 == 1 {
        ProtectionRing::One
    } else if v & 3 == 2 {
        ProtectionRing::Two
    } else {
        ProtectionRing::Three
    }
}

/// A 16-bit segment selector.
#[derive(Clone, Copy, Debug, PartialEq, Eq, Structural)]
pub struct Selector {
    value: u16,
}

impl View for Selector {
    type V = u16;

    closed spec fn view(&self) -> u16 {
        self.value
    }
}

impl Default for Selector {
    /// The null selector.
    fn default() -> (r: Self)
        ensures
            r@ == 0,
    {
        Selector { value: 0 }
    }
}

impl Selector {
    /// A selector with the given index, table flag and privilege level.
    /// Indices at or above 8192 do not fit and lose their high bits.
    pub fn new(index: u16, is_local: bool, privilege_level: ProtectionRing) -> (r: Self)
        ensures
            r@ == ((index << 3) | (if is_local {
                4u16
            } else {
                0u16
            }) | (ring_bits(privilege_level) as u16)),
    {
        let mut value = Selector { value: 0 };
        value.set_index(index);
        value.set_is_local(is_local);
        value.set_privilege_level(privilege_level);
        proof {
            let rb = ring_bits(privilege_level) as u16;
            let l = is_local;
            assert(((bit16_with((0u16 & 7) | (index << 3), 2, l) & !3u16) | rb) == ((index << 3) | (
            if l {
                4u16
            } else {
                0u16
            }) | rb)) by (bit_vector)
                requires
                    rb < 4,
            ;
        }
        value
    }

    /// The raw 16-bit value.
    pub fn as_u16(&self) -> (r: u16)
        ensures
            r == self@,
    {
        self.value
    }

    /// A selector with exactly the given raw bits.
    pub fn from_u16(value: u16) -> (r: Self)
        ensures
            r@ == value,
    {
        Selector { value }
    }

    /// The descriptor-table index, bits 3 and up.
    pub fn index(self) -> (r: u16)
        ensures
            r == self@ >> 3,
    {
        self.value >> 3
    }

    /// Writes the index into bits 3 and up, keeping the low three bits.
    pub fn set_index(&mut self, index: u16)
        ensures
            final(self)@ == (old(self)@ & 7) | (index << 3),
    {
        self.value = (self.value & 7) | (index << 3);
    }

    /// Bit 2: whether the selector refers to the local descriptor table.
    pub fn is_local(self) -> (r: bool)
        ensures
            r == bit16(self@, 2),
    {
        bit16_read(self.value, 2)
    }

    /// Writes bit 2.
    pub fn set_is_local(&mut self, value: bool)
        ensures
            final(self)@ == bit16_with(old(self)@, 2, value),
    {
        self.value = bit16_write(self.value, 2, value);
    }

    /// The requested privilege level, bits 0 and 1.
    pub fn privilege_level(self) -> (r: ProtectionRing)
        ensures
            r == ring_of_low_bits(self@),
    {
        let low = self.value & 3;
        if low == 0 {
            ProtectionRing::Zero
        } else if low == 1 {
            ProtectionRing::One
        } else if low == 2 {
            ProtectionRing::Two
        } else {
            ProtectionRing::Three
        }
    }

    /// Writes the privilege level into bits 0 and 1.
    pub fn set_privilege_level(&mut self, privilege: ProtectionRing)
        ensures
            final(self)@ == (old(self)@ & !3u16) | (ring_bits(privilege) as u16),
    {
        self.value = (self.value & !3u16) | (privilege.as_u8() as u16);
    }
}

/// A selector built from an index below 8192 gives each field back
/// unchanged.
pub proof fn lemma_selector_round_trip(index: u16, is_local: bool, privilege: ProtectionRing)
    requires
        index < 8192,
    ensures
        ({
            let v = (index << 3) | (if is_local {
                4u16
            } else {
                0u16
            }) | (ring_bits(privilege) as u16);
            v >> 3 == index && bit16(v, 2) == is_local && ring_of_low_bits(v) == privilege
        }),
{
    let rb = ring_bits(privilege) as u16;
    let l = is_local;
    let v = (index << 3) | (if l {
        4u16
    } else {
        0u16
    }) | rb;
    assert(v >> 3 == index && bit16(v, 2) == l && v & 3 == rb) by (bit_vector)
        requires
            index < 8192,
            rb < 4,
            v == (index << 3) | (if l {
                4u16
            } else {
                0u16
            }) | rb,
    ;
}

} // verus!
