//! 16-byte descriptors of the interrupt descriptor table.
//!
//! The descriptor is four 32-bit words.  The handler offset is split over
//! the low word (bits 0..16), the middle word (bits 16..32) and the whole
//! upper word; the middle word also carries the segment selector's slot,
//! the IST index (bits 0..3), the descriptor kind (bits 8..12), the privilege
//! level (bits 13..15) and the present flag (bit 15).

use vstd::prelude::*;

use crate::bits::{bit32, bit32_read, bit32_write};
use crate::privilege::{ProtectionRing, ring_bits};
use crate::selector::Selector;

verus! {

/// The descriptor kind: an interrupt descriptor clears the interrupt
/// flag on entry, a trap descriptor leaves it as it was.
#[derive(Clone, Copy, Debug, PartialEq, Eq, Structural)]
pub enum DescriptorType {
    Interrupt,
    Trap,
}

/// The encoding of the descriptor kind inside the middle word.
pub open spec fn descriptor_type_bits(t: DescriptorType) -> u32 {
    match t {
        DescriptorType::Interrupt => 0xe00,
        DescriptorType::Trap => 0xf00,
    }
}

impl DescriptorType {
    /// The encoding of the descriptor kind inside the middle word.
    pub fn as_u32(self) -> (r: u32)
        ensures
            r == descriptor_type_bits(self),
    {
        match self {
            DescriptorType::Interrupt => 0xe00,
            DescriptorType::Trap => 0xf00,
        }
    }

    /// The descriptor kind encoded by `value`, rejected when it is
    /// neither encoding.
    pub fn try_from(value: u32) -> (r: Result<Self, ()>)
        ensures
            match r {
                Ok(t) => descriptor_type_bits(t) == value,
                Err(()) => value != 0xe00 && value != 0xf00,
            },
    {
        if value == 0xe00 {
            Ok(DescriptorType::Interrupt)
        } else if value == 0xf00 {
            Ok(DescriptorType::Trap)
        } else {
            Err(())
        }
    }
}

/// An interrupt-stack-table slot, 1 through 7, encoded as 0 through 6.
#[derive(Clone, Copy, Debug, PartialEq, Eq, Structural)]
pub enum IstIndex {
    One,
    Two,
    Three,
    Four,
    Five,
    Six,
    Seven,
}

/// The three-bit encoding of an IST index.
pub open spec fn ist_bits(i: IstIndex) -> u8 {
    match i {
        IstIndex::One => 0,
        IstIndex::Two => 1,
        IstIndex::Three => 2,
        IstIndex::Four => 3,
        IstIndex::Five => 4,
        IstIndex::Six => 5,
        IstIndex::Seven => 6,
    }
}

impl IstIndex {
    /// The three-bit encoding of the slot.
    pub fn as_u8(self) -> (r: u8)
        ensures
            r == ist_bits(self),
            r < 7,
    {
        match self {
            IstIndex::One => 0,
            IstIndex::Two => 1,
            IstIndex::Three => 2,
            IstIndex::Four => 3,
            IstIndex::Five => 4,
            IstIndex::Six => 5,
            IstIndex::Seven => 6,
        }
    }

    /// The slot encoded by `value`, rejected when `value` is 7 or more.
    pub fn try_from(value: u8) -> (r: Result<Self, ()>)
        ensures
            match r {
                Ok(i) => ist_bits(i) == value,
                Err(()) => value >= 7,
            },
    {
        match value {
            0 => Ok(IstIndex::One),
            1 => Ok(IstIndex::Two),
            2 => Ok(IstIndex::Three),
            3 => Ok(IstIndex::Four),
            4 => Ok(IstIndex::Five),
            5 => Ok(IstIndex::Six),
            6 => Ok(IstIndex::Seven),
            _ => Err(()),
        }
    }
}

/// One 16-byte descriptor of the interrupt descriptor table.
#[derive(Clone, Copy, Debug, PartialEq, Eq, Structural)]
pub struct Descriptor {
    lower: u32,
    middle: u32,
    upper: u32,
    reserved: u32,
}

impl Descriptor {
    /// The low word: offset bits 0..16 and the segment selector.
    pub closed spec fn lower_s(self) -> u32 {
        self.lower
    }

    /// The middle word: IST index, descriptor kind, privilege, the
    /// present flag, and offset bits 16..32.
    pub closed spec fn middle_s(self) -> u32 {
        self.middle
    }

    /// The upper word: offset bits 32..64.
    pub closed spec fn upper_s(self) -> u32 {
        self.upper
    }

    /// The reserved word.
    pub closed spec fn reserved_s(self) -> u32 {
        self.reserved
    }

    /// The all-clear descriptor.
    pub fn new() -> (r: Self)
        ensures
            r.lower_s() == 0 && r.middle_s() == 0 && r.upper_s() == 0 && r.reserved_s() == 0,
    {
        Descriptor { lower: 0, middle: 0, upper: 0, reserved: 0 }
    }

    /// Writes the 64-bit handler offset across the three offset fields.
    pub fn set_offset(&mut self, offset: u64)
        ensures
            final(self).lower_s() == (old(self).lower_s() & !0xffffu32) | ((offset
                & 0xffff) as u32),
            final(self).middle_s() == (old(self).middle_s() & 0xffff) | ((offset
                & !0xffffu64) as u32),
            final(self).upper_s() == (offset >> 32) as u32,
            final(self).reserved_s() == old(self).reserved_s(),
    {
        self.lower = (self.lower & !0xffffu32) | ((offset & 0xffff) as u32);
        self.middle = (self.middle & 0xffff) | ((offset & !0xffffu64) as u32);
        self.upper = (offset >> 32) as u32;
    }

    /// The 64-bit handler offset, joined back from its three fields.
    pub fn offset(self) -> (r: u64)
        ensures
            r == ((self.lower_s() as u64) & 0xffff) | ((self.middle_s() as u64) & !0xffffu64) | ((
            self.upper_s() as u64) << 32),
    {
        ((self.lower as u64) & 0xffff) | ((self.middle as u64) & !0xffffu64) | ((self.upper
            as u64) << 32)
    }

    /// Writes the segment selector into the high half of the low word.
    pub fn set_segment_selector(&mut self, selector: Selector)
        ensures
            final(self).lower_s() == (old(self).lower_s() & 0xffff) | ((selector@ as u32) << 16),
            final(self).middle_s() == old(self).middle_s(),
            final(self).upper_s() == old(self).upper_s(),
            final(self).reserved_s() == old(self).reserved_s(),
    {
        self.lower = (self.lower & 0xffff) | ((selector.as_u16() as u32) << 16);
    }

    /// The segment selector from the high half of the low word.
    pub fn segment_selector(self) -> (r: Selector)
        ensures
            r@ == (self.lower_s() >> 16) as u16,
    {
        Selector::from_u16((self.lower >> 16) as u16)
    }

    /// The privilege level, bits 13 and 14 of the middle word.
    pub fn privilege_level(self) -> (r: ProtectionRing)
        ensures
            ring_bits(r) as u32 == (self.middle_s() & 0x6000) >> 13,
    {
        let bits = (self.middle & 0x6000) >> 13;
        proof {
            let m = self.middle_s();
            assert((m & 0x6000) >> 13 < 4) by (bit_vector);
        }
        if bits == 0 {
            ProtectionRing::Zero
        } else if bits == 1 {
            ProtectionRing::One
        } else if bits == 2 {
            ProtectionRing::Two
        } else {
            ProtectionRing::Three
        }
    }

    /// Writes the privilege level into bits 13 and 14 of the middle
    /// word.
    pub fn set_privilege_level(&mut self, privilege: ProtectionRing)
        ensures
            final(self).middle_s() == (old(self).middle_s() & !0x6000u32) | ((ring_bits(
                privilege,
            ) as u32) << 13),
            final(self).lower_s() == old(self).lower_s(),
            final(self).upper_s() == old(self).upper_s(),
            final(self).reserved_s() == old(self).reserved_s(),
    {
        self.middle = (self.middle & !0x6000u32) | ((privilege.as_u8() as u32) << 13);
    }

    /// The IST slot, bits 0..3 of the middle word.  A descriptor built
    /// through `set_ist` never holds the unused encoding 7.
    pub fn ist(self) -> (r: IstIndex)
        requires
            self.middle_s() & 7 != 7,
        ensures
            ist_bits(r) as u32 == self.middle_s() & 7,
    {
        let bits = self.middle & 7;
        proof {
            let m = self.middle_s();
            assert(m & 7 < 8) by (bit_vector);
        }
        if bits == 0 {
            IstIndex::One
        } else if bits == 1 {
            IstIndex::Two
        } else if bits == 2 {
            IstIndex::Three
        } else if bits == 3 {
            IstIndex::Four
        } else if bits == 4 {
            IstIndex::Five
        } else if bits == 5 {
            IstIndex::Six
        } else {
            IstIndex::Seven
        }
    }

    /// Writes the IST slot into bits 0..3 of the middle word.
    pub fn set_ist(&mut self, ist: IstIndex)
        ensures
            final(self).middle_s() == (old(self).middle_s() & !7u32) | (ist_bits(ist) as u32),
            final(self).lower_s() == old(self).lower_s(),
            final(self).upper_s() == old(self).upper_s(),
            final(self).reserved_s() == old(self).reserved_s(),
    {
        self.middle = (self.middle & !7u32) | (ist.as_u8() as u32);
    }

    /// The descriptor kind, bits 8..12 of the middle word.  Meaningful
    /// only when the kind field holds one of the two encodings.
    pub fn descriptor_type(self) -> (r: DescriptorType)
        requires
            self.middle_s() & 0xf00 == 0xe00 || self.middle_s() & 0xf00 == 0xf00,
        ensures
            descriptor_type_bits(r) == self.middle_s() & 0xf00,
    {
        let bits = self.middle & 0xf00;
        if bits == 0xe00 {
            DescriptorType::Interrupt
        } else {
            DescriptorType::Trap
        }
    }

    /// Writes the descriptor kind into bits 8..12 of the middle word.
    pub fn set_descriptor_type(&mut self, descriptor_type: DescriptorType)
        ensures
            final(self).middle_s() == (old(self).middle_s() & !0xf00u32) | descriptor_type_bits(
                descriptor_type,
            ),
            final(self).lower_s() == old(self).lower_s(),
            final(self).upper_s() == old(self).upper_s(),
            final(self).reserved_s() == old(self).reserved_s(),
    {
        self.middle = (self.middle & !0xf00u32) | descriptor_type.as_u32();
    }

    /// Bit 15 of the middle word: whether the descriptor is present.
    pub fn is_present(self) -> (r: bool)
        ensures
            r == bit32(self.middle_s(), 15),
    {
        bit32_read(self.middle, 15)
    }

    /// Writes bit 15 of the middle word.
    pub fn set_is_present(&mut self, value: bool)
        ensures
            final(self).middle_s() == crate::bits::bit32_with(old(self).middle_s(), 15, value),
            final(self).lower_s() == old(self).lower_s(),
            final(self).upper_s() == old(self).upper_s(),
            final(self).reserved_s() == old(self).reserved_s(),
    {
        self.middle = bit32_write(self.middle, 15, value);
    }

    /// The descriptor with exactly the given 128 raw bits, low word
    /// first.
    pub fn from_u128(value: u128) -> (r: Self)
        ensures
            r.lower_s() == value as u32,
            r.middle_s() == (value >> 32) as u32,
            r.upper_s() == (value >> 64) as u32,
            r.reserved_s() == (value >> 96) as u32,
    {
        Descriptor {
            lower: value as u32,
            middle: (value >> 32) as u32,
            upper: (value >> 64) as u32,
            reserved: (value >> 96) as u32,
        }
    }

    /// The 128 raw bits of the descriptor, low word first.
    pub fn as_u128(self) -> (r: u128)
        ensures
            r == (self.lower_s() as u128) | ((self.middle_s() as u128) << 32) | ((
            self.upper_s() as u128) << 64) | ((self.reserved_s() as u128) << 96),
    {
        (self.lower as u128) | ((self.middle as u128) << 32) | ((self.upper as u128) << 64) | ((
        self.reserved as u128) << 96)
    }
}

/// An offset written with `set_offset` reads back unchanged through
/// `offset`, whatever the descriptor held before.
pub proof fn lemma_offset_round_trip(offset: u64, lower: u32, middle: u32)
    by (bit_vector)
    ensures
        ((((lower & !0xffffu32) | ((offset & 0xffff) as u32)) as u64) & 0xffff) | ((((middle
            & 0xffff) | ((offset & !0xffffu64) as u32)) as u64) & !0xffffu64) | ((((offset
            >> 32) as u32) as u64) << 32) == offset,
{
}

/// The four words written by `from_u128` read back as the same 128 bits
/// through `as_u128`.
pub proof fn lemma_u128_round_trip(value: u128)
    by (bit_vector)
    ensures
        ((value as u32) as u128) | ((((value >> 32) as u32) as u128) << 32) | ((((value
            >> 64) as u32) as u128) << 64) | ((((value >> 96) as u32) as u128) << 96) == value,
{
}

} // verus!
