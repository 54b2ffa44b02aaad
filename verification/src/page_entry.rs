//! The bit-packed 8-byte page-table entry.
//!
//! Bit offsets follow the x86_64 specification: 0 present, 1 writable,
//! 2 user access, 3 write-through, 4 cache disable, 5 accessed, 6 dirty,
//! 7 references-page (the huge-page bit at PD and PDPT level), 8 global,
//! and the physical-address bits from 12 up to the 52-bit width.

use vstd::prelude::*;

use crate::bits::{bit64, bit64_read, bit64_with, bit64_write};

verus! {

/// The mask of the physical-address bits of an entry, bits [12, 52).
pub const ENTRY_ADDRESS_MASK: u64 = 0xf_ffff_ffff_f000;

/// Bit 0 of an entry: whether it takes part in translation.
pub open spec fn entry_present(e: u64) -> bool {
    e & 1 == 1
}

/// Bit 7 of an entry: at an intermediate level, whether it maps a huge
/// page rather than pointing at a child table.
pub open spec fn entry_huge(e: u64) -> bool {
    e & 0x80 == 0x80
}

/// The physical address stored in an entry, bits [12, 52).
pub open spec fn entry_addr(e: u64) -> u64 {
    e & 0xf_ffff_ffff_f000
}

/// The absent entry takes no part in translation.
pub proof fn lemma_zero_entry()
    by (bit_vector)
    ensures
        !entry_present(0u64),
        !entry_huge(0u64),
        entry_addr(0u64) == 0,
{
}

/// The address bits of an entry always name an aligned 52-bit address.
pub proof fn lemma_entry_fields(e: u64)
    by (bit_vector)
    ensures
        entry_addr(e) % 4096 == 0,
        entry_addr(e) < 0x10_0000_0000_0000,
        entry_addr(e) == e & 0xf_ffff_ffff_f000,
{
}

/// An entry built from an aligned 52-bit address with the present and
/// writable bits reads back as a present, non-huge entry holding exactly
/// that address.
pub proof fn lemma_entry_build(pa: u64)
    by (bit_vector)
    requires
        pa % 4096 == 0,
        pa < 0x10_0000_0000_0000,
    ensures
        ({
            let e = (crate::bits::bit64_with(crate::bits::bit64_with(0u64, 0, true), 1, true)
                & !0xf_ffff_ffff_f000u64) | pa;
            entry_present(e) && !entry_huge(e) && entry_addr(e) == pa && e == pa | 3 && e & 2 == 2
        }),
{
}

/// The page and gigabyte alignments are powers of two.
pub proof fn lemma_alignment_masks()
    by (bit_vector)
    ensures
        4096u64 & 4095 == 0,
        0x4000_0000u64 & 0x3fff_ffff == 0,
{
}

/// Setting the present bit and then replacing the address bits of an
/// entry with an aligned 52-bit address yields a present entry holding
/// exactly that address, with every bit outside the present and address
/// fields untouched.
pub proof fn lemma_compose_table_entry(v: u64, a: u64)
    by (bit_vector)
    requires
        a % 4096 == 0,
        a < 0x10_0000_0000_0000,
    ensures
        ({
            let e = (crate::bits::bit64_with(v, 0, true) & !0xf_ffff_ffff_f000u64) | (a
                & 0xf_ffff_ffff_f000);
            e == (v & !0xf_ffff_ffff_f000u64) | a | 1 && entry_present(e) && entry_addr(e) == a
                && (entry_huge(e) == entry_huge(v))
        }),
{
}

/// The same composition with the huge-page bit cleared first: the result
/// is a present, non-huge entry holding the address.
pub proof fn lemma_compose_directory_entry(v: u64, a: u64)
    by (bit_vector)
    requires
        a % 4096 == 0,
        a < 0x10_0000_0000_0000,
    ensures
        ({
            let e = (crate::bits::bit64_with(crate::bits::bit64_with(v, 0, true), 7, false)
                & !0xf_ffff_ffff_f000u64) | (a & 0xf_ffff_ffff_f000);
            e == (v & !0xf_ffff_ffff_f080u64) | a | 1 && entry_present(e) && !entry_huge(e)
                && entry_addr(e) == a
        }),
{
}

/// The same composition with the huge-page bit set: the result is a
/// present huge-page entry holding the (gigabyte-aligned) address.
pub proof fn lemma_compose_huge_entry(v: u64, a: u64)
    by (bit_vector)
    requires
        a % 0x4000_0000 == 0,
        a < 0x10_0000_0000_0000,
    ensures
        ({
            let e = (crate::bits::bit64_with(crate::bits::bit64_with(v, 0, true), 7, true)
                & !0xf_ffff_ffff_f000u64) | (a & 0xf_ffff_ffff_f000);
            e == (v & !0xf_ffff_ffff_f000u64) | a | 0x81 && entry_present(e) && entry_huge(e)
                && entry_addr(e) == a
        }),
{
}

/// One 8-byte entry of a page table, at any level of the hierarchy.
#[derive(Clone, Copy, Debug, PartialEq, Eq, Structural)]
pub struct PageTableEntry {
    value: u64,
}

impl View for PageTableEntry {
    type V = u64;

    closed spec fn view(&self) -> u64 {
        self.value
    }
}

impl Default for PageTableEntry {
    /// The all-clear entry.
    fn default() -> (r: Self)
        ensures
            r@ == 0,
    {
        PageTableEntry { value: 0 }
    }
}

impl PageTableEntry {
    /// The all-clear entry: absent, no flags, no address.
    pub fn empty() -> (r: Self)
        ensures
            r@ == 0,
    {
        PageTableEntry { value: 0 }
    }

    /// An entry with exactly the given raw bits.
    pub fn from_u64(value: u64) -> (r: Self)
        ensures
            r@ == value,
    {
        PageTableEntry { value }
    }

    /// The raw bits of the entry.
    pub fn as_u64(&self) -> (r: u64)
        ensures
            r == self@,
    {
        self.value
    }

    /// Bit 0: whether the entry takes part in translation at all.
    pub fn is_present(&self) -> (r: bool)
        ensures
            r == bit64(self@, 0),
    {
        bit64_read(self.value, 0)
    }

    /// Writes bit 0.
    pub fn set_is_present(&mut self, value: bool)
        ensures
            final(self)@ == bit64_with(old(self)@, 0, value),
    {
        self.value = bit64_write(self.value, 0, value);
    }

    /// Bit 1: whether writes through this entry are allowed.
    pub fn write_allowed(&self) -> (r: bool)
        ensures
            r == bit64(self@, 1),
    {
        bit64_read(self.value, 1)
    }

    /// Writes bit 1.
    pub fn set_write_allowed(&mut self, value: bool)
        ensures
            final(self)@ == bit64_with(old(self)@, 1, value),
    {
        self.value = bit64_write(self.value, 1, value);
    }

    /// Bit 2: whether user-mode accesses are allowed.
    pub fn user_access_allowed(&self) -> (r: bool)
        ensures
            r == bit64(self@, 2),
    {
        bit64_read(self.value, 2)
    }

    /// Writes bit 2.
    pub fn set_user_acess_allowed(&mut self, value: bool)
        ensures
            final(self)@ == bit64_with(old(self)@, 2, value),
    {
        self.value = bit64_write(self.value, 2, value);
    }

    /// Bit 3: write-through caching.
    pub fn write_through_enabled(&self) -> (r: bool)
        ensures
            r == bit64(self@, 3),
    {
        bit64_read(self.value, 3)
    }

    /// Writes bit 3.
    pub fn set_write_through_enabled(&mut self, value: bool)
        ensures
            final(self)@ == bit64_with(old(self)@, 3, value),
    {
        self.value = bit64_write(self.value, 3, value);
    }

    /// Bit 4: whether caching is disabled.
    pub fn cache_disabled(&self) -> (r: bool)
        ensures
            r == bit64(self@, 4),
    {
        bit64_read(self.value, 4)
    }

    /// Writes bit 4.
    pub fn set_cache_disabled(&mut self, value: bool)
        ensures
            final(self)@ == bit64_with(old(self)@, 4, value),
    {
        self.value = bit64_write(self.value, 4, value);
    }

    /// Bit 5: set by the processor when the entry is used.
    pub fn accessed(&self) -> (r: bool)
        ensures
            r == bit64(self@, 5),
    {
        bit64_read(self.value, 5)
    }

    /// Writes bit 5.
    pub fn set_accessed(&mut self, value: bool)
        ensures
            final(self)@ == bit64_with(old(self)@, 5, value),
    {
        self.value = bit64_write(self.value, 5, value);
    }

    /// Bit 6: set by the processor when the page is written.
    pub fn is_dirty(&self) -> (r: bool)
        ensures
            r == bit64(self@, 6),
    {
        bit64_read(self.value, 6)
    }

    /// Writes bit 6.
    pub fn set_is_dirty(&mut self, value: bool)
        ensures
            final(self)@ == bit64_with(old(self)@, 6, value),
    {
        self.value = bit64_write(self.value, 6, value);
    }

    /// Bit 7: at PD and PDPT level, whether the entry maps a huge page
    /// instead of pointing at a child table.
    pub fn references_page(&self) -> (r: bool)
        ensures
            r == bit64(self@, 7),
    {
        bit64_read(self.value, 7)
    }

    /// Writes bit 7.
    pub fn set_references_page(&mut self, value: bool)
        ensures
            final(self)@ == bit64_with(old(self)@, 7, value),
    {
        self.value = bit64_write(self.value, 7, value);
    }

    /// Bit 8: whether the translation is global across address-space
    /// switches.
    pub fn is_global(&self) -> (r: bool)
        ensures
            r == bit64(self@, 8),
    {
        bit64_read(self.value, 8)
    }

    /// Writes bit 8.
    pub fn set_is_global(&mut self, value: bool)
        ensures
            final(self)@ == bit64_with(old(self)@, 8, value),
    {
        self.value = bit64_write(self.value, 8, value);
    }

    /// The physical-address bits, [12, 52), in place.
    pub fn physical_address(&self) -> (r: u64)
        ensures
            r == self@ & ENTRY_ADDRESS_MASK,
    {
        self.value & ENTRY_ADDRESS_MASK
    }

    /// Writes `address` into the address bits [12, 52), replacing what
    /// was there and leaving every other bit alone.  The address must be
    /// page-aligned and within the 52-bit width: a misaligned address is
    /// a construction-time error, never a silently truncated write.
    pub fn set_physical_address(&mut self, address: u64)
        requires
            address % 4096 == 0,
            address < 0x10_0000_0000_0000,
        ensures
            final(self)@ == (old(self)@ & !ENTRY_ADDRESS_MASK) | address,
            final(self)@ & ENTRY_ADDRESS_MASK == address,
            final(self)@ & !ENTRY_ADDRESS_MASK == old(self)@ & !ENTRY_ADDRESS_MASK,
    {
        proof {
            let v = self@;
            assert(((v & !0xf_ffff_ffff_f000u64) | address) & 0xf_ffff_ffff_f000 == address && ((v
                & !0xf_ffff_ffff_f000u64) | address) & !0xf_ffff_ffff_f000u64 == v
                & !0xf_ffff_ffff_f000u64) by (bit_vector)
                requires
                    address % 4096 == 0,
                    address < 0x10_0000_0000_0000,
            ;
        }
        self.value = (self.value & !ENTRY_ADDRESS_MASK) | address;
    }
}

} // verus!
