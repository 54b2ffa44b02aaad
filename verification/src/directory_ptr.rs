//! The PDPT level: the page-directory-pointer table beneath PML4.
//!
//! An entry at this level either takes no part in translation, points at
//! a page directory, or — with the huge-page bit set — maps a 1 GiB page
//! directly.

use vstd::prelude::*;
use vstd::pervasive::VecAdditionalExecFns;

use crate::bits::{bit64_read, bit64_write};
use crate::error::AlignmentError;
use crate::page_entry::{
    ENTRY_ADDRESS_MASK, entry_addr, entry_huge, entry_present, lemma_alignment_masks,
    lemma_compose_directory_entry, lemma_compose_huge_entry, lemma_entry_fields,
};
use crate::page_table::TABLE_ENTRY_COUNT;
use crate::physical_address::PhysicalAddress52;

verus! {

/// The alignment a 1 GiB huge page demands of its physical address.
pub const HUGE_PAGE_1GB_ALIGNMENT: u64 = 0x4000_0000;

/// What a directory-pointer entry stands for.
#[derive(Clone, Copy, Debug, PartialEq, Eq, Structural)]
pub enum DirectoryPtrValue {
    /// The entry takes no part in translation.
    Absent,
    /// The entry points at the page directory at this physical address.
    DirectoryTable(PhysicalAddress52),
    /// The entry maps a 1 GiB page at this physical address.
    Page1Gb(PhysicalAddress52),
}

impl DirectoryPtrValue {
    /// The page-directory address, when the entry points at one.
    pub fn directory_table(self) -> (r: Option<PhysicalAddress52>)
        ensures
            r == (match self {
                DirectoryPtrValue::DirectoryTable(address) => Some(address),
                _ => None::<PhysicalAddress52>,
            }),
    {
        match self {
            DirectoryPtrValue::DirectoryTable(address) => Some(address),
            _ => None,
        }
    }

    /// The 1 GiB page address, when the entry maps one.
    pub fn page_1gb(self) -> (r: Option<PhysicalAddress52>)
        ensures
            r == (match self {
                DirectoryPtrValue::Page1Gb(address) => Some(address),
                _ => None::<PhysicalAddress52>,
            }),
    {
        match self {
            DirectoryPtrValue::Page1Gb(address) => Some(address),
            _ => None,
        }
    }
}

/// One bit-packed 8-byte entry of a directory-pointer table.
#[derive(Clone, Copy, Debug, PartialEq, Eq, Structural)]
pub struct DirectoryPtrEntry {
    value: u64,
}

impl View for DirectoryPtrEntry {
    type V = u64;

    closed spec fn view(&self) -> u64 {
        self.value
    }
}

impl DirectoryPtrEntry {
    /// The all-clear entry.
    pub fn empty() -> (r: Self)
        ensures
            r@ == 0,
    {
        DirectoryPtrEntry { value: 0 }
    }

    /// An entry with exactly the given raw bits.
    pub fn from_u64(value: u64) -> (r: Self)
        ensures
            r@ == value,
    {
        DirectoryPtrEntry { value }
    }

    /// The raw bits of the entry.
    pub fn as_u64(&self) -> (r: u64)
        ensures
            r == self@,
    {
        self.value
    }

    /// The typed meaning of the entry: absent, a child page directory,
    /// or a 1 GiB page, told apart by the present and huge-page bits.
    pub fn value(self) -> (r: DirectoryPtrValue)
        ensures
            entry_present(self@) && !entry_huge(self@) ==> (r matches
                DirectoryPtrValue::DirectoryTable(a) && a@ == entry_addr(self@)),
            entry_present(self@) && entry_huge(self@) ==> (r matches DirectoryPtrValue::Page1Gb(a)
                && a@ == entry_addr(self@)),
            !entry_present(self@) ==> r == DirectoryPtrValue::Absent,
    {
        if self.value & 1 == 1 {
            let address = self.value & ENTRY_ADDRESS_MASK;
            proof {
                lemma_entry_fields(self@);
            }
            proof {
                let v = self@;
                assert(entry_huge(v) == crate::bits::bit64(v, 7)) by (bit_vector);
            }
            if bit64_read(self.value, 7) {
                DirectoryPtrValue::Page1Gb(PhysicalAddress52::new(address))
            } else {
                DirectoryPtrValue::DirectoryTable(PhysicalAddress52::new(address))
            }
        } else {
            DirectoryPtrValue::Absent
        }
    }

    /// Writes the typed value into the entry.  A page-directory address
    /// must be 4096-byte aligned and a 1 GiB page address 1 GiB aligned;
    /// a misaligned address is refused with `AlignmentError` and the
    /// entry keeps its previous bits.  Otherwise the present bit, the
    /// huge-page bit and the address bits are written in one logical
    /// update.  Writing `Absent` clears the present and huge-page bits.
    pub fn set_value(&mut self, value: DirectoryPtrValue) -> (r: Result<(), AlignmentError>)
        ensures
            (r is Err) == (match value {
                DirectoryPtrValue::Absent => false,
                DirectoryPtrValue::DirectoryTable(a) => a@ % 4096 != 0,
                DirectoryPtrValue::Page1Gb(a) => a@ % HUGE_PAGE_1GB_ALIGNMENT != 0,
            }),
            match value {
                DirectoryPtrValue::Absent => r is Ok && final(self)@ == crate::bits::bit64_with(
                    crate::bits::bit64_with(old(self)@, 0, false),
                    7,
                    false,
                ),
                DirectoryPtrValue::DirectoryTable(a) => {
                    if a@ % 4096 == 0 {
                        r is Ok && final(self)@ == ((old(self)@ & !0xf_ffff_ffff_f080u64) | a@ | 1)
                            && entry_present(final(self)@) && !entry_huge(final(self)@)
                            && entry_addr(final(self)@) == a@
                    } else {
                        r matches Err(AlignmentError) && final(self)@ == old(self)@
                    }
                },
                DirectoryPtrValue::Page1Gb(a) => {
                    if a@ % HUGE_PAGE_1GB_ALIGNMENT == 0 {
                        r is Ok && final(self)@ == ((old(self)@ & !ENTRY_ADDRESS_MASK) | a@ | 0x81)
                            && entry_present(final(self)@) && entry_huge(final(self)@)
                            && entry_addr(final(self)@) == a@
                    } else {
                        r matches Err(AlignmentError) && final(self)@ == old(self)@
                    }
                },
            },
    {
        match value {
            DirectoryPtrValue::Absent => {
                self.value = bit64_write(bit64_write(self.value, 0, false), 7, false);
                Ok(())
            },
            DirectoryPtrValue::DirectoryTable(address) => {
                proof {
                    lemma_alignment_masks();
                    use_type_invariant(&address);
                }
                if !address.check_alignment(4096) {
                    return Err(AlignmentError);
                }
                proof {
                    lemma_compose_directory_entry(self@, address@);
                }
                self.value = (bit64_write(bit64_write(self.value, 0, true), 7, false)
                    & !ENTRY_ADDRESS_MASK) | (address.as_u64() & ENTRY_ADDRESS_MASK);
                Ok(())
            },
            DirectoryPtrValue::Page1Gb(address) => {
                proof {
                    lemma_alignment_masks();
                    use_type_invariant(&address);
                }
                if !address.check_alignment(HUGE_PAGE_1GB_ALIGNMENT) {
                    return Err(AlignmentError);
                }
                proof {
                    lemma_compose_huge_entry(self@, address@);
                }
                self.value = (bit64_write(bit64_write(self.value, 0, true), 7, true)
                    & !ENTRY_ADDRESS_MASK) | (address.as_u64() & ENTRY_ADDRESS_MASK);
                Ok(())
            },
        }
    }
}

/// A directory-pointer table: 512 entries, viewed as the sequence of
/// their raw bits.
pub struct DirectoryPtrTable {
    entries: Vec<DirectoryPtrEntry>,
}

impl View for DirectoryPtrTable {
    type V = Seq<u64>;

    closed spec fn view(&self) -> Seq<u64> {
        self.entries@.map_values(|e: DirectoryPtrEntry| e@)
    }
}

impl DirectoryPtrTable {
    /// A table of 512 absent entries.
    pub fn new() -> (r: Self)
        ensures
            r@.len() == TABLE_ENTRY_COUNT,
            forall|j: int| 0 <= j < TABLE_ENTRY_COUNT ==> r@[j] == 0,
    {
        let mut entries: Vec<DirectoryPtrEntry> = Vec::new();
        let mut i: usize = 0;
        while i < TABLE_ENTRY_COUNT
            invariant
                i <= TABLE_ENTRY_COUNT,
                entries@.len() == i,
                forall|j: int| 0 <= j < i ==> entries@[j]@ == 0,
            decreases TABLE_ENTRY_COUNT - i,
        {
            entries.push(DirectoryPtrEntry::empty());
            i = i + 1;
        }
        DirectoryPtrTable { entries }
    }

    /// The entry at `index`, or nothing when the index is out of range.
    pub fn get(&self, index: usize) -> (r: Option<DirectoryPtrEntry>)
        ensures
            match r {
                Some(e) => (index as int) < self@.len() && e@ == self@[index as int],
                None => (index as int) >= self@.len(),
            },
    {
        if index < self.entries.len() {
            Some(self.entries[index])
        } else {
            None
        }
    }

    /// Replaces the entry at `index`.
    pub fn set(&mut self, index: usize, entry: DirectoryPtrEntry)
        requires
            (index as int) < old(self)@.len(),
        ensures
            final(self)@ == old(self)@.update(index as int, entry@),
    {
        self.entries.set(index, entry);
        assert(self@ =~= old(self)@.update(index as int, entry@));
    }

    /// All 512 entries, in index order.
    pub fn iter(&self) -> (r: Vec<DirectoryPtrEntry>)
        ensures
            r@.len() == self@.len(),
            forall|j: int| 0 <= j < self@.len() ==> r@[j]@ == self@[j],
    {
        let mut out: Vec<DirectoryPtrEntry> = Vec::new();
        let mut i: usize = 0;
        while i < self.entries.len()
            invariant
                i <= self.entries@.len(),
                out@.len() == i,
                forall|j: int| 0 <= j < i ==> out@[j]@ == self@[j],
            decreases self.entries@.len() - i,
        {
            out.push(self.entries[i]);
            i = i + 1;
        }
        out
    }
}

} // verus!
