//! The PML5 level: the root table of 5-level (LA57) paging.
//!
//! A PML5 entry either takes no part in translation or points at a PML4
//! table; there are no huge pages at this level.

use vstd::prelude::*;
use vstd::pervasive::VecAdditionalExecFns;

use crate::bits::bit64_write;
use crate::error::AlignmentError;
use crate::page_entry::{
    ENTRY_ADDRESS_MASK, entry_addr, entry_present, lemma_alignment_masks,
    lemma_compose_table_entry, lemma_entry_fields,
};
use crate::page_table::TABLE_ENTRY_COUNT;
use crate::physical_address::PhysicalAddress52;

verus! {

/// What a PML5 entry stands for.
#[derive(Clone, Copy, Debug, PartialEq, Eq, Structural)]
pub enum Pml5Value {
    /// The entry takes no part in translation.
    Absent,
    /// The entry points at the PML4 table at this physical address.
    Pml4Table(PhysicalAddress52),
}

impl Pml5Value {
    /// The PML4 table address, when the entry points at one.
    pub fn pml4_table(self) -> (r: Option<PhysicalAddress52>)
        ensures
            r == (match self {
                Pml5Value::Pml4Table(address) => Some(address),
                Pml5Value::Absent => None::<PhysicalAddress52>,
            }),
    {
        match self {
            Pml5Value::Pml4Table(address) => Some(address),
            Pml5Value::Absent => None,
        }
    }
}

/// One bit-packed 8-byte entry of a PML5 table.
#[derive(Clone, Copy, Debug, PartialEq, Eq, Structural)]
pub struct Pml5Entry {
    value: u64,
}

impl View for Pml5Entry {
    type V = u64;

    closed spec fn view(&self) -> u64 {
        self.value
    }
}

impl Pml5Entry {
    /// The all-clear entry.
    pub fn empty() -> (r: Self)
        ensures
            r@ == 0,
    {
        Pml5Entry { value: 0 }
    }

    /// An entry with exactly the given raw bits.
    pub fn from_u64(value: u64) -> (r: Self)
        ensures
            r@ == value,
    {
        Pml5Entry { value }
    }

    /// The raw bits of the entry.
    pub fn as_u64(&self) -> (r: u64)
        ensures
            r == self@,
    {
        self.value
    }

    /// The typed meaning of the entry: absent, or the address of its
    /// PML4 table.
    pub fn value(self) -> (r: Pml5Value)
        ensures
            entry_present(self@) ==> (r matches Pml5Value::Pml4Table(a) && a@ == entry_addr(
                self@,
            )),
            !entry_present(self@) ==> r == Pml5Value::Absent,
    {
        if self.value & 1 == 1 {
            let address = self.value & ENTRY_ADDRESS_MASK;
            proof {
                lemma_entry_fields(self@);
            }
            Pml5Value::Pml4Table(PhysicalAddress52::new(address))
        } else {
            Pml5Value::Absent
        }
    }

    /// Writes the typed value into the entry.  A PML4-table address whose
    /// low 12 bits are not zero is refused with `AlignmentError` and the
    /// entry keeps its previous bits; otherwise the present bit and the
    /// address bits are written in one logical update.  Writing `Absent`
    /// clears the present bit and leaves the other bits alone.
    pub fn set_value(&mut self, value: Pml5Value) -> (r: Result<(), AlignmentError>)
        ensures
            (r is Err) == (value matches Pml5Value::Pml4Table(a) && a@ % 4096 != 0),
            match value {
                Pml5Value::Absent => r is Ok && final(self)@ == crate::bits::bit64_with(
                    old(self)@,
                    0,
                    false,
                ),
                Pml5Value::Pml4Table(a) => {
                    if a@ % 4096 == 0 {
                        r is Ok && final(self)@ == ((old(self)@ & !ENTRY_ADDRESS_MASK) | a@ | 1)
                            && entry_present(final(self)@) && entry_addr(final(self)@) == a@
                    } else {
                        r matches Err(AlignmentError) && final(self)@ == old(self)@
                    }
                },
            },
    {
        match value {
            Pml5Value::Absent => {
                self.value = bit64_write(self.value, 0, false);
                Ok(())
            },
            Pml5Value::Pml4Table(address) => {
                proof {
                    lemma_alignment_masks();
                    use_type_invariant(&address);
                }
                if !address.check_alignment(4096) {
                    return Err(AlignmentError);
                }
                proof {
                    lemma_compose_table_entry(self@, address@);
                }
                self.value = (bit64_write(self.value, 0, true) & !ENTRY_ADDRESS_MASK) | (
                address.as_u64() & ENTRY_ADDRESS_MASK);
                Ok(())
            },
        }
    }
}

/// A PML5 table: 512 entries, viewed as the sequence of their raw bits.
pub struct Pml5Table {
    entries: Vec<Pml5Entry>,
}

impl View for Pml5Table {
    type V = Seq<u64>;

    closed spec fn view(&self) -> Seq<u64> {
        self.entries@.map_values(|e: Pml5Entry| e@)
    }
}

impl Pml5Table {
    /// A table of 512 absent entries.
    pub fn new() -> (r: Self)
        ensures
            r@.len() == TABLE_ENTRY_COUNT,
            forall|j: int| 0 <= j < TABLE_ENTRY_COUNT ==> r@[j] == 0,
    {
        let mut entries: Vec<Pml5Entry> = Vec::new();
        let mut i: usize = 0;
        while i < TABLE_ENTRY_COUNT
            invariant
                i <= TABLE_ENTRY_COUNT,
                entries@.len() == i,
                forall|j: int| 0 <= j < i ==> entries@[j]@ == 0,
            decreases TABLE_ENTRY_COUNT - i,
        {
            entries.push(Pml5Entry::empty());
            i = i + 1;
        }
        Pml5Table { entries }
    }

    /// The entry at `index`, or nothing when the index is out of range.
    pub fn get(&self, index: usize) -> (r: Option<Pml5Entry>)
        ensures
            match r {
                Some(e) => (index as int) < self@.len() && e@ == self@[index as int],
                None => (index as int) >= self@.len(),
            },
    {
        if index < self.entries.len() {
            Some(self.entries[index])
        } else {
            None
        }
    }

    /// Replaces the entry at `index`.
    pub fn set(&mut self, index: usize, entry: Pml5Entry)
        requires
            (index as int) < old(self)@.len(),
        ensures
            final(self)@ == old(self)@.update(index as int, entry@),
    {
        self.entries.set(index, entry);
        assert(self@ =~= old(self)@.update(index as int, entry@));
    }

    /// All 512 entries, in index order.
    pub fn iter(&self) -> (r: Vec<Pml5Entry>)
        ensures
            r@.len() == self@.len(),
            forall|j: int| 0 <= j < self@.len() ==> r@[j]@ == self@[j],
    {
        let mut out: Vec<Pml5Entry> = Vec::new();
        let mut i: usize = 0;
        while i < self.entries.len()
            invariant
                i <= self.entries@.len(),
                out@.len() == i,
                forall|j: int| 0 <= j < i ==> out@[j]@ == self@[j],
            decreases self.entries@.len() - i,
        {
            out.push(self.entries[i]);
            i = i + 1;
        }
        out
    }
}

} // verus!
