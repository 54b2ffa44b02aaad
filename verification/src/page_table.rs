//! The 512-entry page-table container.

use vstd::prelude::*;
use vstd::pervasive::VecAdditionalExecFns;

use crate::page_entry::PageTableEntry;

verus! {

/// The number of entries in a table at every level of the hierarchy.
pub const TABLE_ENTRY_COUNT: usize = 512;

/// A page table: exactly 512 entries, viewed as the sequence of their raw
/// bits.  In physical memory such a table sits at a 4096-byte-aligned
/// address; here the placement is the arena's concern, and this type only
/// guarantees the contents.
pub struct PageTable {
    entries: Vec<PageTableEntry>,
}

impl View for PageTable {
    type V = Seq<u64>;

    closed spec fn view(&self) -> Seq<u64> {
        self.entries@.map_values(|e: PageTableEntry| e@)
    }
}

impl PageTable {
    /// A table of 512 absent entries.
    pub fn new() -> (r: Self)
        ensures
            r@.len() == TABLE_ENTRY_COUNT,
            forall|j: int| 0 <= j < TABLE_ENTRY_COUNT ==> r@[j] == 0,
    {
        let mut entries: Vec<PageTableEntry> = Vec::new();
        let mut i: usize = 0;
        while i < TABLE_ENTRY_COUNT
            invariant
                i <= TABLE_ENTRY_COUNT,
                entries@.len() == i,
                forall|j: int| 0 <= j < i ==> entries@[j]@ == 0,
            decreases TABLE_ENTRY_COUNT - i,
        {
            entries.push(PageTableEntry::empty());
            i = i + 1;
        }
        PageTable { entries }
    }

    /// The entry at `index`.
    pub fn entry(&self, index: u16) -> (r: PageTableEntry)
        requires
            (index as int) < self@.len(),
        ensures
            r@ == self@[index as int],
    {
        self.entries[index as usize]
    }

    /// The entry at `index`, or nothing when the index is out of range.
    pub fn get(&self, index: u16) -> (r: Option<PageTableEntry>)
        ensures
            match r {
                Some(e) => (index as int) < self@.len() && e@ == self@[index as int],
                None => (index as int) >= self@.len(),
            },
    {
        if (index as usize) < self.entries.len() {
            Some(self.entries[index as usize])
        } else {
            None
        }
    }

    /// Replaces the entry at `index`.
    pub fn set_entry(&mut self, index: u16, entry: PageTableEntry)
        requires
            (index as int) < old(self)@.len(),
        ensures
            final(self)@ == old(self)@.update(index as int, entry@),
    {
        self.entries.set(index as usize, entry);
        assert(self@ =~= old(self)@.update(index as int, entry@));
    }

    /// All 512 entries, in index order.
    pub fn entries_vec(&self) -> (r: Vec<PageTableEntry>)
        ensures
            r@.len() == self@.len(),
            forall|j: int| 0 <= j < self@.len() ==> r@[j]@ == self@[j],
    {
        let mut out: Vec<PageTableEntry> = Vec::new();
        let mut i: usize = 0;
        while i < self.entries.len()
            invariant
                i <= self.entries@.len(),
                out@.len() == i,
                forall|j: int| 0 <= j < i ==> out@[j]@ == self@[j],
            decreases self.entries@.len() - i,
        {
            out.push(self.entries[i]);
            i = i + 1;
        }
        out
    }
}

} // verus!
