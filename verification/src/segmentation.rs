//! The pointer structure that `lgdt` takes: the limit and base of a
//! global descriptor table.

use vstd::prelude::*;

verus! {

/// A GDT pointer: the byte limit (the table's size minus one) and the
/// linear address of its first descriptor.  Loading it into the
/// processor is a privileged instruction outside the library.
#[derive(Clone, Copy, Debug, PartialEq, Eq, Structural)]
pub struct GdtPointer {
    limit: u16,
    entries: u64,
}

impl GdtPointer {
    /// The byte limit.
    pub closed spec fn limit_s(self) -> u16 {
        self.limit
    }

    /// The base address of the table.
    pub closed spec fn entries_s(self) -> u64 {
        self.entries
    }

    /// A pointer with the given limit and base address.
    pub fn new(limit: u16, entries: u64) -> (r: Self)
        ensures
            r.limit_s() == limit,
            r.entries_s() == entries,
    {
        GdtPointer { limit, entries }
    }

    /// The byte limit.
    pub fn limit(&self) -> (r: u16)
        ensures
            r == self.limit_s(),
    {
        self.limit
    }

    /// The base address of the table.
    pub fn entries(&self) -> (r: u64)
        ensures
            r == self.entries_s(),
    {
        self.entries
    }

    /// The pointer for a table of `count` 8-byte descriptors starting at
    /// `base`: the limit is the end offset of the last descriptor.
    /// Tables of more than 8192 descriptors do not fit a GDT and are
    /// rejected; so is an empty table, whose limit would underflow.
    pub fn for_table(base: u64, count: usize) -> (r: Result<Self, ()>)
        ensures
            match r {
                Ok(p) => 1 <= count <= 8192 && p.limit_s() == count * 8 - 1 && p.entries_s()
                    == base,
                Err(()) => count == 0 || count > 8192,
            },
    {
        if count == 0 || count > 8192 {
            return Err(());
        }
        Ok(GdtPointer { limit: (count * 8 - 1) as u16, entries: base })
    }
}

} // verus!
