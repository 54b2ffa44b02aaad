//! The choice between 4-level and 5-level paging.

use vstd::prelude::*;

verus! {

/// The translation depth the processor is configured for: classic 4-level
/// paging rooted at a PML4 table, or 5-level (LA57) paging rooted at a PML5
/// table.  The mode decides how deep the walker descends and which bit a
/// virtual address sign-extends from.
#[derive(Clone, Copy, Debug, PartialEq, Eq, Structural)]
pub enum PagingMode {
    FourLevel,
    FiveLevel,
}

impl PagingMode {
    /// The number of table levels between the root and a 4 KiB page.
    pub open spec fn depth_spec(self) -> nat {
        match self {
            PagingMode::FourLevel => 4,
            PagingMode::FiveLevel => 5,
        }
    }

    /// The number of table levels between the root and a 4 KiB page.
    pub fn depth(self) -> (r: u8)
        ensures
            r == self.depth_spec(),
    {
        match self {
            PagingMode::FourLevel => 4,
            PagingMode::FiveLevel => 5,
        }
    }

    /// The mode selected by the LA57 bit of CR4: 5-level when the bit is
    /// set, 4-level otherwise.
    pub fn from_la57(la57: bool) -> (r: Self)
        ensures
            r == (if la57 {
                PagingMode::FiveLevel
            } else {
                PagingMode::FourLevel
            }),
    {
        if la57 {
            PagingMode::FiveLevel
        } else {
            PagingMode::FourLevel
        }
    }
}

} // verus!
