//! The CR4 control-register value.
//!
//! Only the value type lives here: reading and writing the register
//! itself is a privileged instruction that stays outside the library.

use vstd::prelude::*;

use crate::bits::{bit64, bit64_read, bit64_with, bit64_write};
use crate::paging_mode::PagingMode;

verus! {

/// The 64-bit contents of CR4.  Bit 12 is LA57, which selects 5-level
/// paging; bit 2 is TSD, which restricts the timestamp counter.
#[derive(Clone, Copy, Debug, PartialEq, Eq, Structural)]
pub struct Value {
    bits: u64,
}

impl View for Value {
    type V = u64;

    closed spec fn view(&self) -> u64 {
        self.bits
    }
}

impl Default for Value {
    /// The all-clear value.
    fn default() -> (r: Self)
        ensures
            r@ == 0,
    {
        Value { bits: 0 }
    }
}

impl Value {
    /// The all-clear value.
    pub fn new() -> (r: Self)
        ensures
            r@ == 0,
    {
        Value { bits: 0 }
    }

    /// A value with exactly the given raw bits.
    pub fn from_u64(value: u64) -> (r: Self)
        ensures
            r@ == value,
    {
        Value { bits: value }
    }

    /// The raw bits.
    pub fn as_u64(&self) -> (r: u64)
        ensures
            r == self@,
    {
        self.bits
    }

    /// Bit 12: whether 5-level paging is selected.
    pub fn la57(self) -> (r: bool)
        ensures
            r == bit64(self@, 12),
    {
        bit64_read(self.bits, 12)
    }

    /// Writes bit 12.
    pub fn set_la57(&mut self, value: bool)
        ensures
            final(self)@ == bit64_with(old(self)@, 12, value),
    {
        self.bits = bit64_write(self.bits, 12, value);
    }

    /// Bit 2: whether the timestamp counter is restricted to ring 0.
    pub fn tsd(self) -> (r: bool)
        ensures
            r == bit64(self@, 2),
    {
        bit64_read(self.bits, 2)
    }

    /// Writes bit 2.
    pub fn set_tsd(&mut self, value: bool)
        ensures
            final(self)@ == bit64_with(old(self)@, 2, value),
    {
        self.bits = bit64_write(self.bits, 2, value);
    }

    /// The paging mode this value selects through LA57.
    pub fn paging_mode(self) -> (r: PagingMode)
        ensures
            r == (if bit64(self@, 12) {
                PagingMode::FiveLevel
            } else {
                PagingMode::FourLevel
            }),
    {
        PagingMode::from_la57(self.la57())
    }
}

} // verus!
