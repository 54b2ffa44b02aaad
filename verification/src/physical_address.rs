//! Physical addresses of a declared bit width.

use vstd::prelude::*;

use crate::bits::lemma_power_of_two_alignment;
use crate::error::AddressError;

verus! {

/// One more than the largest 52-bit physical address.
pub const PHYSICAL_ADDRESS_52_LIMIT: u64 = 0x10_0000_0000_0000;

/// A physical address of at most 52 bits, the width of modern x86_64
/// processors.  Every value of this type keeps bits 52 and up clear; the
/// fallible constructor rejects anything wider.
#[derive(Clone, Copy, Debug, PartialEq, Eq, Structural)]
pub struct PhysicalAddress52 {
    value: u64,
}

impl View for PhysicalAddress52 {
    type V = u64;

    closed spec fn view(&self) -> u64 {
        self.value
    }
}

impl PhysicalAddress52 {
    /// Bits 52 and up are clear in every value of this type.
    #[verifier::type_invariant]
    pub open spec fn in_range(self) -> bool {
        self@ < PHYSICAL_ADDRESS_52_LIMIT
    }

    /// Builds the address from a value already known to fit in 52 bits.
    pub fn new(value: u64) -> (r: Self)
        requires
            value < PHYSICAL_ADDRESS_52_LIMIT,
        ensures
            r@ == value,
    {
        PhysicalAddress52 { value }
    }

    /// Accepts `value` as a 52-bit physical address, and rejects it with
    /// `OutOfRange` exactly when some bit at position 52 or above is set.
    pub fn try_from(value: u64) -> (r: Result<Self, AddressError>)
        ensures
            match r {
                Ok(a) => a@ == value && value < PHYSICAL_ADDRESS_52_LIMIT,
                Err(e) => e == AddressError::OutOfRange && value >= PHYSICAL_ADDRESS_52_LIMIT,
            },
    {
        if value < PHYSICAL_ADDRESS_52_LIMIT {
            Ok(PhysicalAddress52 { value })
        } else {
            Err(AddressError::OutOfRange)
        }
    }

    /// The raw address.
    pub fn as_u64(&self) -> (r: u64)
        ensures
            r == self@,
            r < PHYSICAL_ADDRESS_52_LIMIT,
    {
        proof {
            use_type_invariant(self);
        }
        self.value
    }

    /// Whether the address is a multiple of `alignment`, which must be a
    /// power of two.  A pure predicate: it never fails.
    pub fn check_alignment(&self, alignment: u64) -> (r: bool)
        requires
            alignment != 0,
            alignment & ((alignment - 1) as u64) == 0,
        ensures
            r == (self@ % alignment == 0),
    {
        proof {
            lemma_power_of_two_alignment(self@, alignment);
        }
        self.value & (alignment - 1) == 0
    }
}

} // verus!
