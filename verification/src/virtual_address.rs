//! Canonical virtual addresses and their hardware decomposition.
//!
//! The bit layout here is the x86_64 contract itself: offset in bits
//! [0, 12), then one 9-bit table index per level — PT [12, 21), PD
//! [21, 30), PDPT [30, 39), PML4 [39, 48), and PML5 [48, 57) under 5-level
//! paging.  Bits above the implemented width must sign-extend the highest
//! implemented bit (47, or 56 under LA57) for the address to be canonical.

use vstd::prelude::*;

use crate::bits::{lemma_index9, lemma_offset12};
use crate::error::AddressError;
use crate::paging_mode::PagingMode;

verus! {

/// The page offset: bits [0, 12) of `v`.
pub open spec fn offset_of(v: u64) -> u64 {
    v & 0xfff
}

/// The page-table index: bits [12, 21) of `v`.
pub open spec fn table_index_of(v: u64) -> u64 {
    (v >> 12) & 0x1ff
}

/// The page-directory index: bits [21, 30) of `v`.
pub open spec fn directory_index_of(v: u64) -> u64 {
    (v >> 21) & 0x1ff
}

/// The directory-pointer-table index: bits [30, 39) of `v`.
pub open spec fn directory_ptr_index_of(v: u64) -> u64 {
    (v >> 30) & 0x1ff
}

/// The PML4 index: bits [39, 48) of `v`.
pub open spec fn pml_4_index_of(v: u64) -> u64 {
    (v >> 39) & 0x1ff
}

/// The PML5 index: bits [48, 57) of `v`.
pub open spec fn pml_5_index_of(v: u64) -> u64 {
    (v >> 48) & 0x1ff
}

/// Canonical form under 4-level paging: bits 47 and up are all clear or
/// all set, that is, they sign-extend bit 47.
pub open spec fn canonical_4_level(v: u64) -> bool {
    v >> 47 == 0 || v >> 47 == 0x1ffff
}

/// Canonical form under 5-level paging: bits 56 and up are all clear or
/// all set, that is, they sign-extend bit 56.
pub open spec fn canonical_5_level(v: u64) -> bool {
    v >> 56 == 0 || v >> 56 == 0xff
}

/// Canonical form for the given paging mode.
pub open spec fn canonical_in(v: u64, mode: PagingMode) -> bool {
    match mode {
        PagingMode::FourLevel => canonical_4_level(v),
        PagingMode::FiveLevel => canonical_5_level(v),
    }
}

/// A 64-bit virtual address.  The fallible constructors accept only
/// canonical values; the decomposition accessors read the fixed index
/// fields listed in the module documentation.
#[derive(Clone, Copy, Debug, PartialEq, Eq, Structural)]
pub struct VirtualAddress {
    value: u64,
}

impl View for VirtualAddress {
    type V = u64;

    closed spec fn view(&self) -> u64 {
        self.value
    }
}

impl Default for VirtualAddress {
    /// The null address.
    fn default() -> (r: Self)
        ensures
            r@ == 0,
    {
        VirtualAddress { value: 0 }
    }
}

impl VirtualAddress {
    /// The null address.
    pub fn null() -> (r: Self)
        ensures
            r@ == 0,
    {
        VirtualAddress { value: 0 }
    }

    /// The raw 64-bit value.
    pub fn as_u64(&self) -> (r: u64)
        ensures
            r == self@,
    {
        self.value
    }

    /// Accepts `value` as a 4-level virtual address, and rejects it with
    /// `NonCanonical` exactly when bits 48 to 63 do not all equal bit 47.
    pub fn try_from(value: u64) -> (r: Result<Self, AddressError>)
        ensures
            match r {
                Ok(a) => a@ == value && canonical_4_level(value),
                Err(e) => e == AddressError::NonCanonical && !canonical_4_level(value),
            },
    {
        let high = value >> 47;
        if high == 0 || high == 0x1ffff {
            Ok(VirtualAddress { value })
        } else {
            Err(AddressError::NonCanonical)
        }
    }

    /// Accepts `value` under the canonical-form rule of `mode`: the
    /// sign-extension boundary is bit 47 under 4-level paging and bit 56
    /// under 5-level paging.
    pub fn try_from_with_mode(value: u64, mode: PagingMode) -> (r: Result<Self, AddressError>)
        ensures
            match r {
                Ok(a) => a@ == value && canonical_in(value, mode),
                Err(e) => e == AddressError::NonCanonical && !canonical_in(value, mode),
            },
    {
        let canonical: bool = match mode {
            PagingMode::FourLevel => {
                let high = value >> 47;
                high == 0 || high == 0x1ffff
            },
            PagingMode::FiveLevel => {
                let high = value >> 56;
                high == 0 || high == 0xff
            },
        };
        if canonical {
            Ok(VirtualAddress { value })
        } else {
            Err(AddressError::NonCanonical)
        }
    }

    /// The page offset, bits [0, 12).
    pub fn offset(&self) -> (r: u16)
        ensures
            r as u64 == offset_of(self@),
            r < 4096,
    {
        proof {
            lemma_offset12(self@);
        }
        (self.value & 0xfff) as u16
    }

    /// The page-table index, bits [12, 21).
    pub fn table_index(&self) -> (r: u16)
        ensures
            r as u64 == table_index_of(self@),
            r < 512,
    {
        proof {
            lemma_index9(self@, 12);
        }
        ((self.value >> 12) & 0x1ff) as u16
    }

    /// The page-directory index, bits [21, 30).
    pub fn directory_index(&self) -> (r: u16)
        ensures
            r as u64 == directory_index_of(self@),
            r < 512,
    {
        proof {
            lemma_index9(self@, 21);
        }
        ((self.value >> 21) & 0x1ff) as u16
    }

    /// The directory-pointer-table index, bits [30, 39).
    pub fn directory_ptr_index(&self) -> (r: u16)
        ensures
            r as u64 == directory_ptr_index_of(self@),
            r < 512,
    {
        proof {
            lemma_index9(self@, 30);
        }
        ((self.value >> 30) & 0x1ff) as u16
    }

    /// The PML4 index, bits [39, 48).
    pub fn pml_4_index(&self) -> (r: u16)
        ensures
            r as u64 == pml_4_index_of(self@),
            r < 512,
    {
        proof {
            lemma_index9(self@, 39);
        }
        ((self.value >> 39) & 0x1ff) as u16
    }

    /// The PML5 index, bits [48, 57), meaningful under 5-level paging.
    pub fn pml_5_index(&self) -> (r: u16)
        ensures
            r as u64 == pml_5_index_of(self@),
            r < 512,
    {
        proof {
            lemma_index9(self@, 48);
        }
        ((self.value >> 48) & 0x1ff) as u16
    }
}

/// The decomposition is lossless: shifting the five index fields of a
/// 4-level address back to their positions and joining them with the
/// offset rebuilds the address exactly, up to the sign-extension bits
/// (bits 48 and up).
pub proof fn lemma_fields_recombine_4_level(v: u64)
    by (bit_vector)
    ensures
        offset_of(v) | (table_index_of(v) << 12) | (directory_index_of(v) << 21) | (
        directory_ptr_index_of(v) << 30) | (pml_4_index_of(v) << 39) == v & 0xffff_ffff_ffff,
{
}

/// The 5-level form of the same round trip: with the PML5 field joined in,
/// the rebuilt value matches the address up to bits 57 and up.
pub proof fn lemma_fields_recombine_5_level(v: u64)
    by (bit_vector)
    ensures
        offset_of(v) | (table_index_of(v) << 12) | (directory_index_of(v) << 21) | (
        directory_ptr_index_of(v) << 30) | (pml_4_index_of(v) << 39) | (pml_5_index_of(v) << 48)
            == v & 0x1ff_ffff_ffff_ffff,
{
}

/// The canonical-form test is the per-bit statement it stands for: a value
/// passes the 4-level test exactly when each of bits 48 to 63 equals bit
/// 47.
pub proof fn lemma_canonical_4_level_bits(v: u64)
    by (bit_vector)
    ensures
        canonical_4_level(v) == (v >> 48 & 1 == v >> 47 & 1 && v >> 49 & 1 == v >> 47 & 1 && v >> 50
            & 1 == v >> 47 & 1 && v >> 51 & 1 == v >> 47 & 1 && v >> 52 & 1 == v >> 47 & 1 && v
            >> 53 & 1 == v >> 47 & 1 && v >> 54 & 1 == v >> 47 & 1 && v >> 55 & 1 == v >> 47 & 1
            && v >> 56 & 1 == v >> 47 & 1 && v >> 57 & 1 == v >> 47 & 1 && v >> 58 & 1 == v >> 47
            & 1 && v >> 59 & 1 == v >> 47 & 1 && v >> 60 & 1 == v >> 47 & 1 && v >> 61 & 1 == v
            >> 47 & 1 && v >> 62 & 1 == v >> 47 & 1 && v >> 63 & 1 == v >> 47 & 1),
{
}

} // verus!
