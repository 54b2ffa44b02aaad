//! The failure kinds that address construction and entry mutation report.

use vstd::prelude::*;

verus! {

/// Why a raw integer was rejected as an address.
#[derive(Clone, Copy, Debug, PartialEq, Eq, Structural)]
pub enum AddressError {
    /// A physical address had bits set above the declared width.
    OutOfRange,
    /// A virtual address was not in canonical (sign-extended) form.
    NonCanonical,
}

/// A physical address failed the alignment a table entry demands.
/// The entry is left unmodified when this is reported.
#[derive(Clone, Copy, Debug, PartialEq, Eq, Structural)]
pub struct AlignmentError;

} // verus!
