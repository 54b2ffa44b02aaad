//! The argument block the loader hands to the kernel.

use vstd::prelude::*;

verus! {

/// The argument-block version this library writes and understands.
pub const CURRENT_VERSION: u32 = 1;

/// The boot arguments, carried from the loader into the kernel.  Only
/// the version field matters to this core; the kernel checks it before
/// trusting the rest of the block.
#[derive(Clone, Copy, Debug, PartialEq, Eq, Structural)]
pub struct Args {
    /// The version of the block's layout.
    pub version: u32,
}

impl Default for Args {
    /// A block of the current version.
    fn default() -> (r: Self)
        ensures
            r.version == CURRENT_VERSION,
    {
        Args { version: CURRENT_VERSION }
    }
}

impl Args {
    /// Whether the block was written by a loader older or newer than
    /// this library.
    pub fn is_outdated(&self) -> (r: bool)
        ensures
            r == (self.version != CURRENT_VERSION),
    {
        self.version != CURRENT_VERSION
    }
}

} // verus!
