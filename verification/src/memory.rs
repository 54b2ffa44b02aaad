//! Plain-value records of firmware memory: the memory-map key and a run
//! of allocated pages.  The firmware calls that fill them in stay
//! outside the library.

use vstd::prelude::*;

verus! {

/// The size of one page in bytes.
pub const PAGE_SIZE: usize = 4096;

/// What a firmware memory map reduces to for this core: the key that
/// names the snapshot when boot services are exited, and how many
/// descriptors it held.
#[derive(Clone, Copy, Debug, PartialEq, Eq, Structural)]
pub struct MemoryMap {
    key: usize,
    count: usize,
}

impl MemoryMap {
    /// A record of a retrieved memory map.
    pub fn new(key: usize, count: usize) -> (r: Self)
        ensures
            r.key_s() == key,
            r.count_s() == count,
    {
        MemoryMap { key, count }
    }

    /// The snapshot key.
    pub closed spec fn key_s(self) -> usize {
        self.key
    }

    /// The number of descriptors.
    pub closed spec fn count_s(self) -> usize {
        self.count
    }

    /// The snapshot key, to hand back when exiting boot services.
    pub fn key(&self) -> (r: usize)
        ensures
            r == self.key_s(),
    {
        self.key
    }

    /// The number of descriptors the map held.
    pub fn count(&self) -> (r: usize)
        ensures
            r == self.count_s(),
    {
        self.count
    }
}

/// A run of whole pages of physical memory: its starting address and its
/// length in pages.
#[derive(Clone, Copy, Debug, PartialEq, Eq, Structural)]
pub struct MemoryPages {
    address: u64,
    len: usize,
}

impl MemoryPages {
    /// The starting physical address.
    pub closed spec fn address_s(self) -> u64 {
        self.address
    }

    /// The length in pages.
    pub closed spec fn len_s(self) -> usize {
        self.len
    }

    /// A record of `len` pages starting at `address`.  The byte length
    /// must fit the address space.
    pub fn new(address: u64, len: usize) -> (r: Self)
        requires
            len * PAGE_SIZE <= usize::MAX,
        ensures
            r.address_s() == address,
            r.len_s() == len,
    {
        MemoryPages { address, len }
    }

    /// The starting physical address.
    pub fn address(&self) -> (r: u64)
        ensures
            r == self.address_s(),
    {
        self.address
    }

    /// The length in pages.
    pub fn len(&self) -> (r: usize)
        ensures
            r == self.len_s(),
    {
        self.len
    }

    /// The length in bytes.
    pub fn byte_len(&self) -> (r: usize)
        requires
            self.len_s() * PAGE_SIZE <= usize::MAX,
        ensures
            r == self.len_s() * PAGE_SIZE,
    {
        self.len * PAGE_SIZE
    }
}

/// How many whole pages cover `bytes` bytes: the byte count divided by
/// the page size, rounded up.
pub fn pages_for(bytes: usize) -> (r: usize)
    requires
        bytes + PAGE_SIZE - 1 <= usize::MAX,
    ensures
        r == (bytes + PAGE_SIZE - 1) / (PAGE_SIZE as int),
        r * PAGE_SIZE >= bytes,
        bytes > 0 ==> (r - 1) * PAGE_SIZE < bytes,
{
    let r = (bytes + (PAGE_SIZE - 1)) / PAGE_SIZE;
    proof {
        vstd::arithmetic::div_mod::lemma_fundamental_div_mod(
            (bytes + PAGE_SIZE - 1) as int,
            PAGE_SIZE as int,
        );
    }
    r
}

} // verus!
