//! Hardware structures of x86_64 long mode, with verified contracts.
//!
//! The heart of the crate is the paging core: validated physical and virtual
//! address types, bit-packed page-table entries, 512-entry table containers,
//! and the walker operations `map`, `unmap` and `translate` over a table
//! arena indexed by physical address.  Around it stand the other bit-packed
//! hardware values of the same machine: segment selectors, interrupt
//! descriptors, the CR4 control-register value, and a UART interrupt-enable
//! register.

pub mod bits;
pub mod cr4;
pub mod descriptors;
pub mod directory_ptr;
pub mod error;
pub mod init;
pub mod interrupt_enable;
pub mod interrupts;
pub mod memory;
pub mod operations;
pub mod page_entry;
pub mod page_table;
pub mod paging_mode;
pub mod physical_address;
pub mod pml_5;
pub mod privilege;
pub mod segmentation;
pub mod selector;
pub mod storage;
pub mod virtual_address;
