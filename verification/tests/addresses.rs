use x86_arch::error::AddressError;
use x86_arch::paging_mode::PagingMode;
use x86_arch::physical_address::PhysicalAddress52;
use x86_arch::virtual_address::VirtualAddress;

#[test]
fn physical_address_accepts_52_bits() {
    let a = PhysicalAddress52::try_from(0xf_ffff_ffff_ffff).unwrap();
    assert_eq!(a.as_u64(), 0xf_ffff_ffff_ffff);
    let b = PhysicalAddress52::try_from(0).unwrap();
    assert_eq!(b.as_u64(), 0);
}

#[test]
fn physical_address_rejects_wide_values() {
    assert_eq!(
        PhysicalAddress52::try_from(0x10_0000_0000_0000),
        Err(AddressError::OutOfRange)
    );
    assert_eq!(PhysicalAddress52::try_from(u64::MAX), Err(AddressError::OutOfRange));
}

#[test]
fn alignment_check_is_a_pure_predicate() {
    let a = PhysicalAddress52::try_from(0x20_0000).unwrap();
    assert!(a.check_alignment(4096));
    assert!(a.check_alignment(0x20_0000));
    assert!(!a.check_alignment(0x40_0000));
    let b = PhysicalAddress52::try_from(0x1001).unwrap();
    assert!(!b.check_alignment(4096));
    assert!(b.check_alignment(1));
}

#[test]
fn virtual_address_accepts_canonical_values() {
    assert_eq!(VirtualAddress::try_from(0).unwrap().as_u64(), 0);
    assert_eq!(
        VirtualAddress::try_from(0x0000_7fff_ffff_ffff).unwrap().as_u64(),
        0x0000_7fff_ffff_ffff
    );
    assert_eq!(
        VirtualAddress::try_from(0xffff_8000_0000_0000).unwrap().as_u64(),
        0xffff_8000_0000_0000
    );
    assert_eq!(VirtualAddress::try_from(u64::MAX).unwrap().as_u64(), u64::MAX);
}

#[test]
fn virtual_address_rejects_non_canonical_values() {
    // Bit 47 set without sign extension above it.
    assert_eq!(
        VirtualAddress::try_from(0x0000_8000_0000_0000),
        Err(AddressError::NonCanonical)
    );
    // Sign bits without bit 47.
    assert_eq!(
        VirtualAddress::try_from(0xffff_0000_0000_0000),
        Err(AddressError::NonCanonical)
    );
    // A single stray high bit.
    assert_eq!(
        VirtualAddress::try_from(0x0001_0000_0000_0000),
        Err(AddressError::NonCanonical)
    );
}

#[test]
fn five_level_canonical_boundary_is_bit_56() {
    // Valid under 5-level paging but not under 4-level paging.
    let v = 0x00ab_cdef_1234_5000;
    assert_eq!(
        VirtualAddress::try_from_with_mode(v, PagingMode::FourLevel),
        Err(AddressError::NonCanonical)
    );
    assert_eq!(
        VirtualAddress::try_from_with_mode(v, PagingMode::FiveLevel)
            .unwrap()
            .as_u64(),
        v
    );
    // Bit 56 set without sign extension above it.
    assert_eq!(
        VirtualAddress::try_from_with_mode(0x0100_0000_0000_0000, PagingMode::FiveLevel),
        Err(AddressError::NonCanonical)
    );
    // Fully sign-extended from bit 56.
    assert_eq!(
        VirtualAddress::try_from_with_mode(0xff00_0000_0000_0000, PagingMode::FiveLevel)
            .unwrap()
            .as_u64(),
        0xff00_0000_0000_0000
    );
}

#[test]
fn decomposition_reads_the_hardware_fields() {
    // offset 0x123, PT 0x45, PD 0x67, PDPT 0x89, PML4 0xab, PML5 0xcd:
    // 0xcd << 48 | 0xab << 39 | 0x89 << 30 | 0x67 << 21 | 0x45 << 12 | 0x123.
    let v: u64 = (0xcd << 48) | (0xab << 39) | (0x89 << 30) | (0x67 << 21) | (0x45 << 12) | 0x123;
    let a = VirtualAddress::try_from_with_mode(v, PagingMode::FiveLevel).unwrap();
    assert_eq!(a.offset(), 0x123);
    assert_eq!(a.table_index(), 0x45);
    assert_eq!(a.directory_index(), 0x67);
    assert_eq!(a.directory_ptr_index(), 0x89);
    assert_eq!(a.pml_4_index(), 0xab);
    assert_eq!(a.pml_5_index(), 0xcd);
}

#[test]
fn decomposition_recombines_to_the_input() {
    for &v in &[
        0u64,
        0x0000_7fff_ffff_ffff,
        0xffff_8000_0000_0000,
        0x0000_1234_5678_9abc,
        0xffff_ffff_ffff_ffff,
    ] {
        let a = VirtualAddress::try_from(v).unwrap();
        let rebuilt = (a.offset() as u64)
            | ((a.table_index() as u64) << 12)
            | ((a.directory_index() as u64) << 21)
            | ((a.directory_ptr_index() as u64) << 30)
            | ((a.pml_4_index() as u64) << 39);
        assert_eq!(rebuilt, v & 0xffff_ffff_ffff);
        let rebuilt5 = rebuilt | ((a.pml_5_index() as u64) << 48);
        assert_eq!(rebuilt5, v & 0x1ff_ffff_ffff_ffff);
    }
}

#[test]
fn null_and_default_are_zero() {
    assert_eq!(VirtualAddress::null().as_u64(), 0);
    assert_eq!(VirtualAddress::default().as_u64(), 0);
}
