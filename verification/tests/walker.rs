use x86_arch::operations::{
    PagingAllocator, PagingError, RangeAllocator, TableArena, translate, unmap,
};
use x86_arch::operations;
use x86_arch::paging_mode::PagingMode;
use x86_arch::physical_address::PhysicalAddress52;
use x86_arch::virtual_address::VirtualAddress;

const ROOT: u64 = 0x1000;
const POOL_START: u64 = 0x10_0000;
const POOL_END: u64 = 0x20_0000;

fn four_level_setup() -> (TableArena, PhysicalAddress52, RangeAllocator) {
    let mut arena = TableArena::new();
    let root = PhysicalAddress52::try_from(ROOT).unwrap();
    arena.create_table(root, 4);
    (arena, root, RangeAllocator::new(POOL_START, POOL_END))
}

#[test]
fn map_then_translate_returns_the_mapped_address() {
    let (mut arena, root, mut allocator) = four_level_setup();
    let phys = PhysicalAddress52::try_from(0x20_0000).unwrap();
    let virt = VirtualAddress::try_from(0x0000_0000_0040_0000).unwrap();

    operations::map(&mut arena, root, phys, virt, PagingMode::FourLevel, &mut allocator).unwrap();
    let got = translate(&arena, root, virt, PagingMode::FourLevel).unwrap();
    assert_eq!(got, phys);
}

#[test]
fn first_map_allocates_three_tables_and_translate_none() {
    let (mut arena, root, mut allocator) = four_level_setup();
    let phys = PhysicalAddress52::try_from(0x20_0000).unwrap();
    let virt = VirtualAddress::try_from(0x0000_0000_0040_0000).unwrap();

    operations::map(&mut arena, root, phys, virt, PagingMode::FourLevel, &mut allocator).unwrap();
    // One table for each absent intermediate level: PDPT, PD, PT.
    assert_eq!(allocator.allocations, 3);

    let got = translate(&arena, root, virt, PagingMode::FourLevel).unwrap();
    assert_eq!(got.as_u64(), 0x20_0000);
    // The read-only walk allocates nothing.
    assert_eq!(allocator.allocations, 3);
}

#[test]
fn map_reuses_existing_intermediate_tables() {
    let (mut arena, root, mut allocator) = four_level_setup();
    let phys_a = PhysicalAddress52::try_from(0x20_0000).unwrap();
    let phys_b = PhysicalAddress52::try_from(0x30_0000).unwrap();
    let virt_a = VirtualAddress::try_from(0x40_0000).unwrap();
    let virt_b = VirtualAddress::try_from(0x40_1000).unwrap();

    operations::map(&mut arena, root, phys_a, virt_a, PagingMode::FourLevel, &mut allocator).unwrap();
    assert_eq!(allocator.allocations, 3);
    // Same page table: nothing more to allocate.
    operations::map(&mut arena, root, phys_b, virt_b, PagingMode::FourLevel, &mut allocator).unwrap();
    assert_eq!(allocator.allocations, 3);

    assert_eq!(
        translate(&arena, root, virt_a, PagingMode::FourLevel).unwrap(),
        phys_a
    );
    assert_eq!(
        translate(&arena, root, virt_b, PagingMode::FourLevel).unwrap(),
        phys_b
    );
}

#[test]
fn remap_overwrites_the_leaf_last_write_wins() {
    let (mut arena, root, mut allocator) = four_level_setup();
    let phys_a = PhysicalAddress52::try_from(0x20_0000).unwrap();
    let phys_b = PhysicalAddress52::try_from(0x50_0000).unwrap();
    let virt = VirtualAddress::try_from(0x40_0000).unwrap();

    operations::map(&mut arena, root, phys_a, virt, PagingMode::FourLevel, &mut allocator).unwrap();
    operations::map(&mut arena, root, phys_b, virt, PagingMode::FourLevel, &mut allocator).unwrap();
    assert_eq!(
        translate(&arena, root, virt, PagingMode::FourLevel).unwrap(),
        phys_b
    );
}

#[test]
fn map_unmap_translate_fails_with_page_not_found() {
    let (mut arena, root, mut allocator) = four_level_setup();
    let phys = PhysicalAddress52::try_from(0x20_0000).unwrap();
    let virt = VirtualAddress::try_from(0x40_0000).unwrap();

    operations::map(&mut arena, root, phys, virt, PagingMode::FourLevel, &mut allocator).unwrap();
    unmap(&mut arena, root, virt, PagingMode::FourLevel).unwrap();
    assert_eq!(
        translate(&arena, root, virt, PagingMode::FourLevel),
        Err(PagingError::PageNotFound)
    );
}

#[test]
fn unmap_twice_repeats_the_same_outcome() {
    // On a root with no intermediate tables the walk fails both times
    // with the same error and no state change.
    let (mut arena, root, _allocator) = four_level_setup();
    let virt = VirtualAddress::try_from(0x40_0000).unwrap();
    let first = unmap(&mut arena, root, virt, PagingMode::FourLevel);
    let second = unmap(&mut arena, root, virt, PagingMode::FourLevel);
    assert_eq!(first, Err(PagingError::PageNotFound));
    assert_eq!(second, first);

    // With the path in place both calls succeed: clearing an already
    // absent leaf is not distinguished from clearing a live mapping.
    let (mut arena, root, mut allocator) = four_level_setup();
    let phys = PhysicalAddress52::try_from(0x20_0000).unwrap();
    operations::map(&mut arena, root, phys, virt, PagingMode::FourLevel, &mut allocator).unwrap();
    assert_eq!(unmap(&mut arena, root, virt, PagingMode::FourLevel), Ok(()));
    assert_eq!(unmap(&mut arena, root, virt, PagingMode::FourLevel), Ok(()));
}

#[test]
fn map_through_a_huge_page_fails_and_mutates_nothing() {
    let (mut arena, root, mut allocator) = four_level_setup();
    let phys = PhysicalAddress52::try_from(0x20_0000).unwrap();
    let virt = VirtualAddress::try_from(0x40_0000).unwrap();

    // Build the path, then put a huge-page leaf into the page directory
    // where the walk expects a child table.  The allocator hands tables
    // out in order: PDPT, PD, PT.
    operations::map(&mut arena, root, phys, virt, PagingMode::FourLevel, &mut allocator).unwrap();
    let pd = POOL_START + 4096;
    let huge = PhysicalAddress52::try_from(0x4000_0000).unwrap();
    arena
        .write_huge_entry(pd, virt.directory_index(), huge)
        .unwrap();

    // A second address through the same page-directory entry.
    let virt_b = VirtualAddress::try_from(0x40_1000).unwrap();
    let phys_b = PhysicalAddress52::try_from(0x30_0000).unwrap();

    let snapshot: Vec<(u64, u16, Option<u64>)> = entry_snapshot(&arena, &virt_b);
    assert_eq!(
        operations::map(&mut arena, root, phys_b, virt_b, PagingMode::FourLevel, &mut allocator),
        Err(PagingError::PageNotFound)
    );
    assert_eq!(entry_snapshot(&arena, &virt_b), snapshot);
    // Nothing was allocated for the refused mapping.
    assert_eq!(allocator.allocations, 3);
}

fn entry_snapshot(arena: &TableArena, virt: &VirtualAddress) -> Vec<(u64, u16, Option<u64>)> {
    let mut out = Vec::new();
    let tables = [ROOT, POOL_START, POOL_START + 4096, POOL_START + 2 * 4096];
    let indices = [
        virt.pml_4_index(),
        virt.directory_ptr_index(),
        virt.directory_index(),
        virt.table_index(),
    ];
    for (&t, &i) in tables.iter().zip(indices.iter()) {
        out.push((t, i, arena.read_entry(t, i)));
    }
    out
}

#[test]
fn allocation_failure_leaves_the_address_unmapped() {
    // An exhausted allocator: the very first missing level cannot be
    // created.
    let mut arena = TableArena::new();
    let root = PhysicalAddress52::try_from(ROOT).unwrap();
    arena.create_table(root, 4);
    let mut empty = RangeAllocator::new(POOL_START, POOL_START);
    let phys = PhysicalAddress52::try_from(0x20_0000).unwrap();
    let virt = VirtualAddress::try_from(0x40_0000).unwrap();
    assert_eq!(
        operations::map(&mut arena, root, phys, virt, PagingMode::FourLevel, &mut empty),
        Err(PagingError::AllocationFailed)
    );
    assert_eq!(
        translate(&arena, root, virt, PagingMode::FourLevel),
        Err(PagingError::PageNotFound)
    );

    // Room for one table only: the walk gets one level further and then
    // fails, still leaving the address unmapped.
    let mut one_frame = RangeAllocator::new(POOL_START, POOL_START + 4096);
    assert_eq!(
        operations::map(&mut arena, root, phys, virt, PagingMode::FourLevel, &mut one_frame),
        Err(PagingError::AllocationFailed)
    );
    assert_eq!(one_frame.allocations, 1);
    assert_eq!(
        translate(&arena, root, virt, PagingMode::FourLevel),
        Err(PagingError::PageNotFound)
    );
}

#[test]
fn five_level_walk_goes_one_level_deeper() {
    let mut arena = TableArena::new();
    let root = PhysicalAddress52::try_from(ROOT).unwrap();
    arena.create_table(root, 5);
    let mut allocator = RangeAllocator::new(POOL_START, POOL_END);

    let phys = PhysicalAddress52::try_from(0x20_0000).unwrap();
    let virt =
        VirtualAddress::try_from_with_mode(0x00ab_cdef_1234_5000, PagingMode::FiveLevel).unwrap();

    operations::map(&mut arena, root, phys, virt, PagingMode::FiveLevel, &mut allocator).unwrap();
    // PML4, PDPT, PD and PT were all missing.
    assert_eq!(allocator.allocations, 4);
    assert_eq!(
        translate(&arena, root, virt, PagingMode::FiveLevel).unwrap(),
        phys
    );

    unmap(&mut arena, root, virt, PagingMode::FiveLevel).unwrap();
    assert_eq!(
        translate(&arena, root, virt, PagingMode::FiveLevel),
        Err(PagingError::PageNotFound)
    );
}

#[test]
fn arena_reports_its_tables() {
    let (mut arena, _root, _allocator) = four_level_setup();
    assert!(arena.contains(ROOT));
    assert!(!arena.contains(0x2000));
    assert_eq!(arena.level_of(ROOT), Some(4));
    assert_eq!(arena.level_of(0x2000), None);
    assert_eq!(arena.read_entry(ROOT, 0), Some(0));
    assert_eq!(arena.read_entry(ROOT, 512), None);
    assert_eq!(arena.read_entry(0x2000, 0), None);

    let second = PhysicalAddress52::try_from(0x3000).unwrap();
    arena.create_table(second, 1);
    assert_eq!(arena.level_of(0x3000), Some(1));
}

#[test]
fn allocator_hands_out_frames_in_order() {
    let mut arena = TableArena::new();
    let mut allocator = RangeAllocator::new(POOL_START, POOL_START + 3 * 4096);
    let a = allocator.allocate_page_table(&mut arena, 1).unwrap();
    let b = allocator.allocate_page_table(&mut arena, 2).unwrap();
    assert_eq!(a.as_u64(), POOL_START);
    assert_eq!(b.as_u64(), POOL_START + 4096);
    assert_eq!(allocator.allocations, 2);
    assert_eq!(arena.level_of(POOL_START), Some(1));
    assert_eq!(arena.level_of(POOL_START + 4096), Some(2));
    let _c = allocator.allocate_page_table(&mut arena, 3).unwrap();
    assert_eq!(
        allocator.allocate_page_table(&mut arena, 3),
        Err(PagingError::AllocationFailed)
    );
    assert_eq!(allocator.allocations, 3);
}
