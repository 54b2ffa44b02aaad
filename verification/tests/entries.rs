use x86_arch::directory_ptr::{DirectoryPtrEntry, DirectoryPtrTable, DirectoryPtrValue};
use x86_arch::error::AlignmentError;
use x86_arch::page_entry::PageTableEntry;
use x86_arch::page_table::PageTable;
use x86_arch::physical_address::PhysicalAddress52;
use x86_arch::pml_5::{Pml5Entry, Pml5Table, Pml5Value};

#[test]
fn page_entry_flags_sit_at_their_bits() {
    let mut e = PageTableEntry::empty();
    assert_eq!(e.as_u64(), 0);
    assert!(!e.is_present());

    e.set_is_present(true);
    assert!(e.is_present());
    assert_eq!(e.as_u64(), 1);

    e.set_write_allowed(true);
    assert!(e.write_allowed());
    assert_eq!(e.as_u64(), 0b11);

    e.set_user_acess_allowed(true);
    assert!(e.user_access_allowed());
    e.set_write_through_enabled(true);
    assert!(e.write_through_enabled());
    e.set_cache_disabled(true);
    assert!(e.cache_disabled());
    e.set_accessed(true);
    assert!(e.accessed());
    e.set_is_dirty(true);
    assert!(e.is_dirty());
    e.set_references_page(true);
    assert!(e.references_page());
    e.set_is_global(true);
    assert!(e.is_global());
    assert_eq!(e.as_u64(), 0x1ff);

    e.set_accessed(false);
    assert!(!e.accessed());
    assert_eq!(e.as_u64(), 0x1df);
}

#[test]
fn page_entry_address_write_replaces_and_keeps_flags() {
    let mut e = PageTableEntry::empty();
    e.set_physical_address(0x1234_5000);
    assert_eq!(e.physical_address(), 0x1234_5000);
    assert!(!e.is_present());

    // A new address replaces the old one entirely.
    let mut f = PageTableEntry::from_u64(0x1000);
    f.set_physical_address(0x2000);
    assert_eq!(f.physical_address(), 0x2000);
    assert_eq!(f.as_u64(), 0x2000);

    // The flag bits below and above the address field are untouched.
    let mut g = PageTableEntry::from_u64(0x1ff);
    g.set_physical_address(0xabc_d000);
    assert_eq!(g.physical_address(), 0xabc_d000);
    assert_eq!(g.as_u64(), 0xabc_d1ff);
}

#[test]
fn pml5_entry_round_trips_an_aligned_table() {
    let address = PhysicalAddress52::try_from(0x7000).unwrap();
    let mut e = Pml5Entry::empty();
    assert_eq!(e.value(), Pml5Value::Absent);
    e.set_value(Pml5Value::Pml4Table(address)).unwrap();
    assert_eq!(e.value(), Pml5Value::Pml4Table(address));
    assert_eq!(e.value().pml4_table(), Some(address));
    assert_eq!(e.as_u64(), 0x7001);

    e.set_value(Pml5Value::Absent).unwrap();
    assert_eq!(e.value(), Pml5Value::Absent);
    assert_eq!(e.value().pml4_table(), None);
}

#[test]
fn pml5_entry_rejects_misaligned_table_and_stays_unchanged() {
    let good = PhysicalAddress52::try_from(0x3000).unwrap();
    let bad = PhysicalAddress52::try_from(0x3001).unwrap();
    let mut e = Pml5Entry::empty();
    e.set_value(Pml5Value::Pml4Table(good)).unwrap();
    let before = e.as_u64();
    assert_eq!(e.set_value(Pml5Value::Pml4Table(bad)), Err(AlignmentError));
    assert_eq!(e.as_u64(), before);
    assert_eq!(e.value(), Pml5Value::Pml4Table(good));
}

#[test]
fn directory_ptr_entry_tells_tables_from_huge_pages() {
    let table = PhysicalAddress52::try_from(0x9000).unwrap();
    let page = PhysicalAddress52::try_from(0x4000_0000).unwrap();

    let mut e = DirectoryPtrEntry::empty();
    assert_eq!(e.value(), DirectoryPtrValue::Absent);

    e.set_value(DirectoryPtrValue::DirectoryTable(table)).unwrap();
    assert_eq!(e.value(), DirectoryPtrValue::DirectoryTable(table));
    assert_eq!(e.value().directory_table(), Some(table));
    assert_eq!(e.value().page_1gb(), None);
    assert_eq!(e.as_u64(), 0x9001);

    e.set_value(DirectoryPtrValue::Page1Gb(page)).unwrap();
    assert_eq!(e.value(), DirectoryPtrValue::Page1Gb(page));
    assert_eq!(e.value().page_1gb(), Some(page));
    assert_eq!(e.value().directory_table(), None);
    assert_eq!(e.as_u64(), 0x4000_0081);

    e.set_value(DirectoryPtrValue::Absent).unwrap();
    assert_eq!(e.value(), DirectoryPtrValue::Absent);
}

#[test]
fn directory_ptr_entry_alignment_failures_leave_it_unchanged() {
    let misaligned_table = PhysicalAddress52::try_from(0x9010).unwrap();
    // 2 MiB aligned, but a 1 GiB page needs 1 GiB alignment.
    let misaligned_page = PhysicalAddress52::try_from(0x20_0000).unwrap();

    let mut e = DirectoryPtrEntry::from_u64(0x9001);
    assert_eq!(
        e.set_value(DirectoryPtrValue::DirectoryTable(misaligned_table)),
        Err(AlignmentError)
    );
    assert_eq!(e.as_u64(), 0x9001);
    assert_eq!(
        e.set_value(DirectoryPtrValue::Page1Gb(misaligned_page)),
        Err(AlignmentError)
    );
    assert_eq!(e.as_u64(), 0x9001);
}

#[test]
fn page_table_holds_512_zeroed_entries() {
    let t = PageTable::new();
    assert_eq!(t.entry(0).as_u64(), 0);
    assert_eq!(t.entry(511).as_u64(), 0);
    assert!(t.get(511).is_some());
    assert!(t.get(512).is_none());
    assert_eq!(t.entries_vec().len(), 512);
}

#[test]
fn page_table_set_entry_replaces_one_slot() {
    let mut t = PageTable::new();
    t.set_entry(7, PageTableEntry::from_u64(0xabc_d000 | 3));
    assert_eq!(t.entry(7).as_u64(), 0xabc_d003);
    assert_eq!(t.entry(6).as_u64(), 0);
    assert_eq!(t.entry(8).as_u64(), 0);
    let all = t.entries_vec();
    assert_eq!(all[7].as_u64(), 0xabc_d003);
}

#[test]
fn pml5_table_get_set_iter() {
    let mut t = Pml5Table::new();
    assert_eq!(t.get(0).unwrap().as_u64(), 0);
    assert!(t.get(512).is_none());
    t.set(3, Pml5Entry::from_u64(0x5001));
    assert_eq!(t.get(3).unwrap().as_u64(), 0x5001);
    let all = t.iter();
    assert_eq!(all.len(), 512);
    assert_eq!(all[3].as_u64(), 0x5001);
    assert_eq!(all[4].as_u64(), 0);
}

#[test]
fn directory_ptr_table_get_set_iter() {
    let mut t = DirectoryPtrTable::new();
    assert_eq!(t.get(511).unwrap().as_u64(), 0);
    assert!(t.get(513).is_none());
    t.set(511, DirectoryPtrEntry::from_u64(0x4000_0081));
    assert_eq!(t.get(511).unwrap().as_u64(), 0x4000_0081);
    let all = t.iter();
    assert_eq!(all.len(), 512);
    assert_eq!(all[511].as_u64(), 0x4000_0081);
}
