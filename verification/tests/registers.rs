use x86_arch::cr4::Value;
use x86_arch::init::{Args, CURRENT_VERSION};
use x86_arch::interrupt_enable::InterruptEnableValue;
use x86_arch::memory::{MemoryMap, MemoryPages, PAGE_SIZE, pages_for};
use x86_arch::paging_mode::PagingMode;
use x86_arch::storage::{NodeInfo, NodeType};

#[test]
fn cr4_la57_sits_at_bit_12() {
    let mut v = Value::new();
    assert!(!v.la57());
    v.set_la57(true);
    assert!(v.la57());
    assert_eq!(v.as_u64(), 1 << 12);
    v.set_la57(false);
    assert_eq!(v.as_u64(), 0);
}

#[test]
fn cr4_tsd_sits_at_bit_2() {
    let mut v = Value::from_u64(1 << 12);
    assert!(!v.tsd());
    v.set_tsd(true);
    assert!(v.tsd());
    assert_eq!(v.as_u64(), (1 << 12) | (1 << 2));
}

#[test]
fn cr4_selects_the_paging_mode() {
    let mut v = Value::new();
    assert_eq!(v.paging_mode(), PagingMode::FourLevel);
    v.set_la57(true);
    assert_eq!(v.paging_mode(), PagingMode::FiveLevel);
    assert_eq!(PagingMode::FourLevel.depth(), 4);
    assert_eq!(PagingMode::FiveLevel.depth(), 5);
    assert_eq!(PagingMode::from_la57(false), PagingMode::FourLevel);
    assert_eq!(PagingMode::from_la57(true), PagingMode::FiveLevel);
}

#[test]
fn interrupt_enable_bits_are_independent() {
    let mut v = InterruptEnableValue::new();
    assert_eq!(v.as_u8(), 0);

    v.set_data_received_interrupt(true);
    assert!(v.received_data_available_interrupt());
    assert_eq!(v.as_u8(), 1);

    v.set_transmitter_empty_interrupt(true);
    assert!(v.transmitter_holding_register_empty_interrupt());
    assert_eq!(v.as_u8(), 0b11);

    v.set_line_status_interrupt(true);
    assert!(v.line_status_interrupt());
    v.set_modem_status_interrupt(true);
    assert!(v.modem_status_interrupt());
    v.set_sleep_mode_enabled(true);
    assert!(v.sleep_mode_enabled());
    v.set_low_power_mode_enabled(true);
    assert!(v.low_power_mode_enabled());
    assert_eq!(v.as_u8(), 0b11_1111);

    v.set_transmitter_empty_interrupt(false);
    assert!(!v.transmitter_holding_register_empty_interrupt());
    assert_eq!(v.as_u8(), 0b11_1101);

    let w = InterruptEnableValue::from_u8(0b10_0001);
    assert!(w.received_data_available_interrupt());
    assert!(!w.sleep_mode_enabled());
    assert!(w.low_power_mode_enabled());
}

#[test]
fn args_version_check() {
    let args = Args::default();
    assert_eq!(args.version, CURRENT_VERSION);
    assert!(!args.is_outdated());
    let old = Args { version: 0 };
    assert!(old.is_outdated());
    let newer = Args { version: CURRENT_VERSION + 1 };
    assert!(newer.is_outdated());
}

#[test]
fn node_types_and_info() {
    assert!(NodeType::File.is_file());
    assert!(!NodeType::File.is_directory());
    assert!(NodeType::Directory.is_directory());
    assert!(!NodeType::Directory.is_file());

    let file = NodeInfo::File(1234);
    assert_eq!(file.node_type(), NodeType::File);
    assert_eq!(file.size(), Some(1234));
    let dir = NodeInfo::Directory;
    assert_eq!(dir.node_type(), NodeType::Directory);
    assert_eq!(dir.size(), None);
}

#[test]
fn memory_map_records_key_and_count() {
    let map = MemoryMap::new(42, 17);
    assert_eq!(map.key(), 42);
    assert_eq!(map.count(), 17);
}

#[test]
fn memory_pages_lengths() {
    let pages = MemoryPages::new(0x10_0000, 3);
    assert_eq!(pages.address(), 0x10_0000);
    assert_eq!(pages.len(), 3);
    assert_eq!(pages.byte_len(), 3 * PAGE_SIZE);
}

#[test]
fn pages_for_rounds_up() {
    assert_eq!(pages_for(0), 0);
    assert_eq!(pages_for(1), 1);
    assert_eq!(pages_for(4095), 1);
    assert_eq!(pages_for(4096), 1);
    assert_eq!(pages_for(4097), 2);
    assert_eq!(pages_for(3 * 4096), 3);
}
