use x86_arch::descriptors;
use x86_arch::interrupts;
use x86_arch::privilege::ProtectionRing;
use x86_arch::segmentation::GdtPointer;
use x86_arch::selector::Selector;

#[test]
fn selector_packs_its_three_fields() {
    let s = Selector::new(5, true, ProtectionRing::Three);
    assert_eq!(s.index(), 5);
    assert!(s.is_local());
    assert_eq!(s.privilege_level(), ProtectionRing::Three);
    assert_eq!(s.as_u16(), (5 << 3) | 4 | 3);

    let mut t = Selector::default();
    assert_eq!(t.as_u16(), 0);
    t.set_index(9);
    assert_eq!(t.index(), 9);
    t.set_privilege_level(ProtectionRing::One);
    assert_eq!(t.privilege_level(), ProtectionRing::One);
    assert_eq!(t.index(), 9);
    t.set_is_local(true);
    assert!(t.is_local());
    assert_eq!(Selector::from_u16(t.as_u16()), t);
}

#[test]
fn protection_ring_encodings() {
    assert_eq!(ProtectionRing::Zero.as_u8(), 0);
    assert_eq!(ProtectionRing::Three.as_u8(), 3);
    assert_eq!(ProtectionRing::try_from(2), Ok(ProtectionRing::Two));
    assert_eq!(ProtectionRing::try_from(4), Err(()));
}

#[test]
fn descriptor_offset_round_trip() {
    let mut d = descriptors::Descriptor::new();
    assert_eq!(d.offset(), 0);
    d.set_offset(0xdead_beef_1234_5678);
    assert_eq!(d.offset(), 0xdead_beef_1234_5678);
    // Rewriting replaces all three offset fields.
    d.set_offset(0x1111);
    assert_eq!(d.offset(), 0x1111);
}

#[test]
fn descriptor_fields_do_not_disturb_each_other() {
    let mut d = descriptors::Descriptor::new();
    d.set_offset(0xffff_ffff_ffff_ffff);
    d.set_segment_selector(Selector::new(2, false, ProtectionRing::Zero));
    d.set_privilege_level(ProtectionRing::Two);
    d.set_ist(descriptors::IstIndex::Four);
    d.set_descriptor_type(descriptors::DescriptorType::Trap);
    d.set_is_present(true);

    assert_eq!(d.offset(), 0xffff_ffff_ffff_ffff);
    assert_eq!(d.segment_selector().index(), 2);
    assert_eq!(d.privilege_level(), ProtectionRing::Two);
    assert_eq!(d.ist(), descriptors::IstIndex::Four);
    assert_eq!(d.descriptor_type(), descriptors::DescriptorType::Trap);
    assert!(d.is_present());

    d.set_is_present(false);
    assert!(!d.is_present());
    assert_eq!(d.ist(), descriptors::IstIndex::Four);
}

#[test]
fn descriptor_u128_round_trip() {
    let raw: u128 = 0x1234_5678_9abc_def0_1122_3344_5566_7788;
    let d = descriptors::Descriptor::from_u128(raw);
    assert_eq!(d.as_u128(), raw);
    assert_eq!(descriptors::Descriptor::new().as_u128(), 0);
}

#[test]
fn descriptor_type_encodings() {
    assert_eq!(descriptors::DescriptorType::Interrupt.as_u32(), 0xe00);
    assert_eq!(descriptors::DescriptorType::Trap.as_u32(), 0xf00);
    assert_eq!(
        descriptors::DescriptorType::try_from(0xe00),
        Ok(descriptors::DescriptorType::Interrupt)
    );
    assert_eq!(descriptors::DescriptorType::try_from(0x500), Err(()));
    assert_eq!(
        descriptors::IstIndex::try_from(6),
        Ok(descriptors::IstIndex::Seven)
    );
    assert_eq!(descriptors::IstIndex::try_from(7), Err(()));
    assert_eq!(descriptors::IstIndex::One.as_u8(), 0);
}

#[test]
fn interrupt_descriptor_admits_task_kind() {
    let mut d = interrupts::Descriptor::new();
    d.set_offset(0xabcd_ef01_2345_6789);
    d.set_descriptor_type(interrupts::DescriptorType::Task);
    d.set_is_present(true);
    assert_eq!(d.offset(), 0xabcd_ef01_2345_6789);
    assert_eq!(d.descriptor_type(), interrupts::DescriptorType::Task);
    assert!(d.is_present());

    assert_eq!(interrupts::DescriptorType::Task.as_u32(), 0x500);
    assert_eq!(
        interrupts::DescriptorType::try_from(0x500),
        Ok(interrupts::DescriptorType::Task)
    );
    assert_eq!(interrupts::DescriptorType::try_from(0x600), Err(()));

    let raw: u128 = 0xffee_ddcc_bbaa_9988_7766_5544_3322_1100;
    assert_eq!(interrupts::Descriptor::from_u128(raw).as_u128(), raw);
}

#[test]
fn interrupt_descriptor_selector_and_ist() {
    let mut d = interrupts::Descriptor::new();
    d.set_segment_selector(Selector::new(1, false, ProtectionRing::Zero));
    d.set_ist(x86_arch::descriptors::IstIndex::Two);
    d.set_privilege_level(ProtectionRing::Three);
    assert_eq!(d.segment_selector().index(), 1);
    assert_eq!(d.ist(), x86_arch::descriptors::IstIndex::Two);
    assert_eq!(d.privilege_level(), ProtectionRing::Three);
}

#[test]
fn gdt_pointer_limits() {
    let p = GdtPointer::new(0x7f, 0xffff_8000_0010_0000);
    assert_eq!(p.limit(), 0x7f);
    assert_eq!(p.entries(), 0xffff_8000_0010_0000);

    let q = GdtPointer::for_table(0x2000, 3).unwrap();
    assert_eq!(q.limit(), 3 * 8 - 1);
    assert_eq!(q.entries(), 0x2000);

    assert_eq!(GdtPointer::for_table(0x2000, 0), Err(()));
    assert_eq!(GdtPointer::for_table(0x2000, 8193), Err(()));
    assert_eq!(GdtPointer::for_table(0x2000, 8192).unwrap().limit(), 0xffff);
}
