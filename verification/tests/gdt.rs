use runix::gdt::{
    descriptor_words, double_fault_stack, init_gdt, init_tss, SegmentDescriptor, Selectors,
    StackRegion, DOUBLE_FAULT_IST_INDEX, DOUBLE_FAULT_STACK_SIZE, KERNEL_CODE64,
};

#[test]
fn table_holds_null_code_and_task_state() {
    let tss = SegmentDescriptor::System(0x0000_8900_1234_0067, 0x0000_0000_ffff_8000);
    let (gdt, selectors) = init_gdt(tss);
    assert_eq!(
        descriptor_words(&gdt),
        vec![0, 0x00af_9b00_0000_ffff, 0x0000_8900_1234_0067, 0x0000_0000_ffff_8000]
    );
    assert_eq!(selectors, Selectors { code: 8, tss: 16 });
    assert_eq!(KERNEL_CODE64, 0x00af_9b00_0000_ffff);
}

#[test]
fn selector_carries_the_privilege_level_of_the_descriptor() {
    let ring3 = SegmentDescriptor::System(0x0000_e900_0000_0067, 0);
    let (_, selectors) = init_gdt(ring3);
    assert_eq!(selectors, Selectors { code: 8, tss: 16 | 3 });
    let ring1 = SegmentDescriptor::User(0x0000_a000_0000_0000);
    let (gdt, selectors) = init_gdt(ring1);
    assert_eq!(selectors, Selectors { code: 8, tss: 16 | 1 });
    assert_eq!(descriptor_words(&gdt), vec![0, KERNEL_CODE64, 0x0000_a000_0000_0000]);
}

#[test]
fn double_fault_stack_is_sixteen_pages() {
    assert_eq!(DOUBLE_FAULT_STACK_SIZE, 65536);
    assert_eq!(
        double_fault_stack(0x20_0000),
        Some(StackRegion { start: 0x20_0000, top: 0x21_0000 })
    );
    assert_eq!(double_fault_stack(0), Some(StackRegion { start: 0, top: 0x1_0000 }));
    assert_eq!(
        double_fault_stack(0xffff_8000_0000_0000),
        Some(StackRegion { start: 0xffff_8000_0000_0000, top: 0xffff_8000_0001_0000 })
    );
}

#[test]
fn addresses_are_made_canonical() {
    assert_eq!(
        double_fault_stack(0x0000_8000_0000_0000),
        Some(StackRegion { start: 0xffff_8000_0000_0000, top: 0xffff_8000_0001_0000 })
    );
    assert_eq!(
        double_fault_stack(0x0000_7fff_ffff_f000),
        Some(StackRegion { start: 0x0000_7fff_ffff_f000, top: 0xffff_8000_0000_f000 })
    );
}

#[test]
fn stack_outside_the_address_space_is_refused() {
    assert_eq!(double_fault_stack(0x0001_0000_0000_0000), None);
    assert_eq!(double_fault_stack(0x8000_0000_0000_0000), None);
    assert_eq!(double_fault_stack(0xffff_ffff_ffff_f000), None);
    assert_eq!(double_fault_stack(0xffff_ffff_ffff_0000), None);
    assert_eq!(init_tss(0x0001_0000_0000_0000), None);
    assert_eq!(init_tss(0xffff_ffff_ffff_f000), None);
}

#[test]
fn task_state_record_points_slot_zero_at_the_top() {
    let tss = init_tss(0x20_0000).unwrap();
    assert_eq!(DOUBLE_FAULT_IST_INDEX, 0);
    assert_eq!(tss.interrupt_stack_table, [0x21_0000, 0, 0, 0, 0, 0, 0]);
    let high = init_tss(0x0000_8000_0000_0000).unwrap();
    assert_eq!(high.interrupt_stack_table, [0xffff_8000_0001_0000, 0, 0, 0, 0, 0, 0]);
}

#[test]
fn stack_region_bounds() {
    let region = StackRegion { start: 0x1000, top: 0x2000 };
    assert!(region.contains(0x1000));
    assert!(region.contains(0x1fff));
    assert!(region.contains(0x2000));
    assert!(!region.contains(0x0fff));
    assert!(!region.contains(0x2001));
}
