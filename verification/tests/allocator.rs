use runix::allocator::{init, PAGE_SIZE};

#[test]
fn first_page_after_the_boot_information() {
    assert_eq!(PAGE_SIZE, 4096);
    assert_eq!(init(0x1000, 0x10), Some(0x2000));
    assert_eq!(init(0x1000, 0x1000), Some(0x2000));
    assert_eq!(init(0x1000, 0x1001), Some(0x3000));
    assert_eq!(init(0x10_0008, 0x338), Some(0x10_1000));
}

#[test]
fn aligned_end_is_its_own_page() {
    assert_eq!(init(0x1000, 0), Some(0x1000));
    assert_eq!(init(0, 0), Some(0));
    assert_eq!(init(0x0ff0, 0x10), Some(0x1000));
}

#[test]
fn end_beyond_the_address_space() {
    assert_eq!(init(usize::MAX - 5, 10), None);
    assert_eq!(init(usize::MAX, 0), None);
    assert_eq!(init(usize::MAX - 0xfff, 1), None);
    assert_eq!(init(usize::MAX - 0xfff, 0), Some(usize::MAX - 0xfff));
}
