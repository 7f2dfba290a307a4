use runix::pci::{
    brute_force, check_bus, check_device, check_vendor, config_address, config_word, Device,
    CONFIG_ADDRESS, CONFIG_DATA,
};

#[test]
fn configuration_ports() {
    assert_eq!(CONFIG_ADDRESS, 0xcf8);
    assert_eq!(CONFIG_DATA, 0xcfc);
}

#[test]
fn address_of_a_configuration_word() {
    assert_eq!(config_address(0, 0, 0, 0), 0x8000_0000);
    assert_eq!(config_address(1, 2, 3, 0x0e), 0x8001_130c);
    assert_eq!(config_address(0xff, 0x1f, 7, 0xff), 0x80ff_fffc);
    assert_eq!(config_address(0, 31, 0, 2), 0x8000_f800);
    assert_eq!(config_address(0, 0, 0, 3), 0x8000_0000);
}

#[test]
fn address_fields_overlap_for_large_numbers() {
    assert_eq!(config_address(0, 32, 0, 0), 0x8001_0000);
    assert_eq!(config_address(0, 0, 8, 0), 0x8000_0800);
}

#[test]
fn word_of_the_double_word() {
    assert_eq!(config_word(0x1234_5678, 0), 0x5678);
    assert_eq!(config_word(0x1234_5678, 1), 0x5678);
    assert_eq!(config_word(0x1234_5678, 2), 0x1234);
    assert_eq!(config_word(0x1234_5678, 3), 0x1234);
    assert_eq!(config_word(0x1234_5678, 0x0c), 0x5678);
    assert_eq!(config_word(0x1234_5678, 0x0e), 0x1234);
    assert_eq!(config_word(0xffff_0000, 0), 0);
    assert_eq!(config_word(0xffff_0000, 2), 0xffff);
}

#[test]
fn vendor_of_an_empty_slot() {
    assert_eq!(check_vendor(0xffff), None);
    assert_eq!(check_vendor(0x8086), Some(0x8086));
    assert_eq!(check_vendor(0), Some(0));
    assert_eq!(check_vendor(0xfffe), Some(0xfffe));
}

#[test]
fn device_of_a_slot() {
    assert_eq!(check_device(0, 3, 0xffff, 0x1234, 0x0080), None);
    assert_eq!(
        check_device(0, 3, 0x8086, 0x1237, 0x0000),
        Some(Device {
            bus: 0,
            slot: 3,
            vendor: 0x8086,
            device: 0x1237,
            header_type: 0,
            multi_function: false,
        })
    );
    assert_eq!(
        check_device(2, 31, 0x1af4, 0x1000, 0x0080),
        Some(Device {
            bus: 2,
            slot: 31,
            vendor: 0x1af4,
            device: 0x1000,
            header_type: 0x80,
            multi_function: true,
        })
    );
    assert!(check_device(0, 0, 1, 1, 0xff7f).map(|d| !d.multi_function).unwrap());
    assert!(check_device(0, 0, 1, 1, 0x0081).map(|d| d.multi_function).unwrap());
}

#[test]
fn scan_of_one_bus_visits_its_slots_in_order() {
    let mut scan = check_bus(7);
    for slot in 0..32u8 {
        assert_eq!(scan.next(), Some((7, slot)));
    }
    assert_eq!(scan.next(), None);
    assert_eq!(scan.next(), None);
}

#[test]
fn scan_of_the_last_bus() {
    let mut scan = check_bus(255);
    assert_eq!(scan.next(), Some((255, 0)));
    let mut count = 1;
    while let Some((bus, _)) = scan.next() {
        assert_eq!(bus, 255);
        count += 1;
    }
    assert_eq!(count, 32);
}

#[test]
fn full_scan_visits_buses_0_to_254() {
    let mut scan = brute_force();
    let mut visited = Vec::new();
    while let Some(visit) = scan.next() {
        visited.push(visit);
    }
    assert_eq!(visited.len(), 255 * 32);
    assert_eq!(visited[0], (0, 0));
    assert_eq!(visited[1], (0, 1));
    assert_eq!(visited[31], (0, 31));
    assert_eq!(visited[32], (1, 0));
    assert_eq!(visited[255 * 32 - 1], (254, 31));
    for (n, visit) in visited.iter().enumerate() {
        assert_eq!(*visit, ((n / 32) as u8, (n % 32) as u8));
    }
    assert_eq!(scan.next(), None);
}
