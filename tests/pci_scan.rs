use test_os::device::{
    config_address, decode_bar, decode_class, find_ahci_controller, find_controller, find_scsi_controller,
    get_all_devices, PciConfigSpace, PCI_ABSENT,
};

fn add_device(cfg: &mut PciConfigSpace, bus: u8, slot: u8, id: u32, class_word: u32) {
    cfg.set_register(bus, slot, 0, 0, id);
    cfg.set_register(bus, slot, 0, 8, class_word);
}

#[test]
fn config_address_layout() {
    assert_eq!(config_address(1, 2, 3, 0x27), 0x8001_1324);
    assert_eq!(config_address(0, 0, 0, 0), 0x8000_0000);
}

#[test]
fn class_word_is_split_into_fields() {
    let c = decode_class(0x0106_0102);
    assert_eq!((c.class_code, c.subclass, c.prog_if), (0x01, 0x06, 0x01));
}

#[test]
fn absent_device_is_never_reported() {
    let mut cfg = PciConfigSpace::new();
    // Class register says AHCI, but the vendor word reads as absent.
    cfg.set_register(0, 3, 0, 8, 0x0106_0100);
    cfg.set_register(0, 3, 0, 0x24, 0xFEBF_1000);
    assert_eq!(cfg.read(0, 3, 0, 0), PCI_ABSENT);
    assert_eq!(find_ahci_controller(&cfg), None);
    add_device(&mut cfg, 2, 7, 0x2922_8086, 0x0106_0100);
    cfg.set_register(2, 7, 0, 0x24, 0xFEBF_1001);
    assert_eq!(find_ahci_controller(&cfg), Some((2, 7, 0, 0xFEBF_1000)));
}

#[test]
fn lowest_matching_location_wins() {
    let mut cfg = PciConfigSpace::new();
    add_device(&mut cfg, 3, 1, 0x1234_8086, 0x0106_0100);
    cfg.set_register(3, 1, 0, 0x24, 0xC000_0000);
    add_device(&mut cfg, 1, 30, 0x1234_8086, 0x0106_0100);
    cfg.set_register(1, 30, 0, 0x24, 0xD000_0000);
    add_device(&mut cfg, 1, 2, 0x1234_8086, 0x0101_8000);
    assert_eq!(find_controller(&cfg, 0x01, 0x06, 0x01, 0x24), Some((1, 30, 0, 0xD000_0000)));
    // No register recorded at 0x10: it reads as all ones, a 32-bit window.
    assert_eq!(find_controller(&cfg, 0x01, 0x01, 0x80, 0x10), Some((1, 2, 0, 0xFFFF_FFF0)));
    assert_eq!(find_controller(&cfg, 0x02, 0x00, 0x00, 0x10), None);
}

#[test]
fn sixty_four_bit_bar_combines_both_dwords() {
    assert_eq!(decode_bar(0xFEBF_100C, 0x0000_0001), 0x1_FEBF_1000);
    assert_eq!(decode_bar(0x1234_5674, 0xAB), (0x1234_5670u64) | (0xABu64 << 32));
    // A 32-bit window ignores the next dword.
    assert_eq!(decode_bar(0xFEBF_1008, 0xFFFF_FFFF), 0xFEBF_1000);
}

#[test]
fn scsi_controller_uses_first_usable_bar() {
    let mut cfg = PciConfigSpace::new();
    add_device(&mut cfg, 0, 4, 0x1004_1AF4, 0x0100_0000);
    cfg.set_register(0, 4, 0, 0x10, 0);
    cfg.set_register(0, 4, 0, 0x14, 0xFEB0_0004);
    cfg.set_register(0, 4, 0, 0x18, 0x0000_0002);
    assert_eq!(find_scsi_controller(&cfg), Some((0, 4, 0, 0x2_FEB0_0000)));
}

#[test]
fn scsi_controller_without_usable_bar_is_skipped() {
    let mut cfg = PciConfigSpace::new();
    add_device(&mut cfg, 0, 1, 0x1004_1AF4, 0x0100_0000);
    for k in 0..6u8 {
        cfg.set_register(0, 1, 0, 0x10 + 4 * k, 0);
    }
    assert_eq!(find_scsi_controller(&cfg), None);
    add_device(&mut cfg, 5, 0, 0x1004_1AF4, 0x0100_0000);
    cfg.set_register(5, 0, 0, 0x24, 0xE000_0001);
    assert_eq!(find_scsi_controller(&cfg), Some((5, 0, 0, 0xE000_0000)));
}

#[test]
fn all_present_functions_are_listed_in_scan_order() {
    let mut cfg = PciConfigSpace::new();
    cfg.set_register(0, 1, 2, 0, 0x1111_8086);
    cfg.set_register(0, 1, 2, 8, 0x0C03_3000);
    cfg.set_register(0, 0, 0, 0, 0x1237_8086);
    cfg.set_register(4, 0, 0, 0, 0x0000_FFFF);
    let devices = get_all_devices(&cfg);
    assert_eq!(devices.len(), 2);
    assert_eq!((devices[0].bus, devices[0].slot, devices[0].function), (0, 0, 0));
    assert_eq!((devices[0].vendor_id, devices[0].device_id), (0x8086, 0x1237));
    assert_eq!((devices[1].bus, devices[1].slot, devices[1].function), (0, 1, 2));
    assert_eq!(devices[1].device_id, 0x1111);
    assert_eq!((devices[1].class.class_code, devices[1].class.subclass, devices[1].class.prog_if), (0x0C, 0x03, 0x30));
}
