use trap_core::mmio::Store;

#[test]
fn store_knows_its_address() {
    assert_eq!(Store::Byte { addr: 0x1000_0000, value: 7 }.addr(), 0x1000_0000);
    assert_eq!(Store::Word { addr: 0x10_0000, value: 7 }.addr(), 0x10_0000);
    assert_eq!(Store::Double { addr: u64::MAX, value: 7 }.addr(), u64::MAX);
}

#[test]
fn store_value_is_widened_without_change() {
    assert_eq!(Store::Byte { addr: 0, value: 0xff }.value(), 0xff);
    assert_eq!(Store::Word { addr: 0, value: 0x5555 }.value(), 0x5555);
    assert_eq!(Store::Word { addr: 0, value: u32::MAX }.value(), 0xffff_ffff);
    assert_eq!(Store::Double { addr: 0, value: u64::MAX }.value(), u64::MAX);
}

#[test]
fn stores_of_different_width_differ() {
    assert_ne!(Store::Byte { addr: 0, value: 1 }, Store::Word { addr: 0, value: 1 });
    assert_ne!(Store::Word { addr: 0, value: 1 }, Store::Double { addr: 0, value: 1 });
    assert_eq!(Store::Double { addr: 4, value: 1 }, Store::Double { addr: 4, value: 1 });
}
