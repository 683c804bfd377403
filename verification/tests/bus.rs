use arm7_core::bus::Bus;
use arm7_core::common::Fault;

#[test]
fn byte_write_then_word_read_is_little_endian_over_zeroed_memory() {
    let mut bus = Bus::new();
    assert_eq!(bus.write_byte(0x0200_0010, 0x42), Ok(()));
    assert_eq!(bus.read_word(0x0200_0010), Ok(0x0000_0042));
}

#[test]
fn multi_byte_accesses_compose_little_endian() {
    let mut bus = Bus::new();
    assert_eq!(bus.write_byte(0x0200_0000, 0x11), Ok(()));
    assert_eq!(bus.write_byte(0x0200_0001, 0x22), Ok(()));
    assert_eq!(bus.write_byte(0x0200_0002, 0x33), Ok(()));
    assert_eq!(bus.write_byte(0x0200_0003, 0x44), Ok(()));
    assert_eq!(bus.read_word(0x0200_0000), Ok(0x4433_2211));
    assert_eq!(bus.read_hword(0x0200_0000), Ok(0x2211));
    assert_eq!(bus.read_hword(0x0200_0002), Ok(0x4433));

    assert_eq!(bus.write_hword(0x0300_0000, 0xBEEF), Ok(()));
    assert_eq!(bus.read_byte(0x0300_0000), Ok(0xEF));
    assert_eq!(bus.read_byte(0x0300_0001), Ok(0xBE));

    assert_eq!(bus.write_word(0x0300_0010, 0xDEAD_BEEF), Ok(()));
    assert_eq!(bus.read_byte(0x0300_0010), Ok(0xEF));
    assert_eq!(bus.read_byte(0x0300_0011), Ok(0xBE));
    assert_eq!(bus.read_byte(0x0300_0012), Ok(0xAD));
    assert_eq!(bus.read_byte(0x0300_0013), Ok(0xDE));
}

#[test]
fn reading_twice_without_a_write_returns_identical_values() {
    let mut bus = Bus::new();
    assert_eq!(bus.write_byte(0x0500_0004, 0x7C), Ok(()));
    let first = bus.read_byte(0x0500_0004);
    let second = bus.read_byte(0x0500_0004);
    assert_eq!(first, second);
    let w1 = bus.read_word(0x0500_0004);
    let w2 = bus.read_word(0x0500_0004);
    assert_eq!(w1, w2);
    let h1 = bus.read_hword(0x0600_0000);
    let h2 = bus.read_hword(0x0600_0000);
    assert_eq!(h1, h2);
}

#[test]
fn offsets_are_masked_inside_the_region() {
    let mut bus = Bus::new();
    // A word read at the last byte of RAM bank A wraps to the bank's start.
    assert_eq!(bus.write_byte(0x0200_0000, 0xAB), Ok(()));
    assert_eq!(bus.write_byte(0x0203_FFFE, 0x01), Ok(()));
    assert_eq!(bus.write_byte(0x0203_FFFF, 0x02), Ok(()));
    assert_eq!(bus.write_byte(0x0200_0001, 0xCD), Ok(()));
    assert_eq!(bus.read_word(0x0203_FFFE), Ok(0xCDAB_0201));
}

#[test]
fn every_implemented_store_services_byte_and_halfword_accesses() {
    let mut bus = Bus::new();
    for (addr, val) in [
        (0x0200_1000u32, 0x10u8),
        (0x0300_1000, 0x20),
        (0x0500_0100, 0x30),
        (0x0600_8000, 0x40),
        (0x0700_0200, 0x50),
    ] {
        assert_eq!(bus.write_byte(addr, val), Ok(()));
        assert_eq!(bus.read_byte(addr), Ok(val));
        assert_eq!(bus.write_hword(addr, (val as u16) << 8), Ok(()));
        assert_eq!(bus.read_hword(addr), Ok((val as u16) << 8));
    }
}

#[test]
fn unimplemented_regions_fault_without_producing_values() {
    let mut bus = Bus::new();
    for addr in [0x0000_0000u32, 0x0000_3FFF, 0x0400_0000, 0x0400_03FF, 0x0800_0000, 0x0A00_0000,
        0x0C00_0000, 0x0DFF_FFFF, 0x0E00_0000, 0x0E00_FFFF] {
        assert_eq!(bus.read_byte(addr), Err(Fault::UnimplementedRegion));
        assert_eq!(bus.read_hword(addr), Err(Fault::UnimplementedRegion));
        assert_eq!(bus.read_word(addr), Err(Fault::UnimplementedRegion));
        assert_eq!(bus.write_byte(addr, 1), Err(Fault::UnimplementedRegion));
        assert_eq!(bus.write_hword(addr, 1), Err(Fault::UnimplementedRegion));
        assert_eq!(bus.write_word(addr, 1), Err(Fault::UnimplementedRegion));
    }
}

#[test]
fn undeclared_addresses_fault_as_invalid() {
    let mut bus = Bus::new();
    for addr in [0x0000_4000u32, 0x0100_0000, 0x0204_0000, 0x0300_8000, 0x0400_0400, 0x0500_0400,
        0x0601_8000, 0x0700_0400, 0x0E01_0000, 0xF000_0000, 0xFFFF_FFFF] {
        assert_eq!(bus.read_byte(addr), Err(Fault::InvalidAddress));
        assert_eq!(bus.write_byte(addr, 1), Err(Fault::InvalidAddress));
        assert_eq!(bus.write_word(addr, 1), Err(Fault::InvalidAddress));
    }
}

#[test]
fn word_writes_are_restricted_to_bank_b_and_the_attribute_store() {
    // The deliberate width restriction of the 32-bit write path: it
    // services only RAM bank B and the attribute store; word writes to the
    // other implemented stores are refused.
    let mut bus = Bus::new();
    assert_eq!(bus.write_word(0x0300_0020, 0x0102_0304), Ok(()));
    assert_eq!(bus.read_word(0x0300_0020), Ok(0x0102_0304));
    assert_eq!(bus.write_word(0x0700_0020, 0x0506_0708), Ok(()));
    assert_eq!(bus.read_word(0x0700_0020), Ok(0x0506_0708));
    assert_eq!(bus.write_word(0x0200_0020, 1), Err(Fault::InvalidAddress));
    assert_eq!(bus.write_word(0x0500_0020, 1), Err(Fault::InvalidAddress));
    assert_eq!(bus.write_word(0x0600_0020, 1), Err(Fault::InvalidAddress));
    // The refused writes left memory untouched.
    assert_eq!(bus.read_word(0x0200_0020), Ok(0));
    assert_eq!(bus.read_word(0x0500_0020), Ok(0));
    assert_eq!(bus.read_word(0x0600_0020), Ok(0));
}

#[test]
fn the_update_hook_changes_no_store() {
    let mut bus = Bus::new();
    assert_eq!(bus.write_byte(0x0200_0000, 0x99), Ok(()));
    bus.update(12345);
    assert_eq!(bus.read_byte(0x0200_0000), Ok(0x99));
}
