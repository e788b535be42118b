use acs37800::effective_i2c_address;
use acs37800::word_from_le_bytes;
use acs37800::I2C_ADDRESS_MEASURED_BASE;
use acs37800::I2C_ADDRESS_PROGRAMMED_DEFAULT;

#[test]
fn word_assembly_is_little_endian() {
    assert_eq!(word_from_le_bytes([0x78, 0x56, 0x34, 0x12]), 0x1234_5678);
    assert_eq!(word_from_le_bytes([0, 0, 0, 0]), 0);
    assert_eq!(word_from_le_bytes([0xFF, 0xFF, 0xFF, 0xFF]), u32::MAX);
    assert_eq!(word_from_le_bytes([1, 0, 0, 0]), 1);
    assert_eq!(word_from_le_bytes([0, 0, 0, 1]), 0x0100_0000);
}

#[test]
fn address_from_grounded_pins_is_the_base() {
    assert_eq!(effective_i2c_address(0, 0, I2C_ADDRESS_PROGRAMMED_DEFAULT), 0x60);
    assert_eq!(I2C_ADDRESS_MEASURED_BASE, 0x60);
}

#[test]
fn address_offset_concatenates_the_pin_codes() {
    assert_eq!(effective_i2c_address(0, 3, 0x7F), 0x63);
    assert_eq!(effective_i2c_address(1, 0, 0x7F), 0x64);
    assert_eq!(effective_i2c_address(2, 1, 0x7F), 0x69);
    assert_eq!(effective_i2c_address(3, 2, 0x7F), 0x6E);
}

#[test]
fn both_pins_at_vcc_select_the_programmed_address() {
    assert_eq!(effective_i2c_address(3, 3, 0x7F), 0x7F);
    assert_eq!(effective_i2c_address(3, 3, 0x52), 0x52);
    assert_eq!(I2C_ADDRESS_PROGRAMMED_DEFAULT, 0x7F);
}
