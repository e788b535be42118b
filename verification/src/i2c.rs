//! Bus-addressing rules of the device and the little-endian layout of a
//! register word on the wire.
//!
//! At power-on the device measures the voltage on its two DIO pins, turns
//! each level (GND, 1/3 Vcc, 2/3 Vcc, Vcc) into a 2-bit code, and derives
//! its 7-bit bus address from the concatenated 4-bit offset.  If both pins
//! sit at Vcc, pin sensing is disabled and the device answers under the
//! address programmed in its EEPROM instead.  The driver never probes the
//! pins itself; the caller supplies the resulting address at construction.

use vstd::prelude::*;

verus! {

/// Base bus address when the DIO pin voltages select the address.
pub const I2C_ADDRESS_MEASURED_BASE: u8 = 0x60;

/// Factory-programmed EEPROM bus address, used when both DIO pins are at
/// Vcc.
pub const I2C_ADDRESS_PROGRAMMED_DEFAULT: u8 = 0x7F;

/// The address the device answers under, given the two 2-bit DIO pin codes
/// and the address programmed in its EEPROM.
pub open spec fn effective_i2c_address_spec(dio_0_code: u8, dio_1_code: u8, programmed: u8) -> u8 {
    if dio_0_code == 3 && dio_1_code == 3 {
        programmed
    } else {
        (I2C_ADDRESS_MEASURED_BASE + dio_0_code * 4 + dio_1_code) as u8
    }
}

/// Computes the effective 7-bit bus address from the two DIO pin-voltage
/// codes: the base address plus the 4-bit offset `dio_0_code * 4 +
/// dio_1_code`, except that with both pins at Vcc (both codes 3) the device
/// uses the address programmed in its EEPROM.
pub fn effective_i2c_address(dio_0_code: u8, dio_1_code: u8, programmed: u8) -> (r: u8)
    requires
        dio_0_code <= 3,
        dio_1_code <= 3,
        programmed < 0x80,
    ensures
        r == effective_i2c_address_spec(dio_0_code, dio_1_code, programmed),
        r < 0x80,
{
    if dio_0_code == 3 && dio_1_code == 3 {
        programmed
    } else {
        I2C_ADDRESS_MEASURED_BASE + dio_0_code * 4 + dio_1_code
    }
}

/// Assembles a register word from the 4 response bytes of a bus read, least
/// significant byte first.
pub fn word_from_le_bytes(bytes: [u8; 4]) -> (r: u32)
    ensures
        r == bytes[0] + bytes[1] * 0x100 + bytes[2] * 0x1_0000 + bytes[3] * 0x100_0000,
{
    (bytes[0] as u32) + (bytes[1] as u32) * 0x100 + (bytes[2] as u32) * 0x1_0000 + (bytes[3]
        as u32) * 0x100_0000
}

} // verus!
