//! Driver core for the ACS37800 power-monitoring IC.
//!
//! The ACS37800 exposes its factory-programmed configuration in five 32-bit
//! EEPROM registers (addresses 0x0B through 0x0F), read over a two-wire bus.
//! This crate decodes those raw register words into bit-accurate named
//! fields, applies the datasheet's sign-extension and scale rules, and
//! assembles a complete interpreted snapshot.  The bus transaction itself is
//! delegated to an implementation of [`Acs37800`] supplied by the platform.

use vstd::prelude::*;

mod eeprom;
mod i2c;
mod regs;

pub use eeprom::{
    interpret_spec, lemma_qvo_fine_offset_scaling, lemma_sign_extend_10, lemma_sign_extend_8,
    lemma_sign_extend_9, lemma_zerocross_pulse_width, sign_extend, sign_extend_spec,
    Acs37800Eeprom, Acs37800EepromExt,
};
pub use i2c::{
    effective_i2c_address, effective_i2c_address_spec, word_from_le_bytes,
    I2C_ADDRESS_MEASURED_BASE, I2C_ADDRESS_PROGRAMMED_DEFAULT,
};
pub use regs::{
    Acs37800EepromRaw, Acs37800EepromRegister, Eeprom0bRaw, Eeprom0cRaw, Eeprom0dRaw, Eeprom0eRaw,
    Eeprom0fRaw,
};

verus! {

/// Error returned by every read operation of this driver.
///
/// Any transport failure (NACK, timeout, arbitration loss, short response)
/// collapses to this single kind; the payload carries a description of the
/// underlying cause.
#[derive(Debug)]
pub enum Acs37800ReadError {
    Io(String),
}

/// Checks that an error is the bus-communication kind.
pub fn assert_is_bus_error(err: &Acs37800ReadError)
    ensures
        err matches Acs37800ReadError::Io(_),
{
    match err {
        Acs37800ReadError::Io(_) => {}
    }
}

/// A transport that can read one 32-bit EEPROM register word from the device.
///
/// Platform code implements this against whatever bus primitive it has (see
/// the adapters outside this library).  For verification the device's EEPROM
/// content is modelled by the abstract [`Acs37800::eeprom`] snapshot: the
/// EEPROM is read-only from this driver's side, so a transport promises that
/// a successful read returns the matching word of that snapshot and that the
/// snapshot itself never changes.  Reads may fail at any time with a bus
/// error; nothing is promised about when.
pub trait Acs37800 {
    /// The device's EEPROM content as this transport models it.
    spec fn eeprom(&self) -> Acs37800EepromRaw;

    /// Performs exactly one bus transaction: write the register selector
    /// byte, then read the 4-byte register word (little-endian).
    fn read_reg32(&mut self, reg: Acs37800EepromRegister) -> (r: Result<
        u32,
        Acs37800ReadError,
    >)
        ensures
            final(self).eeprom() == old(self).eeprom(),
            r matches Ok(w) ==> w == old(self).eeprom().word(reg),
    ;
}

} // verus!
