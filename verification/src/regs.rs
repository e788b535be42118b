//! Raw EEPROM register words and their bit-field accessors.
//!
//! Each register is an opaque 32-bit word; every field is extracted by an
//! explicit mask-and-shift, documented with its bit range (LSB-first,
//! inclusive).  Bits 26..=31 of every register hold the ECC checksum, which
//! is extracted here for diagnostics but never interpreted.

use vstd::prelude::*;

verus! {

/// In every register, `(word >> shift) & mask` never exceeds the mask.
proof fn lemma_field_bound(w: u32, shift: u32, mask: u32)
    by (bit_vector)
    requires
        shift < 32,
    ensures
        ((w >> shift) & mask) <= mask,
{
}

/// EEPROM register 0x0B.
/// Bits (LSB0):
///   0..=8   : qvo_fine   (9 bits)
///   9..=18  : sns_fine   (10 bits)
///   19..=21 : crs_sns    (3 bits)
///   22      : iavgselen
///   23      : pavgselen
///   24..=25 : reserved   (2 bits)
///   26..=31 : ECC        (6 bits)
#[derive(Debug, Clone, Copy, PartialEq, Eq, Structural)]
pub struct Eeprom0bRaw {
    pub bits: u32,
}

impl Eeprom0bRaw {
    /// Bits 0..=8: fine trim of the current-channel quiescent output.
    pub open spec fn spec_qvo_fine(self) -> u16 {
        ((self.bits >> 0) & 0x1FF) as u16
    }

    /// Bits 9..=18: fine trim of the current-channel sensitivity.
    pub open spec fn spec_sns_fine(self) -> u16 {
        ((self.bits >> 9) & 0x3FF) as u16
    }

    /// Bits 19..=21: coarse sensitivity setting.
    pub open spec fn spec_crs_sns(self) -> u8 {
        ((self.bits >> 19) & 0x7) as u8
    }

    /// Bit 22: current averaging selection enable.
    pub open spec fn spec_iavgselen(self) -> bool {
        (self.bits >> 22) & 1 == 1
    }

    /// Bit 23: power averaging selection enable.
    pub open spec fn spec_pavgselen(self) -> bool {
        (self.bits >> 23) & 1 == 1
    }

    /// Bits 26..=31: ECC checksum.
    pub open spec fn spec_ecc(self) -> u8 {
        ((self.bits >> 26) & 0x3F) as u8
    }

    pub fn from_bits(bits: u32) -> (r: Self)
        ensures
            r.bits == bits,
    {
        Eeprom0bRaw { bits }
    }

    pub fn into_bits(self) -> (r: u32)
        ensures
            r == self.bits,
    {
        self.bits
    }

    pub fn qvo_fine(&self) -> (r: u16)
        ensures
            r == self.spec_qvo_fine(),
            r < 0x200,
    {
        proof {
            lemma_field_bound(self.bits, 0, 0x1FF);
        }
        ((self.bits >> 0) & 0x1FF) as u16
    }

    pub fn sns_fine(&self) -> (r: u16)
        ensures
            r == self.spec_sns_fine(),
            r < 0x400,
    {
        proof {
            lemma_field_bound(self.bits, 9, 0x3FF);
        }
        ((self.bits >> 9) & 0x3FF) as u16
    }

    pub fn crs_sns(&self) -> (r: u8)
        ensures
            r == self.spec_crs_sns(),
            r < 8,
    {
        proof {
            lemma_field_bound(self.bits, 19, 0x7);
        }
        ((self.bits >> 19) & 0x7) as u8
    }

    pub fn iavgselen(&self) -> (r: bool)
        ensures
            r == self.spec_iavgselen(),
    {
        (self.bits >> 22) & 1 == 1
    }

    pub fn pavgselen(&self) -> (r: bool)
        ensures
            r == self.spec_pavgselen(),
    {
        (self.bits >> 23) & 1 == 1
    }

    pub fn ecc(&self) -> (r: u8)
        ensures
            r == self.spec_ecc(),
            r < 64,
    {
        proof {
            lemma_field_bound(self.bits, 26, 0x3F);
        }
        ((self.bits >> 26) & 0x3F) as u8
    }
}

/// EEPROM register 0x0C.
/// Bits (LSB0):
///   0..=6   : rms_avg_1         (7 bits)
///   7..=16  : rms_avg_2         (10 bits)
///   17..=24 : vchan_offset_code (8 bits)
///   25      : reserved
///   26..=31 : ECC               (6 bits)
#[derive(Debug, Clone, Copy, PartialEq, Eq, Structural)]
pub struct Eeprom0cRaw {
    pub bits: u32,
}

impl Eeprom0cRaw {
    /// Bits 0..=6: first-stage RMS averaging configuration.
    pub open spec fn spec_rms_avg_1(self) -> u8 {
        ((self.bits >> 0) & 0x7F) as u8
    }

    /// Bits 7..=16: second-stage RMS averaging configuration.
    pub open spec fn spec_rms_avg_2(self) -> u16 {
        ((self.bits >> 7) & 0x3FF) as u16
    }

    /// Bits 17..=24: voltage-channel offset code (two's complement).
    pub open spec fn spec_vchan_offset_code(self) -> u8 {
        ((self.bits >> 17) & 0xFF) as u8
    }

    /// Bits 26..=31: ECC checksum.
    pub open spec fn spec_ecc(self) -> u8 {
        ((self.bits >> 26) & 0x3F) as u8
    }

    pub fn from_bits(bits: u32) -> (r: Self)
        ensures
            r.bits == bits,
    {
        Eeprom0cRaw { bits }
    }

    pub fn into_bits(self) -> (r: u32)
        ensures
            r == self.bits,
    {
        self.bits
    }

    pub fn rms_avg_1(&self) -> (r: u8)
        ensures
            r == self.spec_rms_avg_1(),
            r < 0x80,
    {
        proof {
            lemma_field_bound(self.bits, 0, 0x7F);
        }
        ((self.bits >> 0) & 0x7F) as u8
    }

    pub fn rms_avg_2(&self) -> (r: u16)
        ensures
            r == self.spec_rms_avg_2(),
            r < 0x400,
    {
        proof {
            lemma_field_bound(self.bits, 7, 0x3FF);
        }
        ((self.bits >> 7) & 0x3FF) as u16
    }

    pub fn vchan_offset_code(&self) -> (r: u8)
        ensures
            r == self.spec_vchan_offset_code(),
    {
        proof {
            lemma_field_bound(self.bits, 17, 0xFF);
        }
        ((self.bits >> 17) & 0xFF) as u8
    }

    pub fn ecc(&self) -> (r: u8)
        ensures
            r == self.spec_ecc(),
            r < 64,
    {
        proof {
            lemma_field_bound(self.bits, 26, 0x3F);
        }
        ((self.bits >> 26) & 0x3F) as u8
    }
}

/// EEPROM register 0x0D.
/// Bits (LSB0):
///   0..=6   : reserved     (7 bits)
///   7       : ichan_del_en
///   8       : reserved
///   9..=11  : chan_del_sel (3 bits)
///   12      : reserved
///   13..=20 : fault        (8 bits)
///   21..=23 : fltdly       (3 bits)
///   24..=25 : reserved     (2 bits)
///   26..=31 : ECC          (6 bits)
#[derive(Debug, Clone, Copy, PartialEq, Eq, Structural)]
pub struct Eeprom0dRaw {
    pub bits: u32,
}

impl Eeprom0dRaw {
    /// Bit 7: current-channel delay enable.
    pub open spec fn spec_ichan_del_en(self) -> bool {
        (self.bits >> 7) & 1 == 1
    }

    /// Bit 8: reserved bit, extracted for diagnostics only.
    pub open spec fn spec_reserved2(self) -> bool {
        (self.bits >> 8) & 1 == 1
    }

    /// Bits 9..=11: channel delay selection.
    pub open spec fn spec_chan_del_sel(self) -> u8 {
        ((self.bits >> 9) & 0x7) as u8
    }

    /// Bits 13..=20: overcurrent fault threshold code.
    pub open spec fn spec_fault(self) -> u8 {
        ((self.bits >> 13) & 0xFF) as u8
    }

    /// Bits 21..=23: fault delay setting.
    pub open spec fn spec_fltdly(self) -> u8 {
        ((self.bits >> 21) & 0x7) as u8
    }

    /// Bits 26..=31: ECC checksum.
    pub open spec fn spec_ecc(self) -> u8 {
        ((self.bits >> 26) & 0x3F) as u8
    }

    pub fn from_bits(bits: u32) -> (r: Self)
        ensures
            r.bits == bits,
    {
        Eeprom0dRaw { bits }
    }

    pub fn into_bits(self) -> (r: u32)
        ensures
            r == self.bits,
    {
        self.bits
    }

    pub fn ichan_del_en(&self) -> (r: bool)
        ensures
            r == self.spec_ichan_del_en(),
    {
        (self.bits >> 7) & 1 == 1
    }

    pub fn reserved2(&self) -> (r: bool)
        ensures
            r == self.spec_reserved2(),
    {
        (self.bits >> 8) & 1 == 1
    }

    pub fn chan_del_sel(&self) -> (r: u8)
        ensures
            r == self.spec_chan_del_sel(),
            r < 8,
    {
        proof {
            lemma_field_bound(self.bits, 9, 0x7);
        }
        ((self.bits >> 9) & 0x7) as u8
    }

    pub fn fault(&self) -> (r: u8)
        ensures
            r == self.spec_fault(),
    {
        proof {
            lemma_field_bound(self.bits, 13, 0xFF);
        }
        ((self.bits >> 13) & 0xFF) as u8
    }

    pub fn fltdly(&self) -> (r: u8)
        ensures
            r == self.spec_fltdly(),
            r < 8,
    {
        proof {
            lemma_field_bound(self.bits, 21, 0x7);
        }
        ((self.bits >> 21) & 0x7) as u8
    }

    pub fn ecc(&self) -> (r: u8)
        ensures
            r == self.spec_ecc(),
            r < 64,
    {
        proof {
            lemma_field_bound(self.bits, 26, 0x3F);
        }
        ((self.bits >> 26) & 0x3F) as u8
    }
}

/// EEPROM register 0x0E.
/// Bits (LSB0):
///   0..=5   : vevent_cycs      (6 bits)
///   6..=7   : reserved         (2 bits)
///   8..=13  : overvreg         (6 bits)
///   14..=19 : undervreg        (6 bits)
///   20      : delaycnt_sel
///   21      : halfcycle_en
///   22      : squarewave_en
///   23      : zerocrosschansel
///   24      : zerocrossedgesel
///   25      : reserved
///   26..=31 : ECC              (6 bits)
#[derive(Debug, Clone, Copy, PartialEq, Eq, Structural)]
pub struct Eeprom0eRaw {
    pub bits: u32,
}

impl Eeprom0eRaw {
    /// Bits 0..=5: number of qualifying cycles for voltage events.
    pub open spec fn spec_vevent_cycs(self) -> u8 {
        ((self.bits >> 0) & 0x3F) as u8
    }

    /// Bits 8..=13: overvoltage threshold code.
    pub open spec fn spec_overvreg(self) -> u8 {
        ((self.bits >> 8) & 0x3F) as u8
    }

    /// Bits 14..=19: undervoltage threshold code.
    pub open spec fn spec_undervreg(self) -> u8 {
        ((self.bits >> 14) & 0x3F) as u8
    }

    /// Bit 20: zero-cross delay-count selection.
    pub open spec fn spec_delaycnt_sel(self) -> bool {
        (self.bits >> 20) & 1 == 1
    }

    /// Bit 21: half-cycle reporting enable.
    pub open spec fn spec_halfcycle_en(self) -> bool {
        (self.bits >> 21) & 1 == 1
    }

    /// Bit 22: square-wave output enable.
    pub open spec fn spec_squarewave_en(self) -> bool {
        (self.bits >> 22) & 1 == 1
    }

    /// Bit 23: zero-cross channel selection.
    pub open spec fn spec_zerocrosschansel(self) -> bool {
        (self.bits >> 23) & 1 == 1
    }

    /// Bit 24: zero-cross edge selection.
    pub open spec fn spec_zerocrossedgesel(self) -> bool {
        (self.bits >> 24) & 1 == 1
    }

    /// Bits 26..=31: ECC checksum.
    pub open spec fn spec_ecc(self) -> u8 {
        ((self.bits >> 26) & 0x3F) as u8
    }

    pub fn from_bits(bits: u32) -> (r: Self)
        ensures
            r.bits == bits,
    {
        Eeprom0eRaw { bits }
    }

    pub fn into_bits(self) -> (r: u32)
        ensures
            r == self.bits,
    {
        self.bits
    }

    pub fn vevent_cycs(&self) -> (r: u8)
        ensures
            r == self.spec_vevent_cycs(),
            r < 64,
    {
        proof {
            lemma_field_bound(self.bits, 0, 0x3F);
        }
        ((self.bits >> 0) & 0x3F) as u8
    }

    pub fn overvreg(&self) -> (r: u8)
        ensures
            r == self.spec_overvreg(),
            r < 64,
    {
        proof {
            lemma_field_bound(self.bits, 8, 0x3F);
        }
        ((self.bits >> 8) & 0x3F) as u8
    }

    pub fn undervreg(&self) -> (r: u8)
        ensures
            r == self.spec_undervreg(),
            r < 64,
    {
        proof {
            lemma_field_bound(self.bits, 14, 0x3F);
        }
        ((self.bits >> 14) & 0x3F) as u8
    }

    pub fn delaycnt_sel(&self) -> (r: bool)
        ensures
            r == self.spec_delaycnt_sel(),
    {
        (self.bits >> 20) & 1 == 1
    }

    pub fn halfcycle_en(&self) -> (r: bool)
        ensures
            r == self.spec_halfcycle_en(),
    {
        (self.bits >> 21) & 1 == 1
    }

    pub fn squarewave_en(&self) -> (r: bool)
        ensures
            r == self.spec_squarewave_en(),
    {
        (self.bits >> 22) & 1 == 1
    }

    pub fn zerocrosschansel(&self) -> (r: bool)
        ensures
            r == self.spec_zerocrosschansel(),
    {
        (self.bits >> 23) & 1 == 1
    }

    pub fn zerocrossedgesel(&self) -> (r: bool)
        ensures
            r == self.spec_zerocrossedgesel(),
    {
        (self.bits >> 24) & 1 == 1
    }

    pub fn ecc(&self) -> (r: u8)
        ensures
            r == self.spec_ecc(),
            r < 64,
    {
        proof {
            lemma_field_bound(self.bits, 26, 0x3F);
        }
        ((self.bits >> 26) & 0x3F) as u8
    }
}

/// EEPROM register 0x0F.
/// Bits (LSB0):
///   0..=1   : reserved     (2 bits)
///   2..=8   : i2c_slv_addr (7 bits)
///   9       : i2c_dis_slv_addr
///   10..=11 : dio_0_sel    (2 bits)
///   12..=13 : dio_1_sel    (2 bits)
///   14..=23 : n            (10 bits)
///   24      : bypass_n_en
///   25      : reserved
///   26..=31 : ECC          (6 bits)
#[derive(Debug, Clone, Copy, PartialEq, Eq, Structural)]
pub struct Eeprom0fRaw {
    pub bits: u32,
}

impl Eeprom0fRaw {
    /// Bits 2..=8: programmed 7-bit bus address.
    pub open spec fn spec_i2c_slv_addr(self) -> u8 {
        ((self.bits >> 2) & 0x7F) as u8
    }

    /// Bit 9: disable address-pin sensing.
    pub open spec fn spec_i2c_dis_slv_addr(self) -> bool {
        (self.bits >> 9) & 1 == 1
    }

    /// Bits 10..=11: DIO_0 pin function selection.
    pub open spec fn spec_dio_0_sel(self) -> u8 {
        ((self.bits >> 10) & 0x3) as u8
    }

    /// Bits 12..=13: DIO_1 pin function selection.
    pub open spec fn spec_dio_1_sel(self) -> u8 {
        ((self.bits >> 12) & 0x3) as u8
    }

    /// Bits 14..=23: number of samples for fixed-N RMS averaging.
    pub open spec fn spec_n(self) -> u16 {
        ((self.bits >> 14) & 0x3FF) as u16
    }

    /// Bit 24: bypass-N enable.
    pub open spec fn spec_bypass_n_en(self) -> bool {
        (self.bits >> 24) & 1 == 1
    }

    /// Bits 26..=31: ECC checksum.
    pub open spec fn spec_ecc(self) -> u8 {
        ((self.bits >> 26) & 0x3F) as u8
    }

    pub fn from_bits(bits: u32) -> (r: Self)
        ensures
            r.bits == bits,
    {
        Eeprom0fRaw { bits }
    }

    pub fn into_bits(self) -> (r: u32)
        ensures
            r == self.bits,
    {
        self.bits
    }

    pub fn i2c_slv_addr(&self) -> (r: u8)
        ensures
            r == self.spec_i2c_slv_addr(),
            r < 0x80,
    {
        proof {
            lemma_field_bound(self.bits, 2, 0x7F);
        }
        ((self.bits >> 2) & 0x7F) as u8
    }

    pub fn i2c_dis_slv_addr(&self) -> (r: bool)
        ensures
            r == self.spec_i2c_dis_slv_addr(),
    {
        (self.bits >> 9) & 1 == 1
    }

    pub fn dio_0_sel(&self) -> (r: u8)
        ensures
            r == self.spec_dio_0_sel(),
            r < 4,
    {
        proof {
            lemma_field_bound(self.bits, 10, 0x3);
        }
        ((self.bits >> 10) & 0x3) as u8
    }

    pub fn dio_1_sel(&self) -> (r: u8)
        ensures
            r == self.spec_dio_1_sel(),
            r < 4,
    {
        proof {
            lemma_field_bound(self.bits, 12, 0x3);
        }
        ((self.bits >> 12) & 0x3) as u8
    }

    pub fn n(&self) -> (r: u16)
        ensures
            r == self.spec_n(),
            r < 0x400,
    {
        proof {
            lemma_field_bound(self.bits, 14, 0x3FF);
        }
        ((self.bits >> 14) & 0x3FF) as u16
    }

    pub fn bypass_n_en(&self) -> (r: bool)
        ensures
            r == self.spec_bypass_n_en(),
    {
        (self.bits >> 24) & 1 == 1
    }

    pub fn ecc(&self) -> (r: u8)
        ensures
            r == self.spec_ecc(),
            r < 64,
    {
        proof {
            lemma_field_bound(self.bits, 26, 0x3F);
        }
        ((self.bits >> 26) & 0x3F) as u8
    }
}

/// Identifies one of the five EEPROM configuration registers.
#[derive(Debug, Clone, Copy, PartialEq, Eq, Hash, Structural)]
pub enum Acs37800EepromRegister {
    R0B,
    R0C,
    R0D,
    R0E,
    R0F,
}

impl Acs37800EepromRegister {
    /// The register's address inside the device, transmitted as the
    /// selector byte of every read transaction.
    pub open spec fn spec_address(self) -> u8 {
        match self {
            Acs37800EepromRegister::R0B => 0x0B,
            Acs37800EepromRegister::R0C => 0x0C,
            Acs37800EepromRegister::R0D => 0x0D,
            Acs37800EepromRegister::R0E => 0x0E,
            Acs37800EepromRegister::R0F => 0x0F,
        }
    }

    pub fn address(&self) -> (r: u8)
        ensures
            r == self.spec_address(),
    {
        match self {
            Acs37800EepromRegister::R0B => 0x0B,
            Acs37800EepromRegister::R0C => 0x0C,
            Acs37800EepromRegister::R0D => 0x0D,
            Acs37800EepromRegister::R0E => 0x0E,
            Acs37800EepromRegister::R0F => 0x0F,
        }
    }
}

/// One complete raw read of all five EEPROM registers.
///
/// Construction is all-or-nothing: a value of this type exists only when
/// every one of the five register reads succeeded.
#[derive(Debug, Clone, Copy, PartialEq, Eq, Structural)]
pub struct Acs37800EepromRaw {
    pub r0b: Eeprom0bRaw,
    pub r0c: Eeprom0cRaw,
    pub r0d: Eeprom0dRaw,
    pub r0e: Eeprom0eRaw,
    pub r0f: Eeprom0fRaw,
}

impl Acs37800EepromRaw {
    /// The 32-bit word this snapshot holds for a given register.
    pub open spec fn word(self, reg: Acs37800EepromRegister) -> u32 {
        match reg {
            Acs37800EepromRegister::R0B => self.r0b.bits,
            Acs37800EepromRegister::R0C => self.r0c.bits,
            Acs37800EepromRegister::R0D => self.r0d.bits,
            Acs37800EepromRegister::R0E => self.r0e.bits,
            Acs37800EepromRegister::R0F => self.r0f.bits,
        }
    }
}

} // verus!
