//! Interpretation of the raw EEPROM registers: sign extension, scale
//! factors, and the snapshot read operations.

use vstd::prelude::*;

use crate::regs::{
    Acs37800EepromRaw, Acs37800EepromRegister, Eeprom0bRaw, Eeprom0cRaw, Eeprom0dRaw, Eeprom0eRaw,
    Eeprom0fRaw,
};
use crate::{Acs37800, Acs37800ReadError};

verus! {

/// Two's-complement reconstruction of a `bits`-wide field: the value masked
/// to `bits` bits, minus 2^bits when the sign bit (bit `bits - 1`) is set.
pub open spec fn sign_extend_spec(val: u16, bits: u8) -> int
    recommends
        1 <= bits <= 15,
{
    let p = (1u32 << (bits as u32)) as int;
    let sign_bit = (1u32 << ((bits - 1) as u32)) as int;
    let m = (val as int) % p;
    if m >= sign_bit {
        m - p
    } else {
        m
    }
}

/// Sign-extends the low `bits` bits of `val` into an `i16`.
pub fn sign_extend(val: u16, bits: u8) -> (r: i16)
    requires
        1 <= bits <= 15,
    ensures
        r as int == sign_extend_spec(val, bits),
{
    let p: u32 = 1u32 << (bits as u32);
    proof {
        assert(1 <= (1u32 << (bits as u32)) <= 0x8000) by (bit_vector)
            requires
                1 <= bits <= 15,
        ;
    }
    let m: u32 = (val as u32) & (p - 1);
    let half: u32 = p >> 1;
    if m >= half {
        let r: i16 = ((m as i32) - (p as i32)) as i16;
        proof {
            assert({
                let mm = (val as u32) & ((p - 1) as u32);
                mm < p && (mm >= p >> 1 ==> ((mm as i32) - (p as i32)) as i16 as int
                    == sign_extend_spec(val, bits))
            }) by (bit_vector)
                requires
                    1 <= bits <= 15,
                    p == 1u32 << (bits as u32),
            ;
        }
        r
    } else {
        proof {
            assert({
                let mm = (val as u32) & ((p - 1) as u32);
                mm < 0x8000 && (mm < p >> 1 ==> mm as int == sign_extend_spec(val, bits))
            }) by (bit_vector)
                requires
                    1 <= bits <= 15,
                    p == 1u32 << (bits as u32),
            ;
        }
        m as i16
    }
}

/// Law: 8-bit sign extension lands in [-128, 127], and for an 8-bit input
/// the inverse (reduction modulo 2^8) recovers the input exactly.
pub proof fn lemma_sign_extend_8(v: u16)
    ensures
        -128 <= sign_extend_spec(v, 8) <= 127,
        v < 256 ==> sign_extend_spec(v, 8) % 256 == v,
{
    assert(-128 <= sign_extend_spec(v, 8) <= 127 && (v < 256 ==> sign_extend_spec(v, 8) == v
        || sign_extend_spec(v, 8) == v - 256)) by (bit_vector);
    if v < 256 {
        vstd::arithmetic::div_mod::lemma_mod_sub_multiples_vanish(v as int, 256);
        vstd::arithmetic::div_mod::lemma_small_mod(v as nat, 256);
    }
}

/// Law: 9-bit sign extension lands in [-256, 255], and for a 9-bit input
/// the inverse (reduction modulo 2^9) recovers the input exactly.
pub proof fn lemma_sign_extend_9(v: u16)
    ensures
        -256 <= sign_extend_spec(v, 9) <= 255,
        v < 512 ==> sign_extend_spec(v, 9) % 512 == v,
{
    assert(-256 <= sign_extend_spec(v, 9) <= 255 && (v < 512 ==> sign_extend_spec(v, 9) == v
        || sign_extend_spec(v, 9) == v - 512)) by (bit_vector);
    if v < 512 {
        vstd::arithmetic::div_mod::lemma_mod_sub_multiples_vanish(v as int, 512);
        vstd::arithmetic::div_mod::lemma_small_mod(v as nat, 512);
    }
}

/// Law: 10-bit sign extension lands in [-512, 511], and for a 10-bit input
/// the inverse (reduction modulo 2^10) recovers the input exactly.
pub proof fn lemma_sign_extend_10(v: u16)
    ensures
        -512 <= sign_extend_spec(v, 10) <= 511,
        v < 1024 ==> sign_extend_spec(v, 10) % 1024 == v,
{
    assert(-512 <= sign_extend_spec(v, 10) <= 511 && (v < 1024 ==> sign_extend_spec(v, 10) == v
        || sign_extend_spec(v, 10) == v - 1024)) by (bit_vector);
    if v < 1024 {
        vstd::arithmetic::div_mod::lemma_mod_sub_multiples_vanish(v as int, 1024);
        vstd::arithmetic::div_mod::lemma_small_mod(v as nat, 1024);
    }
}

/// Interpreted view of the EEPROM content.
///
/// Every field is a pure function of the raw register bits: the signed codes
/// are sign-extended, `qvo_fine` is additionally scaled to ICODES LSB units,
/// and the zero-cross pulse width is derived from `delaycnt_sel`.  Anything
/// that still depends on board-level scaling is left in codes.
#[derive(Debug, Clone, Copy)]
pub struct Acs37800Eeprom {
    /// QVO_FINE in register codes, sign-extended (-256..=255).
    pub qvo_fine_codes: i16,
    /// QVO_FINE converted into ICODES LSB offset (step = 64 LSB).
    pub qvo_fine_icodes_offset: i32,
    /// SNS_FINE in register codes, sign-extended (-512..=511).
    pub sns_fine_codes: i16,
    /// Coarse sensitivity trim setting.
    pub crs_sns: u8,
    pub iavgsel_enabled: bool,
    pub pavgsel_enabled: bool,
    /// Raw RMS averaging configuration fields.
    pub rms_avg_1: u8,
    pub rms_avg_2: u16,
    /// Signed voltage-channel offset code (-128..=127).
    pub vchan_offset_codes: i8,
    pub ichan_delay_enabled: bool,
    pub chan_delay_sel: u8,
    /// Fault threshold code.
    pub fault_threshold_codes: u8,
    /// Fault delay setting (raw).
    pub fault_delay_setting: u8,
    pub vevent_cycles: u8,
    pub overvoltage_threshold_codes: u8,
    pub undervoltage_threshold_codes: u8,
    /// Selected zero-cross pulse width in microseconds (32 or 256).
    pub zerocross_pulse_width_us: u32,
    pub halfcycle_en: bool,
    pub squarewave_en: bool,
    pub zerocross_current_channel: bool,
    pub zerocross_rising_edge: bool,
    /// Programmed 7-bit bus address.
    pub i2c_address_7bit: u8,
    /// If true, address-pin sensing is disabled (the programmed address is
    /// used).
    pub i2c_address_disabled: bool,
    pub dio0_sel_raw: u8,
    pub dio1_sel_raw: u8,
    /// N cycles for fixed-N measurements (see `bypass_n_en`).
    pub n_cycles: u16,
    pub bypass_n_en: bool,
}

/// What interpreting a raw snapshot yields, field by field.
pub open spec fn interpret_spec(raw: Acs37800EepromRaw) -> Acs37800Eeprom {
    Acs37800Eeprom {
        qvo_fine_codes: sign_extend_spec(raw.r0b.spec_qvo_fine(), 9) as i16,
        qvo_fine_icodes_offset: (sign_extend_spec(raw.r0b.spec_qvo_fine(), 9) * 64) as i32,
        sns_fine_codes: sign_extend_spec(raw.r0b.spec_sns_fine(), 10) as i16,
        crs_sns: raw.r0b.spec_crs_sns(),
        iavgsel_enabled: raw.r0b.spec_iavgselen(),
        pavgsel_enabled: raw.r0b.spec_pavgselen(),
        rms_avg_1: raw.r0c.spec_rms_avg_1(),
        rms_avg_2: raw.r0c.spec_rms_avg_2(),
        vchan_offset_codes: sign_extend_spec(raw.r0c.spec_vchan_offset_code() as u16, 8) as i8,
        ichan_delay_enabled: raw.r0d.spec_ichan_del_en(),
        chan_delay_sel: raw.r0d.spec_chan_del_sel(),
        fault_threshold_codes: raw.r0d.spec_fault(),
        fault_delay_setting: raw.r0d.spec_fltdly(),
        vevent_cycles: raw.r0e.spec_vevent_cycs(),
        overvoltage_threshold_codes: raw.r0e.spec_overvreg(),
        undervoltage_threshold_codes: raw.r0e.spec_undervreg(),
        zerocross_pulse_width_us: if raw.r0e.spec_delaycnt_sel() {
            256u32
        } else {
            32u32
        },
        halfcycle_en: raw.r0e.spec_halfcycle_en(),
        squarewave_en: raw.r0e.spec_squarewave_en(),
        zerocross_current_channel: raw.r0e.spec_zerocrosschansel(),
        zerocross_rising_edge: raw.r0e.spec_zerocrossedgesel(),
        i2c_address_7bit: raw.r0f.spec_i2c_slv_addr(),
        i2c_address_disabled: raw.r0f.spec_i2c_dis_slv_addr(),
        dio0_sel_raw: raw.r0f.spec_dio_0_sel(),
        dio1_sel_raw: raw.r0f.spec_dio_1_sel(),
        n_cycles: raw.r0f.spec_n(),
        bypass_n_en: raw.r0f.spec_bypass_n_en(),
    }
}

impl vstd::std_specs::convert::FromSpecImpl<Acs37800EepromRaw> for Acs37800Eeprom {
    open spec fn obeys_from_spec() -> bool {
        true
    }

    open spec fn from_spec(raw: Acs37800EepromRaw) -> Self {
        interpret_spec(raw)
    }
}

impl From<Acs37800EepromRaw> for Acs37800Eeprom {
    fn from(raw: Acs37800EepromRaw) -> (r: Self) {
        let qvo_fine_codes = sign_extend(raw.r0b.qvo_fine(), 9);
        let sns_fine_codes = sign_extend(raw.r0b.sns_fine(), 10);
        let vchan_wide = sign_extend(raw.r0c.vchan_offset_code() as u16, 8);
        proof {
            lemma_sign_extend_8(raw.r0c.spec_vchan_offset_code() as u16);
        }
        let vchan_offset_codes = vchan_wide as i8;
        let qvo_fine_icodes_offset = (qvo_fine_codes as i32) * 64;
        let zerocross_pulse_width_us: u32 = if raw.r0e.delaycnt_sel() {
            256
        } else {
            32
        };
        Acs37800Eeprom {
            qvo_fine_codes,
            qvo_fine_icodes_offset,
            sns_fine_codes,
            crs_sns: raw.r0b.crs_sns(),
            iavgsel_enabled: raw.r0b.iavgselen(),
            pavgsel_enabled: raw.r0b.pavgselen(),
            rms_avg_1: raw.r0c.rms_avg_1(),
            rms_avg_2: raw.r0c.rms_avg_2(),
            vchan_offset_codes,
            ichan_delay_enabled: raw.r0d.ichan_del_en(),
            chan_delay_sel: raw.r0d.chan_del_sel(),
            fault_threshold_codes: raw.r0d.fault(),
            fault_delay_setting: raw.r0d.fltdly(),
            vevent_cycles: raw.r0e.vevent_cycs(),
            overvoltage_threshold_codes: raw.r0e.overvreg(),
            undervoltage_threshold_codes: raw.r0e.undervreg(),
            zerocross_pulse_width_us,
            halfcycle_en: raw.r0e.halfcycle_en(),
            squarewave_en: raw.r0e.squarewave_en(),
            zerocross_current_channel: raw.r0e.zerocrosschansel(),
            zerocross_rising_edge: raw.r0e.zerocrossedgesel(),
            i2c_address_7bit: raw.r0f.i2c_slv_addr(),
            i2c_address_disabled: raw.r0f.i2c_dis_slv_addr(),
            dio0_sel_raw: raw.r0f.dio_0_sel(),
            dio1_sel_raw: raw.r0f.dio_1_sel(),
            n_cycles: raw.r0f.n(),
            bypass_n_en: raw.r0f.bypass_n_en(),
        }
    }
}

/// Law: for every raw snapshot, the ICODES offset is exactly the
/// sign-extended QVO_FINE code times 64.
pub proof fn lemma_qvo_fine_offset_scaling(raw: Acs37800EepromRaw)
    ensures
        interpret_spec(raw).qvo_fine_icodes_offset == interpret_spec(raw).qvo_fine_codes * 64,
{
    lemma_sign_extend_9(raw.r0b.spec_qvo_fine());
}

/// Law: for every raw snapshot, the zero-cross pulse width is 256 us when
/// `delaycnt_sel` is set and 32 us when it is clear; no other value occurs.
pub proof fn lemma_zerocross_pulse_width(raw: Acs37800EepromRaw)
    ensures
        interpret_spec(raw).zerocross_pulse_width_us == if raw.r0e.spec_delaycnt_sel() {
            256int
        } else {
            32int
        },
        interpret_spec(raw).zerocross_pulse_width_us == 32 || interpret_spec(
            raw,
        ).zerocross_pulse_width_us == 256,
{
}

/// Reading and decoding the five EEPROM registers.
///
/// Every method issues its reads in ascending register order and fails fast:
/// the first bus error aborts the remaining reads and is returned unchanged,
/// so no partial snapshot is ever produced.
pub trait Acs37800EepromExt: Acs37800 {
    fn read_eeprom_0b_raw(&mut self) -> (r: Result<Eeprom0bRaw, Acs37800ReadError>)
        ensures
            final(self).eeprom() == old(self).eeprom(),
            r matches Ok(reg) ==> reg == old(self).eeprom().r0b,
    ;

    fn read_eeprom_0c_raw(&mut self) -> (r: Result<Eeprom0cRaw, Acs37800ReadError>)
        ensures
            final(self).eeprom() == old(self).eeprom(),
            r matches Ok(reg) ==> reg == old(self).eeprom().r0c,
    ;

    fn read_eeprom_0d_raw(&mut self) -> (r: Result<Eeprom0dRaw, Acs37800ReadError>)
        ensures
            final(self).eeprom() == old(self).eeprom(),
            r matches Ok(reg) ==> reg == old(self).eeprom().r0d,
    ;

    fn read_eeprom_0e_raw(&mut self) -> (r: Result<Eeprom0eRaw, Acs37800ReadError>)
        ensures
            final(self).eeprom() == old(self).eeprom(),
            r matches Ok(reg) ==> reg == old(self).eeprom().r0e,
    ;

    fn read_eeprom_0f_raw(&mut self) -> (r: Result<Eeprom0fRaw, Acs37800ReadError>)
        ensures
            final(self).eeprom() == old(self).eeprom(),
            r matches Ok(reg) ==> reg == old(self).eeprom().r0f,
    ;

    /// Reads all five registers as one raw snapshot, all-or-nothing.
    fn read_eeprom_raw(&mut self) -> (r: Result<Acs37800EepromRaw, Acs37800ReadError>)
        ensures
            final(self).eeprom() == old(self).eeprom(),
            r matches Ok(raw) ==> raw == old(self).eeprom(),
    ;

    /// Reads and interprets the EEPROM in one go.
    fn read_eeprom(&mut self) -> (r: Result<Acs37800Eeprom, Acs37800ReadError>)
        ensures
            final(self).eeprom() == old(self).eeprom(),
            r matches Ok(e) ==> e == interpret_spec(old(self).eeprom()),
    ;
}

impl<T: Acs37800> Acs37800EepromExt for T {
    fn read_eeprom_0b_raw(&mut self) -> (r: Result<Eeprom0bRaw, Acs37800ReadError>) {
        match self.read_reg32(Acs37800EepromRegister::R0B) {
            Ok(w) => Ok(Eeprom0bRaw::from_bits(w)),
            Err(e) => Err(e),
        }
    }

    fn read_eeprom_0c_raw(&mut self) -> (r: Result<Eeprom0cRaw, Acs37800ReadError>) {
        match self.read_reg32(Acs37800EepromRegister::R0C) {
            Ok(w) => Ok(Eeprom0cRaw::from_bits(w)),
            Err(e) => Err(e),
        }
    }

    fn read_eeprom_0d_raw(&mut self) -> (r: Result<Eeprom0dRaw, Acs37800ReadError>) {
        match self.read_reg32(Acs37800EepromRegister::R0D) {
            Ok(w) => Ok(Eeprom0dRaw::from_bits(w)),
            Err(e) => Err(e),
        }
    }

    fn read_eeprom_0e_raw(&mut self) -> (r: Result<Eeprom0eRaw, Acs37800ReadError>) {
        match self.read_reg32(Acs37800EepromRegister::R0E) {
            Ok(w) => Ok(Eeprom0eRaw::from_bits(w)),
            Err(e) => Err(e),
        }
    }

    fn read_eeprom_0f_raw(&mut self) -> (r: Result<Eeprom0fRaw, Acs37800ReadError>) {
        match self.read_reg32(Acs37800EepromRegister::R0F) {
            Ok(w) => Ok(Eeprom0fRaw::from_bits(w)),
            Err(e) => Err(e),
        }
    }

    fn read_eeprom_raw(&mut self) -> (r: Result<Acs37800EepromRaw, Acs37800ReadError>) {
        let r0b = match self.read_eeprom_0b_raw() {
            Ok(v) => v,
            Err(e) => {
                return Err(e);
            },
        };
        let r0c = match self.read_eeprom_0c_raw() {
            Ok(v) => v,
            Err(e) => {
                return Err(e);
            },
        };
        let r0d = match self.read_eeprom_0d_raw() {
            Ok(v) => v,
            Err(e) => {
                return Err(e);
            },
        };
        let r0e = match self.read_eeprom_0e_raw() {
            Ok(v) => v,
            Err(e) => {
                return Err(e);
            },
        };
        let r0f = match self.read_eeprom_0f_raw() {
            Ok(v) => v,
            Err(e) => {
                return Err(e);
            },
        };
        Ok(Acs37800EepromRaw { r0b, r0c, r0d, r0e, r0f })
    }

    fn read_eeprom(&mut self) -> (r: Result<Acs37800Eeprom, Acs37800ReadError>) {
        match self.read_eeprom_raw() {
            Ok(raw) => Ok(Acs37800Eeprom::from(raw)),
            Err(e) => Err(e),
        }
    }
}

} // verus!
