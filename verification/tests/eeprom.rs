use acs37800::Acs37800;
use acs37800::Acs37800EepromExt;
use acs37800::Acs37800EepromRaw;
use acs37800::Acs37800EepromRegister;
use acs37800::Acs37800ReadError;
use acs37800::Eeprom0bRaw;
use acs37800::Eeprom0cRaw;
use acs37800::Eeprom0dRaw;
use acs37800::Eeprom0eRaw;
use acs37800::Eeprom0fRaw;

struct MockDevice {
    regs: [Option<u32>; 5],
    fail_on: Option<Acs37800EepromRegister>,
    transactions: u32,
}

fn reg_index(reg: Acs37800EepromRegister) -> usize {
    match reg {
        Acs37800EepromRegister::R0B => 0,
        Acs37800EepromRegister::R0C => 1,
        Acs37800EepromRegister::R0D => 2,
        Acs37800EepromRegister::R0E => 3,
        Acs37800EepromRegister::R0F => 4,
    }
}

impl MockDevice {
    fn new() -> Self {
        MockDevice {
            regs: [None; 5],
            fail_on: None,
            transactions: 0,
        }
    }

    fn set_reg(&mut self, reg: Acs37800EepromRegister, value: u32) {
        self.regs[reg_index(reg)] = Some(value);
    }

    fn with_failure(reg: Acs37800EepromRegister) -> Self {
        MockDevice {
            regs: [None; 5],
            fail_on: Some(reg),
            transactions: 0,
        }
    }
}

fn bus_error() -> Acs37800ReadError {
    Acs37800ReadError::Io("mock".into())
}

impl Acs37800 for MockDevice {
    // Erased verification model of the device's EEPROM content; never
    // called at run time.
    fn eeprom(&self) -> Acs37800EepromRaw {
        Acs37800EepromRaw {
            r0b: Eeprom0bRaw::from_bits(self.regs[0].unwrap_or(0)),
            r0c: Eeprom0cRaw::from_bits(self.regs[1].unwrap_or(0)),
            r0d: Eeprom0dRaw::from_bits(self.regs[2].unwrap_or(0)),
            r0e: Eeprom0eRaw::from_bits(self.regs[3].unwrap_or(0)),
            r0f: Eeprom0fRaw::from_bits(self.regs[4].unwrap_or(0)),
        }
    }

    fn read_reg32(&mut self, reg: Acs37800EepromRegister) -> Result<u32, Acs37800ReadError> {
        self.transactions += 1;
        if self.fail_on == Some(reg) {
            return Err(bus_error());
        }
        self.regs[reg_index(reg)].ok_or_else(bus_error)
    }
}

fn bit(flag: bool) -> u32 {
    if flag {
        1
    } else {
        0
    }
}

fn pack_r0b(qvo_fine: u16, sns_fine: u16, crs_sns: u8, iavg: bool, pavg: bool) -> u32 {
    let mut value = 0u32;
    value |= (qvo_fine as u32) & 0x1ff;
    value |= ((sns_fine as u32) & 0x3ff) << 9;
    value |= ((crs_sns as u32) & 0x7) << 19;
    value |= bit(iavg) << 22;
    value |= bit(pavg) << 23;
    value
}

fn pack_r0c(rms_avg_1: u8, rms_avg_2: u16, vchan_offset: u8) -> u32 {
    let mut value = 0u32;
    value |= (rms_avg_1 as u32) & 0x7f;
    value |= ((rms_avg_2 as u32) & 0x3ff) << 7;
    value |= ((vchan_offset as u32) & 0xff) << 17;
    value
}

fn pack_r0d(ichan_en: bool, chan_sel: u8, fault: u8, fltdly: u8) -> u32 {
    let mut value = 0u32;
    value |= bit(ichan_en) << 7;
    value |= ((chan_sel as u32) & 0x7) << 9;
    value |= ((fault as u32) & 0xff) << 13;
    value |= ((fltdly as u32) & 0x7) << 21;
    value
}

#[allow(clippy::too_many_arguments)]
fn pack_r0e(
    vevent: u8,
    overv: u8,
    underv: u8,
    delaycnt_sel: bool,
    halfcycle: bool,
    squarewave: bool,
    zerocross_channel: bool,
    zerocross_edge: bool,
) -> u32 {
    let mut value = 0u32;
    value |= (vevent as u32) & 0x3f;
    value |= ((overv as u32) & 0x3f) << 8;
    value |= ((underv as u32) & 0x3f) << 14;
    value |= bit(delaycnt_sel) << 20;
    value |= bit(halfcycle) << 21;
    value |= bit(squarewave) << 22;
    value |= bit(zerocross_channel) << 23;
    value |= bit(zerocross_edge) << 24;
    value
}

fn pack_r0f(i2c_addr: u8, disable_addr: bool, dio0: u8, dio1: u8, n_cycles: u16, bypass: bool) -> u32 {
    let mut value = 0u32;
    value |= ((i2c_addr as u32) & 0x7f) << 2;
    value |= bit(disable_addr) << 9;
    value |= ((dio0 as u32) & 0x3) << 10;
    value |= ((dio1 as u32) & 0x3) << 12;
    value |= ((n_cycles as u32) & 0x3ff) << 14;
    value |= bit(bypass) << 24;
    value
}

#[test]
fn read_eeprom_raw_gathers_all_registers() {
    let mut mock = MockDevice::new();
    mock.set_reg(
        Acs37800EepromRegister::R0B,
        pack_r0b(0x101, 0x155, 0b011, true, false),
    );
    mock.set_reg(Acs37800EepromRegister::R0C, pack_r0c(0x45, 0x155, 0x3A));
    mock.set_reg(
        Acs37800EepromRegister::R0D,
        pack_r0d(true, 0b010, 0x5A, 0b111),
    );
    mock.set_reg(
        Acs37800EepromRegister::R0E,
        pack_r0e(0x12, 0x21, 0x11, false, true, false, true, false),
    );
    mock.set_reg(
        Acs37800EepromRegister::R0F,
        pack_r0f(0x63, false, 0b01, 0b10, 0x12C, true),
    );

    let raw = mock.read_eeprom_raw().expect("raw eeprom");
    assert_eq!(raw.r0b.qvo_fine(), 0x101);
    assert_eq!(raw.r0b.sns_fine(), 0x155);
    assert_eq!(raw.r0c.rms_avg_1(), 0x45);
    assert_eq!(raw.r0d.fault(), 0x5A);
    assert_eq!(raw.r0e.vevent_cycs(), 0x12);
    assert_eq!(raw.r0f.n(), 0x12C);
}

#[test]
fn read_eeprom_interprets_signed_and_flags() {
    let mut mock = MockDevice::new();
    mock.set_reg(
        Acs37800EepromRegister::R0B,
        pack_r0b(0x1A5, 0x2D3, 0b010, true, true),
    );
    mock.set_reg(Acs37800EepromRegister::R0C, pack_r0c(0x40, 0x155, 0xF6));
    mock.set_reg(
        Acs37800EepromRegister::R0D,
        pack_r0d(true, 0b101, 0xAA, 0b110),
    );
    mock.set_reg(
        Acs37800EepromRegister::R0E,
        pack_r0e(0x17, 0x2A, 0x18, true, true, false, true, false),
    );
    mock.set_reg(
        Acs37800EepromRegister::R0F,
        pack_r0f(0x52, true, 0b10, 0b01, 0x1F3, true),
    );

    let eeprom = mock.read_eeprom().expect("parsed eeprom");
    assert_eq!(eeprom.qvo_fine_codes, -91);
    assert_eq!(eeprom.qvo_fine_icodes_offset, -5824);
    assert_eq!(eeprom.sns_fine_codes, -301);
    assert_eq!(eeprom.vchan_offset_codes, -10);
    assert_eq!(eeprom.crs_sns, 0b010);
    assert!(eeprom.iavgsel_enabled);
    assert!(eeprom.pavgsel_enabled);
    assert_eq!(eeprom.rms_avg_1, 0x40);
    assert_eq!(eeprom.rms_avg_2, 0x155);
    assert!(eeprom.ichan_delay_enabled);
    assert_eq!(eeprom.chan_delay_sel, 0b101);
    assert_eq!(eeprom.fault_threshold_codes, 0xAA);
    assert_eq!(eeprom.fault_delay_setting, 0b110);
    assert_eq!(eeprom.vevent_cycles, 0x17);
    assert_eq!(eeprom.overvoltage_threshold_codes, 0x2A);
    assert_eq!(eeprom.undervoltage_threshold_codes, 0x18);
    assert_eq!(eeprom.zerocross_pulse_width_us, 256);
    assert!(eeprom.halfcycle_en);
    assert!(!eeprom.squarewave_en);
    assert!(eeprom.zerocross_current_channel);
    assert!(!eeprom.zerocross_rising_edge);
    assert_eq!(eeprom.i2c_address_7bit, 0x52);
    assert!(eeprom.i2c_address_disabled);
    assert_eq!(eeprom.dio0_sel_raw, 0b10);
    assert_eq!(eeprom.dio1_sel_raw, 0b01);
    assert_eq!(eeprom.n_cycles, 0x1F3);
    assert!(eeprom.bypass_n_en);
}

#[test]
fn read_eeprom_propagates_errors() {
    let mut mock = MockDevice::with_failure(Acs37800EepromRegister::R0C);
    mock.set_reg(Acs37800EepromRegister::R0B, pack_r0b(0, 0, 0, false, false));
    let err = mock.read_eeprom_raw().unwrap_err();
    acs37800::assert_is_bus_error(&err);
    assert!(matches!(err, Acs37800ReadError::Io(_)));
}

#[test]
fn read_eeprom_fails_when_interpreting_and_a_read_fails() {
    let mut mock = MockDevice::with_failure(Acs37800EepromRegister::R0C);
    mock.set_reg(Acs37800EepromRegister::R0B, pack_r0b(1, 2, 3, true, true));
    mock.set_reg(Acs37800EepromRegister::R0D, pack_r0d(true, 1, 2, 3));
    mock.set_reg(
        Acs37800EepromRegister::R0E,
        pack_r0e(1, 2, 3, true, false, false, false, false),
    );
    mock.set_reg(Acs37800EepromRegister::R0F, pack_r0f(4, false, 1, 2, 3, true));
    let err = mock.read_eeprom().unwrap_err();
    acs37800::assert_is_bus_error(&err);
}

#[test]
fn read_eeprom_stops_at_the_first_failing_register() {
    // Register 0x0C fails, so registers 0x0D..0x0F are never requested:
    // exactly two bus transactions happen (0x0B, then the failing 0x0C).
    let mut mock = MockDevice::with_failure(Acs37800EepromRegister::R0C);
    mock.set_reg(Acs37800EepromRegister::R0B, pack_r0b(1, 2, 3, true, true));
    mock.set_reg(Acs37800EepromRegister::R0D, pack_r0d(true, 1, 2, 3));
    assert!(mock.read_eeprom_raw().is_err());
    assert_eq!(mock.transactions, 2);
}
