//! Driver for the time-of-flight distance sensor.
//!
//! The sensor is a register file behind a two-wire bus; the bus itself is a
//! port ([`I2cBus`]) the user implements. What the driver computes — the
//! register write payloads and the decoding of every register value the
//! device can return — is exact, verified logic; what the device answers is
//! outside its control, so the bus-facing methods promise nothing about the
//! values read.
use vstd::prelude::*;

verus! {

/// Bus address of the sensor.
pub const ADDR: u8 = 0x29;

/// Register addresses, from the vendor's driver.
pub const VHV_CONFIG_TIMEOUT_MACROP_LOOP_BOUND: u16 = 0x08;

/// Interrupt polarity configuration register.
pub const GPIO_HV_MUX_CTRL: u16 = 0x30;

/// Data-ready status register.
pub const GPIO_TIO_HV_STATUS: u16 = 0x31;

/// Distance-mode configuration register.
pub const PHASECAL_CONFIG_TIMEOUT_MACROP: u16 = 0x4b;

/// First timing-budget configuration register.
pub const RANGE_CONFIG_TIMEOUT_MACROP_A_HI: u16 = 0x5e;

/// Pulse-period configuration register A.
pub const RANGE_CONFIG_VCSEL_PERIOD_A: u16 = 0x60;

/// Second timing-budget configuration register.
pub const RANGE_CONFIG_TIMEOUT_MACROP_B_HI: u16 = 0x61;

/// Pulse-period configuration register B.
pub const RANGE_CONFIG_VCSEL_PERIOD_B: u16 = 0x63;

/// Phase-window configuration register.
pub const RANGE_CONFIG_VALID_PHASE_HIGH: u16 = 0x69;

/// Inter-measurement period register.
pub const SYSTEM_INTERMEASUREMENT_PERIOD: u16 = 0x6c;

/// Window-of-interest configuration register.
pub const SD_CONFIG_WOI_SD0: u16 = 0x78;

/// Initial-phase configuration register.
pub const SD_CONFIG_INITIAL_PHASE_SD0: u16 = 0x7a;

/// Interrupt-clear register.
pub const SYSTEM_INTERRUPT_CLEAR: u16 = 0x86;

/// Ranging start/stop register.
pub const SYSTEM_MODE_START: u16 = 0x87;

/// Range status result register.
pub const RESULT_RANGE_STATUS: u16 = 0x89;

/// Distance result register.
pub const RESULT_FINAL_RANGE_MM: u16 = 0x96;

/// Oscillator calibration result register.
pub const RESULT_OSC_CALIBRATE_VAL: u16 = 0xde;

/// Firmware boot status register.
pub const FIRMWARE_SYSTEM_STATUS: u16 = 0xe5;

/// Number of configuration bytes loaded at initialization, one per register
/// from `0x2d` up to `0x88`.
pub const INIT_CONFIG_BYTES: usize = 91;

/// The two-wire bus port. Implementations live outside the verified
/// library; nothing is assumed of the values a read returns beyond their
/// count.
pub trait I2cBus: Sized {
    /// The implementation's error type.
    type BusError;

    /// Write `bytes` to the device at `addr`.
    fn bus_write(&mut self, addr: u8, bytes: &Vec<u8>) -> Result<(), Self::BusError>;

    /// Write `reg` to the device at `addr`, then read `read_len` bytes.
    fn bus_write_read(&mut self, addr: u8, reg: &Vec<u8>, read_len: usize) -> (r: Result<
        Vec<u8>,
        Self::BusError,
    >)
        ensures
            (r matches Ok(v) ==> v@.len() == read_len),
    ;
}

/// Driver errors: a bus fault, or a register value or request outside the
/// device's tables.
#[derive(Clone, Copy, Debug, PartialEq, Eq)]
pub enum Error<E> {
    /// The bus port refused a transfer.
    I2C(E),
    /// The requested timing budget is not available in the current distance
    /// mode.
    InvalidTimingForDistanceMode,
    /// The timing-budget registers hold a value outside the device's table.
    InvalidTimingBudget,
    /// The distance-mode register holds a value outside the device's table.
    InvalidDistanceMode,
    /// The device never signalled data ready during initialization.
    Timeout,
}

/// Boot state of the device firmware.
#[derive(Clone, Copy, Debug, PartialEq, Eq, Structural)]
pub enum BootState {
    /// Firmware is up; the device accepts configuration.
    Booted,
    /// Firmware is still booting.
    NotBooted,
}

/// Ranging distance mode.
#[derive(Clone, Copy, Debug, PartialEq, Eq, Structural)]
pub enum DistanceMode {
    /// Up to roughly 1.3 m, better ambient immunity.
    Short,
    /// Up to roughly 4 m in the dark.
    Long,
}

/// Measurement timing budget.
#[derive(Clone, Copy, Debug, PartialEq, Eq, Structural)]
pub enum TimingBudget {
    /// 15 ms; short distance mode only.
    Ms15,
    /// 20 ms.
    Ms20,
    /// 33 ms.
    Ms33,
    /// 50 ms.
    Ms50,
    /// 100 ms.
    Ms100,
    /// 200 ms.
    Ms200,
    /// 500 ms.
    Ms500,
}

/// Decoded ranging status.
#[derive(Clone, Copy, Debug, PartialEq, Eq, Structural)]
pub enum RangeStatus {
    /// The measurement is valid.
    RangeValid,
    /// Poor measurement repeatability; a larger timing budget helps.
    SigmaFailureWarning,
    /// Return signal too weak for a good answer.
    SignalFailureWarning,
    /// Ranging in a non-appropriated zone; the result may be inconsistent.
    OutOfBoundsError,
    /// The target is beyond the mode's unambiguous range.
    WraparoundError,
    /// A status the vendor left undocumented; the value is the vendor's
    /// error code.
    Undocumented(u8),
    /// A register value that maps to no error code.
    InvalidRegisterValue(u8),
}

/// Boot state read from the firmware status register: any non-zero value
/// means booted.
pub fn decode_boot_state(byte: u8) -> (r: BootState)
    ensures
        r == (if byte == 0 {
            BootState::NotBooted
        } else {
            BootState::Booted
        }),
{
    if byte == 0 {
        BootState::NotBooted
    } else {
        BootState::Booted
    }
}

/// Distance mode encoded in the phase-calibration timeout register.
pub fn decode_distance_mode<E>(byte: u8) -> (r: Result<DistanceMode, Error<E>>)
    ensures
        r == (if byte == 0x14 {
            Ok::<DistanceMode, Error<E>>(DistanceMode::Short)
        } else if byte == 0x0a {
            Ok::<DistanceMode, Error<E>>(DistanceMode::Long)
        } else {
            Err::<DistanceMode, Error<E>>(Error::InvalidDistanceMode)
        }),
{
    match byte {
        0x14 => Ok(DistanceMode::Short),
        0x0a => Ok(DistanceMode::Long),
        _ => Err(Error::InvalidDistanceMode),
    }
}

/// The timing budget encoded by a raw timeout register value, as the
/// vendor's table has it (one row per mode).
pub open spec fn timing_budget_of(raw: u16) -> Result<TimingBudget, ()> {
    if raw == 0x001d {
        Ok(TimingBudget::Ms15)
    } else if raw == 0x0051 || raw == 0x001e {
        Ok(TimingBudget::Ms20)
    } else if raw == 0x00d6 || raw == 0x0060 {
        Ok(TimingBudget::Ms33)
    } else if raw == 0x01ae || raw == 0x00ad {
        Ok(TimingBudget::Ms50)
    } else if raw == 0x02e1 || raw == 0x01cc {
        Ok(TimingBudget::Ms100)
    } else if raw == 0x03e1 || raw == 0x02d9 {
        Ok(TimingBudget::Ms200)
    } else if raw == 0x0591 || raw == 0x048f {
        Ok(TimingBudget::Ms500)
    } else {
        Err(())
    }
}

/// Decode a timing budget from the raw timeout register value.
pub fn decode_timing_budget<E>(raw: u16) -> (r: Result<TimingBudget, Error<E>>)
    ensures
        r == (match timing_budget_of(raw) {
            Ok(b) => Ok::<TimingBudget, Error<E>>(b),
            Err(()) => Err::<TimingBudget, Error<E>>(Error::InvalidTimingBudget),
        }),
{
    match raw {
        0x001d => Ok(TimingBudget::Ms15),
        0x0051 => Ok(TimingBudget::Ms20),
        0x001e => Ok(TimingBudget::Ms20),
        0x00d6 => Ok(TimingBudget::Ms33),
        0x0060 => Ok(TimingBudget::Ms33),
        0x01ae => Ok(TimingBudget::Ms50),
        0x00ad => Ok(TimingBudget::Ms50),
        0x02e1 => Ok(TimingBudget::Ms100),
        0x01cc => Ok(TimingBudget::Ms100),
        0x03e1 => Ok(TimingBudget::Ms200),
        0x02d9 => Ok(TimingBudget::Ms200),
        0x0591 => Ok(TimingBudget::Ms500),
        0x048f => Ok(TimingBudget::Ms500),
        _ => Err(Error::InvalidTimingBudget),
    }
}

/// The two timeout register values that program a timing budget in a
/// distance mode, as the vendor's table has them; 15 ms is available in
/// short mode only.
pub open spec fn timing_macrop_of(mode: DistanceMode, budget: TimingBudget) -> Result<
    (u16, u16),
    (),
> {
    match mode {
        DistanceMode::Short => match budget {
            TimingBudget::Ms15 => Ok((0x001d, 0x0027)),
            TimingBudget::Ms20 => Ok((0x0051, 0x006e)),
            TimingBudget::Ms33 => Ok((0x00d6, 0x006e)),
            TimingBudget::Ms50 => Ok((0x01ae, 0x01e8)),
            TimingBudget::Ms100 => Ok((0x02e1, 0x0388)),
            TimingBudget::Ms200 => Ok((0x03e1, 0x0496)),
            TimingBudget::Ms500 => Ok((0x0591, 0x05c1)),
        },
        DistanceMode::Long => match budget {
            TimingBudget::Ms15 => Err(()),
            TimingBudget::Ms20 => Ok((0x001e, 0x0022)),
            TimingBudget::Ms33 => Ok((0x0060, 0x006e)),
            TimingBudget::Ms50 => Ok((0x00ad, 0x00c6)),
            TimingBudget::Ms100 => Ok((0x01cc, 0x01ea)),
            TimingBudget::Ms200 => Ok((0x02d9, 0x02f8)),
            TimingBudget::Ms500 => Ok((0x048f, 0x04a4)),
        },
    }
}

/// The timeout register values for a budget in a mode.
pub fn timing_macrop<E>(mode: DistanceMode, budget: TimingBudget) -> (r: Result<
    (u16, u16),
    Error<E>,
>)
    ensures
        r == (match timing_macrop_of(mode, budget) {
            Ok(v) => Ok::<(u16, u16), Error<E>>(v),
            Err(()) => Err::<(u16, u16), Error<E>>(Error::InvalidTimingForDistanceMode),
        }),
{
    match mode {
        DistanceMode::Short => match budget {
            TimingBudget::Ms15 => Ok((0x001d, 0x0027)),
            TimingBudget::Ms20 => Ok((0x0051, 0x006e)),
            TimingBudget::Ms33 => Ok((0x00d6, 0x006e)),
            TimingBudget::Ms50 => Ok((0x01ae, 0x01e8)),
            TimingBudget::Ms100 => Ok((0x02e1, 0x0388)),
            TimingBudget::Ms200 => Ok((0x03e1, 0x0496)),
            TimingBudget::Ms500 => Ok((0x0591, 0x05c1)),
        },
        DistanceMode::Long => match budget {
            TimingBudget::Ms15 => Err(Error::InvalidTimingForDistanceMode),
            TimingBudget::Ms20 => Ok((0x001e, 0x0022)),
            TimingBudget::Ms33 => Ok((0x0060, 0x006e)),
            TimingBudget::Ms50 => Ok((0x00ad, 0x00c6)),
            TimingBudget::Ms100 => Ok((0x01cc, 0x01ea)),
            TimingBudget::Ms200 => Ok((0x02d9, 0x02f8)),
            TimingBudget::Ms500 => Ok((0x048f, 0x04a4)),
        },
    }
}

/// The range status encoded by the low five bits of the status register, as
/// the vendor's table has it.
pub open spec fn range_status_of(status: u8) -> RangeStatus {
    if status == 3 {
        RangeStatus::Undocumented(5)
    } else if status == 4 {
        RangeStatus::SignalFailureWarning
    } else if status == 5 {
        RangeStatus::OutOfBoundsError
    } else if status == 6 {
        RangeStatus::SigmaFailureWarning
    } else if status == 7 {
        RangeStatus::WraparoundError
    } else if status == 8 {
        RangeStatus::Undocumented(3)
    } else if status == 9 {
        RangeStatus::RangeValid
    } else if status == 12 {
        RangeStatus::Undocumented(9)
    } else if status == 13 {
        RangeStatus::Undocumented(13)
    } else if status == 18 {
        RangeStatus::Undocumented(10)
    } else if status == 19 {
        RangeStatus::Undocumented(6)
    } else if status == 22 {
        RangeStatus::Undocumented(11)
    } else if status == 23 {
        RangeStatus::Undocumented(12)
    } else {
        RangeStatus::InvalidRegisterValue(status)
    }
}

/// Decode a range status from the raw status register byte: only its low
/// five bits carry the code.
pub fn decode_range_status(byte: u8) -> (r: RangeStatus)
    ensures
        r == range_status_of(byte % 0x20),
{
    let status = byte % 0x20;
    match status {
        3 => RangeStatus::Undocumented(5),
        4 => RangeStatus::SignalFailureWarning,
        5 => RangeStatus::OutOfBoundsError,
        6 => RangeStatus::SigmaFailureWarning,
        7 => RangeStatus::WraparoundError,
        8 => RangeStatus::Undocumented(3),
        9 => RangeStatus::RangeValid,
        12 => RangeStatus::Undocumented(9),
        13 => RangeStatus::Undocumented(13),
        18 => RangeStatus::Undocumented(10),
        19 => RangeStatus::Undocumented(6),
        22 => RangeStatus::Undocumented(11),
        23 => RangeStatus::Undocumented(12),
        v => RangeStatus::InvalidRegisterValue(v),
    }
}

/// Interrupt polarity encoded in the multiplexer control register: the bit
/// under mask `0x10`, inverted, as 1 (active high) or 0 (active low).
pub fn decode_interrupt_polarity(byte: u8) -> (r: u8)
    ensures
        r == 1 - (byte as int / 16 % 2),
{
    1 - (byte / 16 % 2)
}

/// Whether the data-ready status byte signals fresh data under the given
/// polarity: its lowest bit matches the polarity.
pub fn data_ready(status: u8, polarity: u8) -> (r: bool)
    ensures
        r == ((status as int % 2) == polarity),
{
    status % 2 == polarity
}

/// The inter-measurement period register value for a period in
/// milliseconds: the oscillator calibration count (low ten bits of its
/// register) times the period, corrected by the vendor's 43/40 factor.
pub fn inter_measurement_ticks(osc_raw: u16, period_ms: u32) -> (r: u32)
    requires
        period_ms <= 97_000,
    ensures
        r == (osc_raw as int % 0x400) * period_ms * 43 / 40,
{
    let clock_pll: u32 = (osc_raw % 0x400) as u32;
    proof {
        assert(clock_pll * period_ms * 43 <= 1023 * 97_000 * 43) by (nonlinear_arith)
            requires
                clock_pll <= 1023,
                period_ms <= 97_000,
        ;
    }
    clock_pll * period_ms * 43 / 40
}

/// The bytes of a register write: the register address in big-endian,
/// followed by the payload.
pub open spec fn reg_write_bytes(register: u16, payload: Seq<u8>) -> Seq<u8> {
    crate::simplefs::be2(register as int) + payload
}

/// The distance sensor on a two-wire bus.
pub struct VL53L1X<I2C> {
    i2c: I2C,
    addr: u8,
}

impl<I2C: I2cBus> VL53L1X<I2C> {
    /// A driver over the given bus for the device at `addr`.
    pub fn new(i2c: I2C, addr: u8) -> VL53L1X<I2C> {
        VL53L1X { i2c, addr }
    }

    /// Write `reg` big-endian, then read `read_len` bytes.
    fn read_reg(&mut self, register: u16, read_len: usize) -> (r: Result<Vec<u8>, Error<
        I2C::BusError,
    >>)
        ensures
            (r matches Ok(v) ==> v@.len() == read_len),
    {
        let mut reg: Vec<u8> = Vec::new();
        crate::simplefs::push_u16_be(&mut reg, register);
        match self.i2c.bus_write_read(self.addr, &reg, read_len) {
            Ok(v) => Ok(v),
            Err(e) => Err(Error::I2C(e)),
        }
    }

    /// Write one byte to a register.
    fn write_u8(&mut self, register: u16, data: u8) -> Result<(), Error<I2C::BusError>> {
        let mut bytes: Vec<u8> = Vec::new();
        crate::simplefs::push_u16_be(&mut bytes, register);
        bytes.push(data);
        proof {
            assert(bytes@ =~= reg_write_bytes(register, seq![data]));
        }
        match self.i2c.bus_write(self.addr, &bytes) {
            Ok(()) => Ok(()),
            Err(e) => Err(Error::I2C(e)),
        }
    }

    /// Write a big-endian 16-bit value to a register.
    fn write_u16(&mut self, register: u16, data: u16) -> Result<(), Error<I2C::BusError>> {
        let mut bytes: Vec<u8> = Vec::new();
        crate::simplefs::push_u16_be(&mut bytes, register);
        crate::simplefs::push_u16_be(&mut bytes, data);
        proof {
            assert(bytes@ =~= reg_write_bytes(register, crate::simplefs::be2(data as int)));
        }
        match self.i2c.bus_write(self.addr, &bytes) {
            Ok(()) => Ok(()),
            Err(e) => Err(Error::I2C(e)),
        }
    }

    /// Write a big-endian 32-bit value to a register.
    fn write_u32(&mut self, register: u16, data: u32) -> Result<(), Error<I2C::BusError>> {
        let mut bytes: Vec<u8> = Vec::new();
        crate::simplefs::push_u16_be(&mut bytes, register);
        crate::simplefs::push_u32_be(&mut bytes, data);
        proof {
            assert(bytes@ =~= reg_write_bytes(register, crate::simplefs::be4(data as int)));
        }
        match self.i2c.bus_write(self.addr, &bytes) {
            Ok(()) => Ok(()),
            Err(e) => Err(Error::I2C(e)),
        }
    }

    /// The boot state of the device firmware.
    pub fn boot_state(&mut self) -> Result<BootState, Error<I2C::BusError>> {
        let buffer = self.read_reg(FIRMWARE_SYSTEM_STATUS, 1)?;
        Ok(decode_boot_state(buffer[0]))
    }

    /// Load the configuration table into registers `0x2d..0x88`, run one
    /// throwaway measurement (busy-waiting for it, as this runs before the
    /// scheduler exists), and program the voltage-calibration bounds.
    pub fn sensor_init(&mut self, config: &Vec<u8>) -> Result<(), Error<I2C::BusError>>
        requires
            config@.len() == INIT_CONFIG_BYTES,
    {
        let mut reg: u16 = 0x2d;
        while reg < 0x88
            invariant
                0x2d <= reg <= 0x88,
                config@.len() == INIT_CONFIG_BYTES,
            decreases 0x88 - reg,
        {
            let byte_offset = (reg - 0x2d) as usize;
            self.write_u8(reg, config[byte_offset])?;
            reg = reg + 1;
        }

        self.start_ranging()?;
        let mut ready = false;
        let mut attempts: u32 = 0;
        while !ready && attempts < 0xffff_ffff
            invariant
                config@.len() == INIT_CONFIG_BYTES,
            decreases 0xffff_ffffu32 - attempts,
        {
            ready = self.check_for_data_ready()?;
            attempts = attempts + 1;
        }
        if !ready {
            return Err(Error::Timeout);
        }
        self.clear_interrupt()?;
        self.stop_ranging()?;

        self.write_u8(VHV_CONFIG_TIMEOUT_MACROP_LOOP_BOUND, 0x09)?;
        self.write_u8(0x0b, 0)?;

        Ok(())
    }

    /// The timing budget currently programmed, decoded from the timeout
    /// register against the vendor's table.
    pub fn get_timing_budget(&mut self) -> Result<TimingBudget, Error<I2C::BusError>> {
        let buffer = self.read_reg(RANGE_CONFIG_TIMEOUT_MACROP_A_HI, 2)?;
        let raw = crate::simplefs::read_u16_be(&buffer, 0);
        decode_timing_budget(raw)
    }

    /// Program a timing budget. The register values depend on the current
    /// distance mode, so this must run after the mode is set; 15 ms is
    /// rejected in long mode.
    pub fn set_timing_budget(&mut self, budget: TimingBudget) -> Result<(), Error<I2C::BusError>> {
        let mode = self.get_distance_mode()?;
        let (a_hi, b_hi) = timing_macrop(mode, budget)?;
        self.write_u16(RANGE_CONFIG_TIMEOUT_MACROP_A_HI, a_hi)?;
        self.write_u16(RANGE_CONFIG_TIMEOUT_MACROP_B_HI, b_hi)?;
        Ok(())
    }

    /// Program the inter-measurement period, in milliseconds. The period
    /// must be at least the timing budget; the device does not check this.
    pub fn set_inter_measurement(&mut self, period_ms: u32) -> Result<(), Error<I2C::BusError>>
        requires
            period_ms <= 97_000,
    {
        let buffer = self.read_reg(RESULT_OSC_CALIBRATE_VAL, 2)?;
        let osc_raw = crate::simplefs::read_u16_be(&buffer, 0);
        let ticks = inter_measurement_ticks(osc_raw, period_ms);
        self.write_u32(SYSTEM_INTERMEASUREMENT_PERIOD, ticks)?;
        Ok(())
    }

    /// The distance mode currently programmed, decoded against the vendor's
    /// table.
    pub fn get_distance_mode(&mut self) -> Result<DistanceMode, Error<I2C::BusError>> {
        let buffer = self.read_reg(PHASECAL_CONFIG_TIMEOUT_MACROP, 1)?;
        decode_distance_mode(buffer[0])
    }

    /// Program the distance mode, then re-program the timing budget read
    /// beforehand, since its register values depend on the mode.
    pub fn set_distance_mode(&mut self, mode: DistanceMode) -> Result<(), Error<I2C::BusError>> {
        let timing_budget = self.get_timing_budget()?;

        match mode {
            DistanceMode::Short => {
                self.write_u8(PHASECAL_CONFIG_TIMEOUT_MACROP, 0x14)?;
                self.write_u8(RANGE_CONFIG_VCSEL_PERIOD_A, 0x07)?;
                self.write_u8(RANGE_CONFIG_VCSEL_PERIOD_B, 0x05)?;
                self.write_u8(RANGE_CONFIG_VALID_PHASE_HIGH, 0x38)?;
                self.write_u16(SD_CONFIG_WOI_SD0, 0x0705)?;
                self.write_u16(SD_CONFIG_INITIAL_PHASE_SD0, 0x0606)?;
            },
            DistanceMode::Long => {
                self.write_u8(PHASECAL_CONFIG_TIMEOUT_MACROP, 0x0a)?;
                self.write_u8(RANGE_CONFIG_VCSEL_PERIOD_A, 0x0f)?;
                self.write_u8(RANGE_CONFIG_VCSEL_PERIOD_B, 0x0d)?;
                self.write_u8(RANGE_CONFIG_VALID_PHASE_HIGH, 0xb8)?;
                self.write_u16(SD_CONFIG_WOI_SD0, 0x0f0d)?;
                self.write_u16(SD_CONFIG_INITIAL_PHASE_SD0, 0x0e0e)?;
            },
        }

        self.set_timing_budget(timing_budget)
    }

    /// Start continuous ranging. The interrupt must be cleared after each
    /// reading to arm the next one.
    pub fn start_ranging(&mut self) -> Result<(), Error<I2C::BusError>> {
        self.write_u8(SYSTEM_MODE_START, 0x40)?;
        Ok(())
    }

    /// Stop ranging.
    pub fn stop_ranging(&mut self) -> Result<(), Error<I2C::BusError>> {
        self.write_u8(SYSTEM_MODE_START, 0x00)?;
        Ok(())
    }

    /// Whether fresh ranging data is available: the data-ready status bit
    /// matches the programmed interrupt polarity.
    pub fn check_for_data_ready(&mut self) -> Result<bool, Error<I2C::BusError>> {
        let polarity = self.get_interrupt_polarity()?;
        let buffer = self.read_reg(GPIO_TIO_HV_STATUS, 1)?;
        Ok(data_ready(buffer[0], polarity))
    }

    /// The measured distance in millimeters.
    pub fn get_distance(&mut self) -> Result<u16, Error<I2C::BusError>> {
        let buffer = self.read_reg(RESULT_FINAL_RANGE_MM, 2)?;
        Ok(crate::simplefs::read_u16_be(&buffer, 0))
    }

    /// The status of the last measurement, decoded against the vendor's
    /// table.
    pub fn get_range_status(&mut self) -> Result<RangeStatus, Error<I2C::BusError>> {
        let buffer = self.read_reg(RESULT_RANGE_STATUS, 1)?;
        Ok(decode_range_status(buffer[0]))
    }

    /// Clear the interrupt after a reading, arming the next data-ready
    /// event.
    pub fn clear_interrupt(&mut self) -> Result<(), Error<I2C::BusError>> {
        self.write_u8(SYSTEM_INTERRUPT_CLEAR, 1)?;
        Ok(())
    }

    /// The programmed interrupt polarity: 1 active high (the default), 0
    /// active low.
    pub fn get_interrupt_polarity(&mut self) -> Result<u8, Error<I2C::BusError>> {
        let buffer = self.read_reg(GPIO_HV_MUX_CTRL, 1)?;
        Ok(decode_interrupt_polarity(buffer[0]))
    }
}

} // verus!
