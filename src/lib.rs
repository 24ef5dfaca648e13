//! Register-level driver logic for the AKM AK09916 3-axis magnetometer.
//!
//! The library holds everything that decides: the register codecs, the
//! measurement decoder, the self-test check and the bus-operation sequencer
//! that drives mode switches, polling, soft resets and register dumps. The
//! transport and the delay provider stay with the caller, who performs each
//! action the sequencer asks for and hands back what came of it.
use vstd::prelude::*;

pub mod regs;
pub mod sequencer;

verus! {

/// I²C address of AK09916
pub const I2C_ADDRESS: u8 = 0x0c;

/// Minimum wait time before setting mode in μs
pub const MODE_SET_WAIT_TIME_US: u32 = 100;

/// Sensitivity of the sensor as nT / bit.
pub const SENSITIVITY_NT_PER_BIT: i32 = 150;

/// Who I Am register data
#[derive(Copy, Clone, Debug, PartialEq, Eq, Structural)]
pub struct WhoIAm {
    /// Company ID
    pub company_id: u8,
    /// Device ID
    pub device_id: u8,
}

impl WhoIAm {
    /// Company ID of AKM
    pub const AKM_COMPANY_ID: u8 = 0x48;
    /// Device ID of AK09916
    pub const AK09916_DEVICE_ID: u8 = 0x09;

    /// Expected Who I Am data for AK09916
    pub fn ak09916() -> (r: WhoIAm)
        ensures
            r.company_id == WhoIAm::AKM_COMPANY_ID,
            r.device_id == WhoIAm::AK09916_DEVICE_ID,
    {
        WhoIAm { company_id: WhoIAm::AKM_COMPANY_ID, device_id: WhoIAm::AK09916_DEVICE_ID }
    }
}

/// Operation mode setting
#[derive(Copy, Clone, Debug, PartialEq, Eq, Structural)]
pub enum Mode {
    /// Power-down mode
    PowerDown,
    /// Single measurement mode
    SingleMeasurement,
    /// Continuous measurement mode 1 (10 Hz)
    Continuous10Hz,
    /// Continuous measurement mode 2 (20 Hz)
    Continuous20Hz,
    /// Continuous measurement mode 3 (50 Hz)
    Continuous50Hz,
    /// Continuous measurement mode 4 (100 Hz)
    Continuous100Hz,
    /// Self-test mode
    SelfTest,
}

impl Mode {
    /// Alias for [`Mode::Continuous10Hz`]
    pub const CONTINUOUS_1: Mode = Mode::Continuous10Hz;
    /// Alias for [`Mode::Continuous20Hz`]
    pub const CONTINUOUS_2: Mode = Mode::Continuous20Hz;
    /// Alias for [`Mode::Continuous50Hz`]
    pub const CONTINUOUS_3: Mode = Mode::Continuous50Hz;
    /// Alias for [`Mode::Continuous100Hz`]
    pub const CONTINUOUS_4: Mode = Mode::Continuous100Hz;

    /// The 5-bit code of the mode in the mode-control register.
    pub open spec fn code(self) -> u8 {
        match self {
            Mode::PowerDown => 0b00000,
            Mode::SingleMeasurement => 0b00001,
            Mode::Continuous10Hz => 0b00010,
            Mode::Continuous20Hz => 0b00100,
            Mode::Continuous50Hz => 0b00110,
            Mode::Continuous100Hz => 0b01000,
            Mode::SelfTest => 0b10000,
        }
    }

    /// The mode whose code is `code`, if there is one.
    pub open spec fn spec_from_code(code: u8) -> Option<Mode> {
        if code == 0b00000 {
            Some(Mode::PowerDown)
        } else if code == 0b00001 {
            Some(Mode::SingleMeasurement)
        } else if code == 0b00010 {
            Some(Mode::Continuous10Hz)
        } else if code == 0b00100 {
            Some(Mode::Continuous20Hz)
        } else if code == 0b00110 {
            Some(Mode::Continuous50Hz)
        } else if code == 0b01000 {
            Some(Mode::Continuous100Hz)
        } else if code == 0b10000 {
            Some(Mode::SelfTest)
        } else {
            None
        }
    }

    /// Looks up the mode whose register code is `code`.
    pub fn from_code(code: u8) -> (r: Option<Mode>)
        ensures
            r == Mode::spec_from_code(code),
            r matches Some(m) ==> m.code() == code,
            (exists|m: Mode| m.code() == code) ==> r is Some,
    {
        proof {
            Mode::lemma_code_injective();
        }
        match code {
            0b00000 => Some(Mode::PowerDown),
            0b00001 => Some(Mode::SingleMeasurement),
            0b00010 => Some(Mode::Continuous10Hz),
            0b00100 => Some(Mode::Continuous20Hz),
            0b00110 => Some(Mode::Continuous50Hz),
            0b01000 => Some(Mode::Continuous100Hz),
            0b10000 => Some(Mode::SelfTest),
            _ => None,
        }
    }

    /// Every mode is found again from its code.
    pub proof fn lemma_code_injective()
        ensures
            forall|m: Mode| #[trigger] Mode::spec_from_code(m.code()) == Some(m),
            forall|m: Mode| #[trigger] m.code() < 32,
    {
    }
}

impl From<Mode> for u8 {
    fn from(value: Mode) -> (r: u8) {
        match value {
            Mode::PowerDown => 0b00000,
            Mode::SingleMeasurement => 0b00001,
            Mode::Continuous10Hz => 0b00010,
            Mode::Continuous20Hz => 0b00100,
            Mode::Continuous50Hz => 0b00110,
            Mode::Continuous100Hz => 0b01000,
            Mode::SelfTest => 0b10000,
        }
    }
}

impl vstd::std_specs::convert::FromSpecImpl<Mode> for u8 {
    open spec fn obeys_from_spec() -> bool {
        true
    }

    open spec fn from_spec(v: Mode) -> u8 {
        v.code()
    }
}

/// Measurement data
#[derive(Copy, Clone, Debug, PartialEq, Eq, Structural)]
pub struct Measurement {
    /// X-axis (raw value)
    pub hx: i16,
    /// Y-axis (raw value)
    pub hy: i16,
    /// Z-axis (raw value)
    pub hz: i16,
    /// Flags
    pub flags: MeasurementFlags,
}

/// The flag bits of a measurement with the given conditions.
pub open spec fn flag_bits(overrun: bool, overflow: bool) -> u8 {
    (if overrun { MeasurementFlags::OVERRUN } else { 0u8 }) | (if overflow {
        MeasurementFlags::OVERFLOW
    } else {
        0u8
    })
}

/// The overrun and overflow flags are read back from their bits.
proof fn lemma_flag_bits(overrun: bool, overflow: bool)
    ensures
        (flag_bits(overrun, overflow) & MeasurementFlags::OVERRUN == MeasurementFlags::OVERRUN)
            == overrun,
        (flag_bits(overrun, overflow) & MeasurementFlags::OVERFLOW == MeasurementFlags::OVERFLOW)
            == overflow,
{
    assert((0u8 | 0u8) & 2u8 == 0u8 && (0u8 | 0u8) & 8u8 == 0u8) by (bit_vector);
    assert((2u8 | 0u8) & 2u8 == 2u8 && (2u8 | 0u8) & 8u8 == 0u8) by (bit_vector);
    assert((0u8 | 8u8) & 2u8 == 0u8 && (0u8 | 8u8) & 8u8 == 8u8) by (bit_vector);
    assert((2u8 | 8u8) & 2u8 == 2u8 && (2u8 | 8u8) & 8u8 == 8u8) by (bit_vector);
}

/// Whether `m` is what the 8-byte block `data` decodes to, with `st1` the
/// status-1 bits read before it.
pub open spec fn is_measurement_of(m: Measurement, st1: u8, data: Seq<u8>) -> bool {
    &&& m.hx == regs::le_i16(data[0], data[1])
    &&& m.hy == regs::le_i16(data[2], data[3])
    &&& m.hz == regs::le_i16(data[4], data[5])
    &&& m.flags@ == flag_bits(
        st1 & regs::St1::DOR == regs::St1::DOR,
        data[7] & regs::St2::HOFL == regs::St2::HOFL,
    )
}

/// A raw axis count in nanoteslas.
pub open spec fn nanoteslas(raw: i16) -> int {
    raw * SENSITIVITY_NT_PER_BIT
}

impl Measurement {
    /// Whether the flags record a data overrun.
    pub open spec fn spec_overrun(self) -> bool {
        self.flags@ & MeasurementFlags::OVERRUN == MeasurementFlags::OVERRUN
    }

    /// Whether the flags record a magnetic sensor overflow.
    pub open spec fn spec_overflow(self) -> bool {
        self.flags@ & MeasurementFlags::OVERFLOW == MeasurementFlags::OVERFLOW
    }

    /// X-axis (in nT)
    pub fn x_nanoteslas(&self) -> (r: i32)
        ensures
            r == nanoteslas(self.hx),
    {
        self.hx as i32 * SENSITIVITY_NT_PER_BIT
    }

    /// Y-axis (in nT)
    pub fn y_nanoteslas(&self) -> (r: i32)
        ensures
            r == nanoteslas(self.hy),
    {
        self.hy as i32 * SENSITIVITY_NT_PER_BIT
    }

    /// Z-axis (in nT)
    pub fn z_nanoteslas(&self) -> (r: i32)
        ensures
            r == nanoteslas(self.hz),
    {
        self.hz as i32 * SENSITIVITY_NT_PER_BIT
    }

    /// Returns true if flags indicate data overrun has happened
    pub fn overrun(&self) -> (r: bool)
        ensures
            r == self.spec_overrun(),
    {
        self.flags.contains(MeasurementFlags::OVERRUN)
    }

    /// Returns true if flags indicate magnetic sensor overflow has happened
    pub fn overflow(&self) -> (r: bool)
        ensures
            r == self.spec_overflow(),
    {
        self.flags.contains(MeasurementFlags::OVERFLOW)
    }

    /// Decodes the 8-byte block that follows status 1: three little-endian
    /// signed axis counts, a dummy byte and status 2. The overrun flag comes
    /// from `st1`, the overflow flag from status 2.
    pub fn from_raw_data(st1: regs::St1, buffer: [u8; 8]) -> (r: Measurement)
        ensures
            is_measurement_of(r, st1@, buffer@),
            r.spec_overrun() == (st1@ & regs::St1::DOR == regs::St1::DOR),
            r.spec_overflow() == (buffer[7] & regs::St2::HOFL == regs::St2::HOFL),
    {
        let st2 = regs::St2::from_bits_truncate(buffer[7]);
        let overrun = if st1.contains(regs::St1::DOR) {
            MeasurementFlags::overrun_flag()
        } else {
            MeasurementFlags::empty()
        };
        let overflow = if st2.contains(regs::St2::HOFL) {
            MeasurementFlags::overflow_flag()
        } else {
            MeasurementFlags::empty()
        };
        let flags = overrun.union(overflow);
        let b7 = buffer[7];
        assert((b7 & 0x78) & 0x08 == 0x08 <==> b7 & 0x08 == 0x08) by (bit_vector);
        proof {
            lemma_flag_bits(
                st1@ & regs::St1::DOR == regs::St1::DOR,
                b7 & regs::St2::HOFL == regs::St2::HOFL,
            );
        }
        Measurement {
            hx: regs::i16_from_le_bytes([buffer[0], buffer[1]]),
            hy: regs::i16_from_le_bytes([buffer[2], buffer[3]]),
            hz: regs::i16_from_le_bytes([buffer[4], buffer[5]]),
            flags,
        }
    }
}

/// Measurement flags
#[derive(Copy, Clone, Debug, PartialEq, Eq, Structural)]
pub struct MeasurementFlags {
    bits: u8,
}

impl View for MeasurementFlags {
    type V = u8;

    /// The bits that are set.
    closed spec fn view(&self) -> u8 {
        self.bits
    }
}

/// Two flag sets with the same bits are the same set.
pub proof fn lemma_measurement_flags_bits_determine()
    ensures
        forall|v: MeasurementFlags, w: MeasurementFlags| #![trigger v@, w@] v@ == w@ ==> v == w,
{
}

impl MeasurementFlags {
    /// Magnetic sensor overflow
    pub const OVERFLOW: u8 = 0x08;
    /// Data overrun
    pub const OVERRUN: u8 = 0x02;
    /// Every named bit
    pub const ALL_BITS: u8 = 0x0a;

    /// The set with no flag set
    pub fn empty() -> (r: MeasurementFlags)
        ensures
            r@ == 0,
    {
        MeasurementFlags { bits: 0 }
    }

    /// The set that holds the overflow flag alone
    pub fn overflow_flag() -> (r: MeasurementFlags)
        ensures
            r@ == MeasurementFlags::OVERFLOW,
    {
        MeasurementFlags { bits: MeasurementFlags::OVERFLOW }
    }

    /// The set that holds the overrun flag alone
    pub fn overrun_flag() -> (r: MeasurementFlags)
        ensures
            r@ == MeasurementFlags::OVERRUN,
    {
        MeasurementFlags { bits: MeasurementFlags::OVERRUN }
    }

    /// The set of the named bits of `bits`; the others are dropped.
    pub fn from_bits_truncate(bits: u8) -> (r: MeasurementFlags)
        ensures
            r@ == bits & MeasurementFlags::ALL_BITS,
    {
        MeasurementFlags { bits: bits & MeasurementFlags::ALL_BITS }
    }

    /// The bits that are set
    pub fn bits(&self) -> (r: u8)
        ensures
            r == self@,
    {
        self.bits
    }

    /// Whether every bit of `flags` is set
    pub fn contains(&self, flags: u8) -> (r: bool)
        ensures
            r == (self@ & flags == flags),
    {
        self.bits & flags == flags
    }

    /// The set of the flags that are set in `self` or in `other`
    pub fn union(self, other: MeasurementFlags) -> (r: MeasurementFlags)
        ensures
            r@ == self@ | other@,
    {
        MeasurementFlags { bits: self.bits | other.bits }
    }
}

/// Whether a self-test measurement lies within the tolerance bands: `hx` and
/// `hy` in [-200, 200], `hz` in [-1000, -200].
pub open spec fn self_test_passes(m: Measurement) -> bool {
    -200 <= m.hx <= 200 && -200 <= m.hy <= 200 && -1000 <= m.hz <= -200
}

/// Result for a self-test
#[derive(Copy, Clone, Debug, PartialEq, Eq, Structural)]
pub struct SelfTestResult {
    /// Measurement data
    pub measurement: Measurement,
    /// True if self-test measurement data is valid and the test is passed
    pub is_valid: bool,
}

impl From<Measurement> for SelfTestResult {
    fn from(measurement: Measurement) -> (r: SelfTestResult) {
        let is_valid = -200 <= measurement.hx && measurement.hx <= 200 && -200 <= measurement.hy
            && measurement.hy <= 200 && -1000 <= measurement.hz && measurement.hz <= -200;
        SelfTestResult { measurement, is_valid }
    }
}

impl vstd::std_specs::convert::FromSpecImpl<Measurement> for SelfTestResult {
    open spec fn obeys_from_spec() -> bool {
        true
    }

    open spec fn from_spec(v: Measurement) -> SelfTestResult {
        SelfTestResult { measurement: v, is_valid: self_test_passes(v) }
    }
}

} // verus!
