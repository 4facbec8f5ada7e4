//! Driver for the BMP280 combined pressure/temperature sensor.
//!
//! Construction reads the chip's 24-byte factory calibration block, waits for
//! the chip to stabilise, and uploads the measurement configuration; reads
//! then fetch 20-bit ADC codes and run the manufacturer's fixed-point
//! compensation polynomial over the calibration coefficients. The polynomial
//! is computed in 32/64-bit two's-complement arithmetic with the documented
//! shift and multiply order; products that can exceed the machine width wrap,
//! exactly as they do on the chip vendor's reference arithmetic.

use vstd::prelude::*;

use crate::bus::Error;
use crate::bus::Transport;
use crate::hardware::Pressure;
use crate::hardware::PressureSensor;
use crate::hardware::Temperature;
use crate::hardware::TemperatureSensor;

verus! {

/// The byte written to the reset register to trigger a chip reset.
pub const RESET_VALUE: u8 = 0xB7;

/// The two fixed bus addresses the chip can be strapped to.
#[derive(Debug, Copy, Clone)]
pub enum Address {
    Primary,
    Secondary,
}

impl Address {
    /// The wire value of the address: primary `0x76`, secondary `0x77`.
    pub fn value(self) -> (r: u8)
        ensures
            r == self.spec_value(),
    {
        match self {
            Address::Primary => 0x76,
            Address::Secondary => 0x77,
        }
    }

    /// The wire value of each address.
    pub open spec fn spec_value(self) -> u8 {
        match self {
            Address::Primary => 0x76,
            Address::Secondary => 0x77,
        }
    }
}

impl Default for Address {
    fn default() -> (r: Self)
        ensures
            r is Primary,
    {
        Address::Primary
    }
}

/// The chip's register map.
#[derive(Debug, Copy, Clone)]
pub enum Register {
    CalibrationData,
    Id,
    Reset,
    Status,
    Config,
    Ctrl,
    Temperature,
    Pressure,
}

impl Register {
    /// The register's wire address.
    pub fn value(self) -> (r: u8)
        ensures
            r == self.spec_value(),
    {
        match self {
            Register::CalibrationData => 0x88,
            Register::Id => 0xD0,
            Register::Reset => 0xE0,
            Register::Status => 0xF3,
            Register::Config => 0xF5,
            Register::Ctrl => 0xF4,
            Register::Temperature => 0xFA,
            Register::Pressure => 0xF7,
        }
    }

    /// Each register's wire address: calibration block `0x88` (24 bytes),
    /// id `0xD0`, reset `0xE0`, status `0xF3`, config `0xF5`, ctrl `0xF4`,
    /// temperature `0xFA` (3 bytes), pressure `0xF7` (3 bytes).
    pub open spec fn spec_value(self) -> u8 {
        match self {
            Register::CalibrationData => 0x88,
            Register::Id => 0xD0,
            Register::Reset => 0xE0,
            Register::Status => 0xF3,
            Register::Config => 0xF5,
            Register::Ctrl => 0xF4,
            Register::Temperature => 0xFA,
            Register::Pressure => 0xF7,
        }
    }
}

/// Chip-internal repeated-sampling factor, a 3-bit control field.
#[derive(Debug, Copy, Clone)]
pub enum Oversampling {
    Skipper,
    UltraLowPower,
    LowPower,
    StandardResolution,
    HighResolution,
    UltrahighResolution,
}

impl Oversampling {
    /// The 3-bit field value.
    pub fn value(self) -> (r: u8)
        ensures
            r == self.spec_value(),
            r <= 5,
    {
        match self {
            Oversampling::Skipper => 0,
            Oversampling::UltraLowPower => 1,
            Oversampling::LowPower => 2,
            Oversampling::StandardResolution => 3,
            Oversampling::HighResolution => 4,
            Oversampling::UltrahighResolution => 5,
        }
    }

    /// The 3-bit field value of each factor.
    pub open spec fn spec_value(self) -> u8 {
        match self {
            Oversampling::Skipper => 0,
            Oversampling::UltraLowPower => 1,
            Oversampling::LowPower => 2,
            Oversampling::StandardResolution => 3,
            Oversampling::HighResolution => 4,
            Oversampling::UltrahighResolution => 5,
        }
    }
}

impl Default for Oversampling {
    fn default() -> (r: Self)
        ensures
            r is StandardResolution,
    {
        Oversampling::StandardResolution
    }
}

/// IIR filter coefficient, a 3-bit control field.
#[derive(Debug, Copy, Clone)]
pub enum Filter {
    Off,
    X2,
    X4,
    X8,
    X16,
}

impl Filter {
    /// The 3-bit field value.
    pub fn value(self) -> (r: u8)
        ensures
            r == self.spec_value(),
            r <= 4,
    {
        match self {
            Filter::Off => 0,
            Filter::X2 => 1,
            Filter::X4 => 2,
            Filter::X8 => 3,
            Filter::X16 => 4,
        }
    }

    /// The 3-bit field value of each coefficient.
    pub open spec fn spec_value(self) -> u8 {
        match self {
            Filter::Off => 0,
            Filter::X2 => 1,
            Filter::X4 => 2,
            Filter::X8 => 3,
            Filter::X16 => 4,
        }
    }
}

impl Default for Filter {
    fn default() -> (r: Self)
        ensures
            r is X4,
    {
        Filter::X4
    }
}

/// Standby time between automatic samples, a 3-bit control field.
#[derive(Debug, Copy, Clone)]
pub enum StandbyTime {
    Zero,
    Ms62,
    Ms125,
    Ms250,
    Ms500,
    Ms1000,
    Ms2000,
    Ms4000,
}

impl StandbyTime {
    /// The 3-bit field value.
    pub fn value(self) -> (r: u8)
        ensures
            r == self.spec_value(),
            r <= 7,
    {
        match self {
            StandbyTime::Zero => 0,
            StandbyTime::Ms62 => 1,
            StandbyTime::Ms125 => 2,
            StandbyTime::Ms250 => 3,
            StandbyTime::Ms500 => 4,
            StandbyTime::Ms1000 => 5,
            StandbyTime::Ms2000 => 6,
            StandbyTime::Ms4000 => 7,
        }
    }

    /// The 3-bit field value of each standby time.
    pub open spec fn spec_value(self) -> u8 {
        match self {
            StandbyTime::Zero => 0,
            StandbyTime::Ms62 => 1,
            StandbyTime::Ms125 => 2,
            StandbyTime::Ms250 => 3,
            StandbyTime::Ms500 => 4,
            StandbyTime::Ms1000 => 5,
            StandbyTime::Ms2000 => 6,
            StandbyTime::Ms4000 => 7,
        }
    }
}

impl Default for StandbyTime {
    fn default() -> (r: Self)
        ensures
            r is Zero,
    {
        StandbyTime::Zero
    }
}

/// Immutable driver configuration, supplied by the caller at construction.
pub struct Config {
    pub address: Address,
    pub temperature: Oversampling,
    pub pressure: Oversampling,
    pub filter: Filter,
    pub standby_time: StandbyTime,
}

/// The control-register byte: temperature oversampling in bits 5-7, pressure
/// oversampling in bits 2-4, and the normal-mode bits `0b11` at the bottom.
pub open spec fn spec_ctrl_byte(config: Config) -> u8 {
    (config.temperature.spec_value() * 32 + config.pressure.spec_value() * 4 + 3) as u8
}

/// The config-register byte. Both the standby and the filter field are
/// shifted onto bits 5-7, so the filter bits are ORed onto the standby field;
/// the filter field is documented at bits 2-4 in this chip family, but this
/// packing is what goes on the wire, so it is kept as it stands.
pub open spec fn spec_config_byte(config: Config) -> u8 {
    (config.standby_time.spec_value() | config.filter.spec_value()) << 5u32
}

impl Config {
    /// Packs the control-register byte from the two oversampling factors.
    pub fn ctrl_byte(&self) -> (r: u8)
        ensures
            r == spec_ctrl_byte(*self),
            r == self.temperature.spec_value() * 32 + self.pressure.spec_value() * 4 + 3,
    {
        self.temperature.value() * 32 + self.pressure.value() * 4 + 3
    }

    /// Packs the config-register byte from the standby time and the filter
    /// coefficient.
    pub fn config_byte(&self) -> (r: u8)
        ensures
            r == spec_config_byte(*self),
    {
        (self.standby_time.value() | self.filter.value()) << 5u32
    }
}

impl Default for Config {
    fn default() -> (r: Self)
        ensures
            r.address is Primary,
            r.temperature is StandardResolution,
            r.pressure is StandardResolution,
            r.filter is X4,
            r.standby_time is Zero,
    {
        Config {
            address: Address::Primary,
            temperature: Oversampling::StandardResolution,
            pressure: Oversampling::StandardResolution,
            filter: Filter::X4,
            standby_time: StandbyTime::Zero,
        }
    }
}

/// The two flag bits of the status register.
#[derive(Debug, Copy, Clone)]
pub struct Status {
    pub measuring: bool,
    pub im_update: bool,
}

impl Status {
    /// Decodes the status register byte: bit 0 is the conversion-running
    /// flag, bit 3 the image-update-in-progress flag.
    pub fn from_byte(value: u8) -> (r: Status)
        ensures
            r.measuring == ((value & 0x01) != 0),
            r.im_update == ((value & 0x08) != 0),
    {
        Status { measuring: value & 0x01 > 0, im_update: value & 0x08 > 0 }
    }
}

/// A 16-bit unsigned field read little-endian from two wire bytes.
pub open spec fn spec_u16_le(lo: u8, hi: u8) -> u16 {
    (lo + 256 * hi) as u16
}

/// A 16-bit signed (two's-complement) field read little-endian from two wire
/// bytes.
pub open spec fn spec_i16_le(lo: u8, hi: u8) -> i16 {
    if hi >= 128 {
        (lo + 256 * hi - 65536) as i16
    } else {
        (lo + 256 * hi) as i16
    }
}

fn u16_le(lo: u8, hi: u8) -> (r: u16)
    ensures
        r == spec_u16_le(lo, hi),
{
    lo as u16 + 256 * (hi as u16)
}

fn i16_le(lo: u8, hi: u8) -> (r: i16)
    ensures
        r == spec_i16_le(lo, hi),
{
    let v: u16 = lo as u16 + 256 * (hi as u16);
    if v >= 32768 {
        ((v as i32) - 65536) as i16
    } else {
        v as i16
    }
}

/// The factory calibration coefficients: three for temperature compensation,
/// nine for pressure compensation. Read once from the fixed 24-byte
/// calibration block at construction and held immutably for the driver's
/// lifetime.
#[derive(Debug, Copy, Clone)]
pub struct CalibrationData {
    pub dig_t1: u16,
    pub dig_t2: i16,
    pub dig_t3: i16,
    pub dig_p1: u16,
    pub dig_p2: i16,
    pub dig_p3: i16,
    pub dig_p4: i16,
    pub dig_p5: i16,
    pub dig_p6: i16,
    pub dig_p7: i16,
    pub dig_p8: i16,
    pub dig_p9: i16,
}

/// The `t_fine` intermediate: a two-term correction of the raw temperature
/// ADC code against `dig_t1/t2/t3`, feeding both compensations. Products
/// that can exceed 32 bits wrap, as they do in 32-bit arithmetic.
pub open spec fn spec_t_fine(c: CalibrationData, adc_t: i32) -> i32 {
    let diff1: i32 = ((adc_t >> 3u32) - 2 * (c.dig_t1 as i32)) as i32;
    let var1: i32 = diff1.wrapping_mul(c.dig_t2 as i32) >> 11u32;
    let d: i32 = ((adc_t >> 4u32) - (c.dig_t1 as i32)) as i32;
    let var2: i32 = (d.wrapping_mul(d) >> 12u32).wrapping_mul(c.dig_t3 as i32) >> 14u32;
    (var1 + var2) as i32
}

/// The compensated temperature in degrees Celsius times 100.
pub open spec fn spec_compensate_temperature(c: CalibrationData, adc_t: i32) -> i32 {
    ((spec_t_fine(c, adc_t) * 5 + 128) as i32) >> 8u32
}

/// The denominator term of the pressure compensation. A zero value marks the
/// reading as not computable.
pub open spec fn spec_pressure_var1(c: CalibrationData, t_fine: i32) -> i64 {
    let v: i64 = (t_fine - 128000) as i64;
    let acc: i64 = ((((v * v * (c.dig_p3 as i64)) as i64) >> 8u32) + v * (c.dig_p2 as i64)
        * 0x1000) as i64;
    ((0x8000_0000_0000 + acc) as i64).wrapping_mul(c.dig_p1 as i64) >> 33u32
}

/// The numerator correction term of the pressure compensation.
pub open spec fn spec_pressure_var2(c: CalibrationData, t_fine: i32) -> i64 {
    let v: i64 = (t_fine - 128000) as i64;
    (v * v * (c.dig_p6 as i64) + v * (c.dig_p5 as i64) * 0x2_0000 + (c.dig_p4 as i64)
        * 0x8_0000_0000) as i64
}

/// Truncating (round-toward-zero) 64-bit division; the one quotient that
/// does not fit, `i64::MIN / -1`, wraps to `i64::MIN`.
pub open spec fn spec_div_trunc(a: i64, b: i64) -> i64 {
    if a == i64::MIN && b == -1 {
        i64::MIN
    } else if a >= 0 {
        (a / b) as i64
    } else {
        (-((-a) / (b as int))) as i64
    }
}

/// The compensated pressure: Pascal in Q24.8 fixed point (equivalently hPa
/// in Q24.8 scaled by a further 100), or 0 where the denominator term is
/// zero. Products that can exceed 64 bits wrap, as they do in 64-bit
/// arithmetic.
pub open spec fn spec_compensate_pressure(c: CalibrationData, adc_p: i32, adc_t: i32) -> u32 {
    let t_fine: i32 = spec_t_fine(c, adc_t);
    let var1: i64 = spec_pressure_var1(c, t_fine);
    let var2: i64 = spec_pressure_var2(c, t_fine);
    if var1 == 0 {
        0u32
    } else {
        let p0: i64 = (1048576 - adc_p) as i64;
        let num: i64 = ((p0 * 0x8000_0000 - var2) as i64).wrapping_mul(3125);
        let pd: i64 = spec_div_trunc(num, var1);
        let v1d: i64 = (c.dig_p9 as i64).wrapping_mul(pd >> 13u32).wrapping_mul(pd >> 13u32)
            >> 25u32;
        let v2d: i64 = (c.dig_p8 as i64).wrapping_mul(pd) >> 19u32;
        let pv: i64 = ((pd.wrapping_add(v1d).wrapping_add(v2d) >> 8u32) + (c.dig_p7 as i64)
            * 16) as i64;
        pv as u32
    }
}

proof fn lemma_i32_shift_ranges(x: i32)
    by (bit_vector)
    ensures
        -0x1000_0000 <= (x >> 3u32) <= 0xFFF_FFFF,
        -0x800_0000 <= (x >> 4u32) <= 0x7FF_FFFF,
        -0x10_0000 <= (x >> 11u32) <= 0xF_FFFF,
        -0x2_0000 <= (x >> 14u32) <= 0x1_FFFF,
{
}

proof fn lemma_i64_shr8_range(x: i64)
    by (bit_vector)
    ensures
        -0x80_0000_0000_0000 <= (x >> 8u32) <= 0x7F_FFFF_FFFF_FFFF,
{
}

proof fn lemma_mul_bounds(a: int, b: int, ab: int, bb: int)
    by (nonlinear_arith)
    requires
        -ab <= a <= ab,
        -bb <= b <= bb,
        0 <= ab,
        0 <= bb,
    ensures
        -(ab * bb) <= a * b <= ab * bb,
{
}

/// Truncating 64-bit division, total over every non-zero divisor.
fn div_trunc(a: i64, b: i64) -> (r: i64)
    requires
        b != 0,
    ensures
        r == spec_div_trunc(a, b),
{
    if a == i64::MIN && b == -1 {
        i64::MIN
    } else {
        a / b
    }
}

impl CalibrationData {
    /// Parses the 24-byte calibration block: twelve 16-bit little-endian
    /// fields at fixed byte offsets, `dig_t1` and `dig_p1` unsigned, the
    /// rest signed.
    pub fn from(data: &[u8; 24]) -> (r: Self)
        ensures
            r.dig_t1 == spec_u16_le(data@[0], data@[1]),
            r.dig_t2 == spec_i16_le(data@[2], data@[3]),
            r.dig_t3 == spec_i16_le(data@[4], data@[5]),
            r.dig_p1 == spec_u16_le(data@[6], data@[7]),
            r.dig_p2 == spec_i16_le(data@[8], data@[9]),
            r.dig_p3 == spec_i16_le(data@[10], data@[11]),
            r.dig_p4 == spec_i16_le(data@[12], data@[13]),
            r.dig_p5 == spec_i16_le(data@[14], data@[15]),
            r.dig_p6 == spec_i16_le(data@[16], data@[17]),
            r.dig_p7 == spec_i16_le(data@[18], data@[19]),
            r.dig_p8 == spec_i16_le(data@[20], data@[21]),
            r.dig_p9 == spec_i16_le(data@[22], data@[23]),
    {
        CalibrationData {
            dig_t1: u16_le(data[0], data[1]),
            dig_t2: i16_le(data[2], data[3]),
            dig_t3: i16_le(data[4], data[5]),
            dig_p1: u16_le(data[6], data[7]),
            dig_p2: i16_le(data[8], data[9]),
            dig_p3: i16_le(data[10], data[11]),
            dig_p4: i16_le(data[12], data[13]),
            dig_p5: i16_le(data[14], data[15]),
            dig_p6: i16_le(data[16], data[17]),
            dig_p7: i16_le(data[18], data[19]),
            dig_p8: i16_le(data[20], data[21]),
            dig_p9: i16_le(data[22], data[23]),
        }
    }

    /// Computes the `t_fine` intermediate from the raw temperature ADC code.
    pub fn t_fine_from_adc(&self, adc_t: i32) -> (r: i32)
        ensures
            r == spec_t_fine(*self, adc_t),
            -0x12_0000 <= r <= 0x12_0000,
    {
        proof {
            lemma_i32_shift_ranges(adc_t);
        }
        let diff1: i32 = (adc_t >> 3u32) - 2 * (self.dig_t1 as i32);
        let prod1: i32 = diff1.wrapping_mul(self.dig_t2 as i32);
        let var1: i32 = prod1 >> 11u32;
        let d: i32 = (adc_t >> 4u32) - (self.dig_t1 as i32);
        let prod2: i32 = (d.wrapping_mul(d) >> 12u32).wrapping_mul(self.dig_t3 as i32);
        let var2: i32 = prod2 >> 14u32;
        proof {
            lemma_i32_shift_ranges(prod1);
            lemma_i32_shift_ranges(prod2);
        }
        var1 + var2
    }

    /// The compensated temperature in degrees Celsius times 100.
    pub fn compensate_temperature(&self, adc_t: i32) -> (r: i32)
        ensures
            r == spec_compensate_temperature(*self, adc_t),
    {
        let t_fine: i32 = self.t_fine_from_adc(adc_t);
        (t_fine * 5 + 128) >> 8u32
    }

    /// The compensated pressure in Q24.8 Pascal (hPa times 25600), computed
    /// from the raw pressure ADC code and the raw temperature ADC code of
    /// the same sample pairing; 0 where the denominator term is zero, so a
    /// zero reading means "not computable", never a division by zero.
    pub fn compensate_pressure(&self, adc_p: i32, adc_t: i32) -> (r: u32)
        ensures
            r == spec_compensate_pressure(*self, adc_p, adc_t),
            spec_pressure_var1(*self, spec_t_fine(*self, adc_t)) == 0 ==> r == 0,
    {
        let t_fine: i32 = self.t_fine_from_adc(adc_t);
        let v: i64 = (t_fine as i64) - 128000;
        proof {
            lemma_mul_bounds(v as int, v as int, 0x14_0000, 0x14_0000);
        }
        let sq: i64 = v * v;
        proof {
            lemma_mul_bounds(sq as int, self.dig_p6 as int, 0x190_0000_0000, 0x8000);
            lemma_mul_bounds(v as int, self.dig_p5 as int, 0x14_0000, 0x8000);
            lemma_mul_bounds(v as int, self.dig_p2 as int, 0x14_0000, 0x8000);
            lemma_mul_bounds(sq as int, self.dig_p3 as int, 0x190_0000_0000, 0x8000);
        }
        let var2: i64 = sq * (self.dig_p6 as i64) + v * (self.dig_p5 as i64) * 0x2_0000 + (
        self.dig_p4 as i64) * 0x8_0000_0000;
        let pr3: i64 = sq * (self.dig_p3 as i64);
        proof {
            lemma_i64_shr8_range(pr3);
        }
        let acc: i64 = (pr3 >> 8u32) + v * (self.dig_p2 as i64) * 0x1000;
        let var1: i64 = (0x8000_0000_0000 + acc).wrapping_mul(self.dig_p1 as i64) >> 33u32;
        if var1 == 0 {
            // The defined result for an uncomputable denominator.
            return 0u32;
        }
        let p0: i64 = 1048576 - (adc_p as i64);
        let num: i64 = (p0 * 0x8000_0000 - var2).wrapping_mul(3125);
        let pd: i64 = div_trunc(num, var1);
        let sh13: i64 = pd >> 13u32;
        let v1d: i64 = (self.dig_p9 as i64).wrapping_mul(sh13).wrapping_mul(sh13) >> 25u32;
        let v2d: i64 = (self.dig_p8 as i64).wrapping_mul(pd) >> 19u32;
        let sum: i64 = pd.wrapping_add(v1d).wrapping_add(v2d);
        proof {
            lemma_i64_shr8_range(sum);
        }
        let pv: i64 = (sum >> 8u32) + (self.dig_p7 as i64) * 16;
        #[verifier::truncate] (pv as u32)
    }
}

/// The 20-bit ADC code held in a 3-byte measurement register: the low
/// nibble of the last wire byte is discarded.
pub open spec fn spec_adc_from_bytes(b0: u8, b1: u8, b2: u8) -> u32 {
    (b0 * 4096 + b1 * 16 + b2 / 16) as u32
}

/// Decodes a 3-byte measurement register into its 20-bit ADC code.
pub fn adc_from_bytes(b0: u8, b1: u8, b2: u8) -> (r: u32)
    ensures
        r == spec_adc_from_bytes(b0, b1, b2),
        r == b0 * 4096 + b1 * 16 + b2 / 16,
        r < 0x10_0000,
{
    (b0 as u32) * 4096 + (b1 as u32) * 16 + (b2 as u32) / 16
}

fn byte_buffer(n: usize) -> (r: Vec<u8>)
    ensures
        r@.len() == n,
{
    let mut v: Vec<u8> = Vec::new();
    while v.len() < n
        invariant
            v@.len() <= n,
        decreases n - v@.len(),
    {
        v.push(0u8);
    }
    v
}

/// The BMP280 driver: a bus transport, an immutable configuration, and the
/// calibration coefficients read at construction.
///
/// A driver instance exists only with successfully loaded calibration data:
/// construction reads the calibration block first and fails if that read
/// fails, so every compensation call has the coefficients at hand.
pub struct BMP280<B: Transport> {
    bus: B,
    config: Config,
    calibration_data: CalibrationData,
}

impl<B: Transport> BMP280<B> {
    /// The configuration the driver was constructed with.
    pub closed spec fn spec_config(self) -> Config {
        self.config
    }

    /// The calibration coefficients the driver was constructed with.
    pub closed spec fn spec_calibration(self) -> CalibrationData {
        self.calibration_data
    }

    /// The calibration coefficients read at construction.
    pub fn calibration_data(&self) -> (r: &CalibrationData)
        ensures
            *r == self.spec_calibration(),
    {
        &self.calibration_data
    }

    /// Reads the 24-byte calibration block, waits the 2 ms settle delay for
    /// the chip to stabilise, and uploads the measurement configuration;
    /// fails with the transport's error if the calibration read or either
    /// configuration write fails.
    pub fn new(bus: B, config: Config) -> (r: Result<Self, Error<B::BusError>>)
        ensures
            r matches Ok(d) ==> d.spec_config() == config,
    {
        let mut bus = bus;
        let reg: Vec<u8> = vec![Register::CalibrationData.value()];
        let mut buffer: Vec<u8> = byte_buffer(24);
        match bus.write_then_read(config.address.value(), &reg, &mut buffer) {
            Ok(()) => (),
            Err(e) => {
                return Err(Error::I2c(e));
            },
        }
        let block: [u8; 24] = [
            buffer[0],
            buffer[1],
            buffer[2],
            buffer[3],
            buffer[4],
            buffer[5],
            buffer[6],
            buffer[7],
            buffer[8],
            buffer[9],
            buffer[10],
            buffer[11],
            buffer[12],
            buffer[13],
            buffer[14],
            buffer[15],
            buffer[16],
            buffer[17],
            buffer[18],
            buffer[19],
            buffer[20],
            buffer[21],
            buffer[22],
            buffer[23],
        ];
        let calibration_data = CalibrationData::from(&block);
        // Wait for the device to stabilise before it takes configuration.
        bus.delay_ms(2);
        let mut value = BMP280 { bus, config, calibration_data };
        match value.upload_config() {
            Ok(()) => Ok(value),
            Err(e) => Err(e),
        }
    }

    /// Packs and writes the config-register byte, then the control-register
    /// byte.
    fn upload_config(&mut self) -> (r: Result<(), Error<B::BusError>>)
        ensures
            final(self).config == old(self).config,
            final(self).calibration_data == old(self).calibration_data,
    {
        let config_value: u8 = self.config.config_byte();
        let ctrl_value: u8 = self.config.ctrl_byte();
        match self.write_u8(Register::Config, config_value) {
            Ok(()) => (),
            Err(e) => {
                return Err(e);
            },
        }
        self.write_u8(Register::Ctrl, ctrl_value)
    }

    /// Reads the chip identification register.
    pub fn read_id(&mut self) -> (r: Result<u8, Error<B::BusError>>)
        ensures
            final(self).spec_config() == old(self).spec_config(),
            final(self).spec_calibration() == old(self).spec_calibration(),
    {
        self.read_8(Register::Id)
    }

    /// Writes the reset value to the reset register.
    pub fn reset(&mut self) -> (r: Result<(), Error<B::BusError>>)
        ensures
            final(self).spec_config() == old(self).spec_config(),
            final(self).spec_calibration() == old(self).spec_calibration(),
    {
        self.write_u8(Register::Reset, RESET_VALUE)
    }

    /// Reads and decodes the status register.
    pub fn read_status(&mut self) -> (r: Result<Status, Error<B::BusError>>)
        ensures
            final(self).spec_config() == old(self).spec_config(),
            final(self).spec_calibration() == old(self).spec_calibration(),
    {
        match self.read_8(Register::Status) {
            Ok(value) => Ok(Status::from_byte(value)),
            Err(e) => Err(e),
        }
    }

    /// Writes one byte to the given register.
    fn write_u8(&mut self, register: Register, value: u8) -> (r: Result<(), Error<B::BusError>>)
        ensures
            final(self).config == old(self).config,
            final(self).calibration_data == old(self).calibration_data,
    {
        let bytes: Vec<u8> = vec![register.value(), value];
        match self.bus.write(self.config.address.value(), &bytes) {
            Ok(()) => Ok(()),
            Err(e) => Err(Error::I2c(e)),
        }
    }

    /// Reads one byte from the given register.
    fn read_8(&mut self, register: Register) -> (r: Result<u8, Error<B::BusError>>)
        ensures
            final(self).config == old(self).config,
            final(self).calibration_data == old(self).calibration_data,
    {
        let reg: Vec<u8> = vec![register.value()];
        let mut buffer: Vec<u8> = vec![0u8];
        match self.bus.write_then_read(self.config.address.value(), &reg, &mut buffer) {
            Ok(()) => Ok(buffer[0]),
            Err(e) => Err(Error::I2c(e)),
        }
    }

    /// Reads a 3-byte measurement register and decodes its 20-bit ADC code.
    fn read_24(&mut self, register: Register) -> (r: Result<u32, Error<B::BusError>>)
        ensures
            final(self).config == old(self).config,
            final(self).calibration_data == old(self).calibration_data,
            r matches Ok(v) ==> v < 0x10_0000,
    {
        let reg: Vec<u8> = vec![register.value()];
        let mut buffer: Vec<u8> = vec![0u8, 0u8, 0u8];
        match self.bus.write_then_read(self.config.address.value(), &reg, &mut buffer) {
            Ok(()) => Ok(adc_from_bytes(buffer[0], buffer[1], buffer[2])),
            Err(e) => Err(Error::I2c(e)),
        }
    }

    /// Reads the temperature ADC code and runs the temperature compensation.
    /// Reading never changes the configuration or the calibration data, and
    /// a successful reading is the compensation of a 20-bit ADC code under
    /// this driver's calibration.
    pub fn read_temperature(&mut self) -> (r: Result<Temperature, Error<B::BusError>>)
        ensures
            final(self).spec_config() == old(self).spec_config(),
            final(self).spec_calibration() == old(self).spec_calibration(),
            r matches Ok(t) ==> exists|adc_t: i32|
                0 <= adc_t < 0x10_0000 && t.raw_value == spec_compensate_temperature(
                    old(self).spec_calibration(),
                    adc_t,
                ),
    {
        let raw_t: u32 = match self.read_24(Register::Temperature) {
            Ok(v) => v,
            Err(e) => {
                return Err(e);
            },
        };
        let adc_t: i32 = raw_t as i32;
        let compensated: i32 = self.calibration_data.compensate_temperature(adc_t);
        let value = Temperature::from_deg_c_100(compensated);
        proof {
            assert(value.raw_value == spec_compensate_temperature(
                old(self).spec_calibration(),
                adc_t,
            ));
        }
        Ok(value)
    }

    /// Reads the temperature ADC code, then the pressure ADC code of the
    /// same logical sample, and runs the pressure compensation. Reading
    /// never changes the configuration or the calibration data, and a
    /// successful reading is the compensation of a pair of 20-bit ADC codes
    /// under this driver's calibration.
    pub fn read_pressure(&mut self) -> (r: Result<Pressure, Error<B::BusError>>)
        ensures
            final(self).spec_config() == old(self).spec_config(),
            final(self).spec_calibration() == old(self).spec_calibration(),
            r matches Ok(p) ==> exists|adc_p: i32, adc_t: i32|
                0 <= adc_p < 0x10_0000 && 0 <= adc_t < 0x10_0000 && p.raw_value
                    == spec_compensate_pressure(old(self).spec_calibration(), adc_p, adc_t),
    {
        let raw_t: u32 = match self.read_24(Register::Temperature) {
            Ok(v) => v,
            Err(e) => {
                return Err(e);
            },
        };
        let raw_p: u32 = match self.read_24(Register::Pressure) {
            Ok(v) => v,
            Err(e) => {
                return Err(e);
            },
        };
        let adc_p: i32 = raw_p as i32;
        let adc_t: i32 = raw_t as i32;
        let compensated: u32 = self.calibration_data.compensate_pressure(adc_p, adc_t);
        let value = Pressure::from_q248_100(compensated);
        proof {
            assert(value.raw_value == spec_compensate_pressure(
                old(self).spec_calibration(),
                adc_p,
                adc_t,
            ));
        }
        Ok(value)
    }
}

impl<B: Transport> TemperatureSensor for BMP280<B> {
    type Error = Error<B::BusError>;

    /// Reads through [`BMP280::read_temperature`], which carries the
    /// contract.
    fn read_value(&mut self) -> Result<Temperature, Self::Error> {
        self.read_temperature()
    }
}

impl<B: Transport> PressureSensor for BMP280<B> {
    type Error = Error<B::BusError>;

    /// Reads through [`BMP280::read_pressure`], which carries the contract.
    fn read_value(&mut self) -> Result<Pressure, Self::Error> {
        self.read_pressure()
    }
}

} // verus!
