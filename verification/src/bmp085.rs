//! Driver of the BMP085 pressure sensor: its commands as transactions, and
//! what it makes of the bytes that they read.

use vstd::prelude::*;
use crate::i2c::{steps_view, valid_steps, Error, Peripheral, Step};
use crate::meteo::{addressed_read, one_write, MeteoError};

verus! {

/// Address of the sensor on the bus.
pub const BMP085_I2C_ADDR: u8 = 0x77;

/// Address of the first calibration register.
pub const CALIBRATION_REG_ADDR: u8 = 0xaa;

/// Address of the register that starts a measurement.
pub const CONTROL_REG_ADDR: u8 = 0xf4;

/// Address of the first register of the result.
pub const DATA_REG_ADDR: u8 = 0xf6;

/// The commands that start a measurement of the temperature and of the
/// pressure; the oversampling setting is added to the latter.
pub const TEMPERATURE_COMMAND: u8 = 0x2e;
pub const PRESSURE_COMMAND: u8 = 0x34;

/// Time that a measurement of the temperature takes, in milliseconds.
pub const TEMPERATURE_CONVERSION_TIME_MS: u32 = 5;

/// Number of bytes of the calibration block: eleven words, high byte first.
pub const CALIBRATION_BYTE_NUM: usize = 22;

/// How often the sensor samples the pressure for one measurement.
#[derive(Clone, Copy, PartialEq, Eq, Debug, Structural)]
pub enum Precision {
    UltraLowPower,
    Standard,
    High,
    UltraHigh,
}

impl Precision {
    pub open spec fn spec_get_oversampling_param(&self) -> u32 {
        match *self {
            Precision::UltraLowPower => 0,
            Precision::Standard => 1,
            Precision::High => 2,
            Precision::UltraHigh => 3,
        }
    }

    /// The oversampling setting.
    #[verifier::when_used_as_spec(spec_get_oversampling_param)]
    pub fn get_oversampling_param(&self) -> (oss: u32)
        ensures
            oss == self.spec_get_oversampling_param(),
            oss <= 3,
    {
        match *self {
            Precision::UltraLowPower => 0,
            Precision::Standard => 1,
            Precision::High => 2,
            Precision::UltraHigh => 3,
        }
    }

    pub open spec fn spec_get_pressure_conversion_time_ms(&self) -> u32 {
        match *self {
            Precision::UltraLowPower => 5,
            Precision::Standard => 8,
            Precision::High => 14,
            Precision::UltraHigh => 26,
        }
    }

    /// Time that a measurement of the pressure takes, in milliseconds.
    #[verifier::when_used_as_spec(spec_get_pressure_conversion_time_ms)]
    pub fn get_pressure_conversion_time_ms(&self) -> (ms: u32)
        ensures
            ms == self.spec_get_pressure_conversion_time_ms(),
    {
        match *self {
            Precision::UltraLowPower => 5,
            Precision::Standard => 8,
            Precision::High => 14,
            Precision::UltraHigh => 26,
        }
    }

    /// The number by which the three bytes of a pressure reading are
    /// divided: the reading has eight bits less than three bytes, and one
    /// more for each step of oversampling.
    pub open spec fn pressure_divisor(&self) -> int {
        match *self {
            Precision::UltraLowPower => 256,
            Precision::Standard => 128,
            Precision::High => 64,
            Precision::UltraHigh => 32,
        }
    }
}

/// The calibration values of one sensor.
#[derive(Clone, Copy, PartialEq, Eq, Debug, Structural)]
pub struct CalibrationData {
    pub ac1: i32,
    pub ac2: i32,
    pub ac3: i32,
    pub ac4: u32,
    pub ac5: i32,
    pub ac6: i32,
    pub b1: i32,
    pub b2: i32,
    pub mb: i32,
    pub mc: i32,
    pub md: i32,
}

/// The driver's record of one sensor.
#[derive(Debug)]
pub struct Bmp085 {
    pub calib: Option<CalibrationData>,
    pub dev_addr: u8,
    pub i2c_bus: Peripheral,
    pub precision: Precision,
}

/// The word of two bytes, high byte first.
pub open spec fn unsigned_word(high: u8, low: u8) -> int {
    high * 256 + low
}

/// The word of two bytes, high byte first, in two's complement.
pub open spec fn signed_word(high: u8, low: u8) -> int {
    if high >= 128 {
        unsigned_word(high, low) - 65536
    } else {
        unsigned_word(high, low)
    }
}

/// The calibration values that a calibration block holds.
pub open spec fn calibration_of(block: Seq<u8>) -> CalibrationData {
    CalibrationData {
        ac1: signed_word(block[0], block[1]) as i32,
        ac2: signed_word(block[2], block[3]) as i32,
        ac3: signed_word(block[4], block[5]) as i32,
        ac4: unsigned_word(block[6], block[7]) as u32,
        ac5: signed_word(block[8], block[9]) as i32,
        ac6: signed_word(block[10], block[11]) as i32,
        b1: signed_word(block[12], block[13]) as i32,
        b2: signed_word(block[14], block[15]) as i32,
        mb: signed_word(block[16], block[17]) as i32,
        mc: signed_word(block[18], block[19]) as i32,
        md: signed_word(block[20], block[21]) as i32,
    }
}

/// The word of two bytes in two's complement.
fn signed(high: u8, low: u8) -> (word: i32)
    ensures
        word == signed_word(high, low),
{
    let unsigned: i32 = (high as i32) * 256 + (low as i32);
    if high >= 128 {
        unsigned - 65536
    } else {
        unsigned
    }
}

impl Bmp085 {
    /// The record of a sensor on a bus: not calibrated yet, at standard
    /// precision.
    pub fn new(periph: Peripheral) -> (sensor: Bmp085)
        ensures
            sensor.calib is None,
            sensor.dev_addr == BMP085_I2C_ADDR,
            sensor.i2c_bus == periph,
            sensor.precision == Precision::Standard,
    {
        Bmp085 {
            calib: None,
            dev_addr: BMP085_I2C_ADDR,
            i2c_bus: periph,
            precision: Precision::Standard,
        }
    }

    /// The transaction that reads the calibration block.
    pub fn calibration_request() -> (steps: Vec<Step>)
        ensures
            steps_view(steps@) == addressed_read(CALIBRATION_REG_ADDR, CALIBRATION_BYTE_NUM as nat),
            valid_steps(steps_view(steps@)),
    {
        let steps = vec![
            Step::Write(vec![CALIBRATION_REG_ADDR]),
            Step::Read(vec![0u8; CALIBRATION_BYTE_NUM]),
        ];
        proof {
            assert(steps@[0]@.data =~= seq![CALIBRATION_REG_ADDR]);
            assert(steps@[1]@.data =~= Seq::new(CALIBRATION_BYTE_NUM as nat, |i: int| 0u8));
            assert(steps_view(steps@) =~= addressed_read(
                CALIBRATION_REG_ADDR,
                CALIBRATION_BYTE_NUM as nat,
            ));
        }
        steps
    }

    /// Records the calibration values once the transaction of
    /// `calibration_request` has run, from the block that it read. After a
    /// failure of the transaction the record is unchanged, and the call
    /// fails with a communication error.
    pub fn get_calibration_data(&mut self, outcome: Result<(), Error>, conf_data: &[u8; 22]) -> (r:
        Result<(), MeteoError>)
        ensures
            r == match outcome {
                Ok(_) => Ok::<(), MeteoError>(()),
                Err(_) => Err::<(), MeteoError>(MeteoError::I2CCommError),
            },
            outcome is Ok ==> *final(self) == (Bmp085 {
                calib: Some(calibration_of(conf_data@)),
                ..*old(self)
            }),
            outcome is Err ==> *final(self) == *old(self),
    {
        match outcome {
            Err(_) => Err(MeteoError::I2CCommError),
            Ok(_) => {
                let ac4: u32 = (conf_data[6] as u32) * 256 + (conf_data[7] as u32);
                self.calib = Some(
                    CalibrationData {
                        ac1: signed(conf_data[0], conf_data[1]),
                        ac2: signed(conf_data[2], conf_data[3]),
                        ac3: signed(conf_data[4], conf_data[5]),
                        ac4,
                        ac5: signed(conf_data[8], conf_data[9]),
                        ac6: signed(conf_data[10], conf_data[11]),
                        b1: signed(conf_data[12], conf_data[13]),
                        b2: signed(conf_data[14], conf_data[15]),
                        mb: signed(conf_data[16], conf_data[17]),
                        mc: signed(conf_data[18], conf_data[19]),
                        md: signed(conf_data[20], conf_data[21]),
                    },
                );
                Ok(())
            },
        }
    }

    /// The transaction that starts a measurement of the temperature. The
    /// result can be read after `TEMPERATURE_CONVERSION_TIME_MS`.
    pub fn temperature_command() -> (steps: Vec<Step>)
        ensures
            steps_view(steps@) == one_write(seq![CONTROL_REG_ADDR, TEMPERATURE_COMMAND]),
            valid_steps(steps_view(steps@)),
    {
        let steps = vec![Step::Write(vec![CONTROL_REG_ADDR, TEMPERATURE_COMMAND])];
        proof {
            assert(steps@[0]@.data =~= seq![CONTROL_REG_ADDR, TEMPERATURE_COMMAND]);
            assert(steps_view(steps@) =~= one_write(seq![CONTROL_REG_ADDR, TEMPERATURE_COMMAND]));
        }
        steps
    }

    /// The transaction that reads a result of `count` bytes: two for a
    /// temperature, three for a pressure.
    pub fn result_request(count: usize) -> (steps: Vec<Step>)
        requires
            count >= 1,
        ensures
            steps_view(steps@) == addressed_read(DATA_REG_ADDR, count as nat),
            valid_steps(steps_view(steps@)),
    {
        let steps = vec![Step::Write(vec![DATA_REG_ADDR]), Step::Read(vec![0u8; count])];
        proof {
            assert(steps@[0]@.data =~= seq![DATA_REG_ADDR]);
            assert(steps@[1]@.data =~= Seq::new(count as nat, |i: int| 0u8));
            assert(steps_view(steps@) =~= addressed_read(DATA_REG_ADDR, count as nat));
        }
        steps
    }

    /// The raw temperature once the transaction of `result_request` has
    /// run: the word that it read, high byte first. After a failure of the
    /// transaction the call fails with a communication error.
    pub fn get_raw_temp_val(&self, outcome: Result<(), Error>, t_data_buf: &[u8; 2]) -> (r: Result<
        i32,
        MeteoError,
    >)
        ensures
            r == match outcome {
                Ok(_) => Ok::<i32, MeteoError>(
                    unsigned_word(t_data_buf@[0], t_data_buf@[1]) as i32,
                ),
                Err(_) => Err::<i32, MeteoError>(MeteoError::I2CCommError),
            },
    {
        match outcome {
            Err(_) => Err(MeteoError::I2CCommError),
            Ok(_) => Ok((t_data_buf[0] as i32) * 256 + (t_data_buf[1] as i32)),
        }
    }

    /// The transaction that starts a measurement of the pressure at the
    /// sensor's precision. The result can be read after the conversion time
    /// of the precision.
    pub fn pressure_command(&self) -> (steps: Vec<Step>)
        ensures
            steps_view(steps@) == one_write(
                seq![
                    CONTROL_REG_ADDR,
                    (PRESSURE_COMMAND + 64 * self.precision.spec_get_oversampling_param()) as u8,
                ],
            ),
            valid_steps(steps_view(steps@)),
    {
        let oss: u32 = self.precision.get_oversampling_param();
        let command: u8 = PRESSURE_COMMAND + 64 * (oss as u8);
        let steps = vec![Step::Write(vec![CONTROL_REG_ADDR, command])];
        proof {
            assert(steps@[0]@.data =~= seq![CONTROL_REG_ADDR, command]);
            assert(steps_view(steps@) =~= one_write(seq![CONTROL_REG_ADDR, command]));
        }
        steps
    }

    /// The raw pressure once the transaction of `result_request` has run:
    /// the three bytes that it read, high byte first, without the bits that
    /// the sensor's precision does not deliver. After a failure of the
    /// transaction the call fails with a communication error.
    pub fn get_raw_pressure_val(&self, outcome: Result<(), Error>, p_data_buf: &[u8; 3]) -> (r:
        Result<i32, MeteoError>)
        ensures
            r == match outcome {
                Ok(_) => Ok::<i32, MeteoError>(
                    ((p_data_buf@[0] * 65536 + p_data_buf@[1] * 256 + p_data_buf@[2])
                        / self.precision.pressure_divisor()) as i32,
                ),
                Err(_) => Err::<i32, MeteoError>(MeteoError::I2CCommError),
            },
    {
        match outcome {
            Err(_) => Err(MeteoError::I2CCommError),
            Ok(_) => {
                let raw: i32 = (p_data_buf[0] as i32) * 65536 + (p_data_buf[1] as i32) * 256 + (
                p_data_buf[2] as i32);
                let divisor: i32 = match self.precision {
                    Precision::UltraLowPower => 256,
                    Precision::Standard => 128,
                    Precision::High => 64,
                    Precision::UltraHigh => 32,
                };
                Ok(raw / divisor)
            },
        }
    }

    /// Selects the precision of the measurements of the pressure.
    pub fn set_precision(&mut self, precision: Precision)
        ensures
            *final(self) == (Bmp085 { precision, ..*old(self) }),
    {
        self.precision = precision;
    }
}

/// Whether a value fits the 32 bits in which the sensor's arithmetic holds
/// every value.
pub open spec fn fits(x: int) -> bool {
    -0x8000_0000 <= x <= 0x7fff_ffff
}

/// The quotient rounded down.
pub open spec fn floor_div(x: int, d: int) -> int {
    if x >= 0 {
        x / d
    } else {
        -((-x - 1) / d) - 1
    }
}

/// The quotient rounded towards zero.
pub open spec fn trunc_div(x: int, d: int) -> int {
    if x >= 0 {
        if d > 0 {
            x / d
        } else {
            -(x / (-d))
        }
    } else {
        if d > 0 {
            -((-x) / d)
        } else {
            (-x) / (-d)
        }
    }
}

/// The factor by which the pressure difference is scaled: 50000 halved for
/// each step of oversampling.
pub open spec fn pressure_scale(precision: Precision) -> int {
    match precision {
        Precision::UltraLowPower => 50000,
        Precision::Standard => 25000,
        Precision::High => 12500,
        Precision::UltraHigh => 6250,
    }
}

/// Two to the power of the oversampling setting.
pub open spec fn oversampling_factor(precision: Precision) -> int {
    match precision {
        Precision::UltraLowPower => 1,
        Precision::Standard => 2,
        Precision::High => 4,
        Precision::UltraHigh => 8,
    }
}

/// The temperature in tenths of a degree Celsius and the value that the
/// pressure is compensated with, from a raw temperature, as the data sheet
/// computes them. There is no result where a value does not fit or the
/// divisor is zero.
pub open spec fn true_temperature(c: CalibrationData, ut: int) -> Option<(int, int)> {
    let d = ut - c.ac6;
    let m = d * c.ac5;
    let x1 = floor_div(m, 32768);
    let den = x1 + c.md;
    let x2 = trunc_div(c.mc * 2048, den);
    let b5 = x1 + x2;
    if fits(d) && fits(m) && fits(den) && den != 0 && fits(c.mc * 2048) && fits(b5) && fits(
        b5 + 8,
    ) {
        Some((floor_div(b5 + 8, 16), b5))
    } else {
        None
    }
}

/// The part of the compensation of the pressure that does not depend on the
/// raw pressure: the offset and the divisor, from the value that the
/// temperature gave.
pub open spec fn pressure_terms(c: CalibrationData, precision: Precision, b5: int) -> Option<
    (int, int),
> {
    let b6 = b5 - 4000;
    let sq = b6 * b6;
    let q = floor_div(sq, 4096);
    let m2 = c.b2 * q;
    let m3 = c.ac2 * b6;
    let x3 = floor_div(m2, 2048) + floor_div(m3, 2048);
    let s = c.ac1 * 4 + x3;
    let s2 = s * oversampling_factor(precision);
    let b3 = floor_div(s2 + 2, 4);
    let m4 = c.ac3 * b6;
    let m5 = c.b1 * q;
    let y = floor_div(m4, 8192) + floor_div(m5, 65536) + 2;
    let u = floor_div(y, 4) + 32768;
    let m6 = c.ac4 * u;
    if fits(b6) && fits(sq) && fits(m2) && fits(m3) && fits(x3) && fits(c.ac1 * 4) && fits(s)
        && fits(s2) && fits(s2 + 2) && fits(m4) && fits(m5) && fits(y) && 0 <= u && fits(u)
        && m6 <= 0xffff_ffff && m6 / 32768 != 0 {
        Some((b3, m6 / 32768))
    } else {
        None
    }
}

/// The pressure in pascal from a raw pressure, the offset and the divisor.
pub open spec fn true_pressure(precision: Precision, b3: int, b4: int, up: int) -> Option<int> {
    let dlt = up - b3;
    let b7 = dlt * pressure_scale(precision);
    let p1 = if b7 < 0x8000_0000 {
        (b7 * 2) / b4
    } else {
        (b7 / b4) * 2
    };
    let h = floor_div(p1, 256);
    let m7 = (h * h) * 3038;
    let m8 = -7357 * p1;
    let su = floor_div(m7, 65536) + floor_div(m8, 65536) + 3791;
    let p = p1 + floor_div(su, 16);
    if 0 <= dlt && fits(dlt) && b7 <= 0xffff_ffff && b4 > 0 && fits(p1) && fits(h * h) && fits(m7)
        && fits(m8) && fits(su) && fits(p) {
        Some(p)
    } else {
        None
    }
}

/// The temperature in tenths of a degree Celsius and the pressure in
/// pascal, from the raw readings.
pub open spec fn compensated(c: CalibrationData, precision: Precision, ut: int, up: int) -> Option<
    (int, int),
> {
    match true_temperature(c, ut) {
        None => None,
        Some((t, b5)) => match pressure_terms(c, precision, b5) {
            None => None,
            Some((b3, b4)) => match true_pressure(precision, b3, b4, up) {
                None => None,
                Some(p) => Some((t, p)),
            },
        },
    }
}

/// Whether a value fits 32 bits.
fn fits32(x: i64) -> (b: bool)
    ensures
        b == fits(x as int),
{
    -0x8000_0000 <= x && x <= 0x7fff_ffff
}

/// The product of two values of which one fits 32 bits and the other 33.
fn product(a: i64, b: i64) -> (r: i64)
    requires
        -0xffff_ffff <= a <= 0xffff_ffff,
        -0x8000_0000 <= b <= 0x8000_0000,
    ensures
        r == a * b,
{
    assert(-0x7fff_ffff_8000_0000 <= a * b <= 0x7fff_ffff_8000_0000) by (nonlinear_arith)
        requires
            -0xffff_ffff <= a <= 0xffff_ffff,
            -0x8000_0000 <= b <= 0x8000_0000,
    ;
    a * b
}

/// The quotient rounded down.
fn floor_quotient(x: i64, d: i64) -> (r: i64)
    requires
        d > 0,
        -0x4000_0000_0000_0000 <= x <= 0x4000_0000_0000_0000,
    ensures
        r == floor_div(x as int, d as int),
{
    if x >= 0 {
        x / d
    } else {
        let q: i64 = (-x - 1) / d;
        -q - 1
    }
}

/// The quotient rounded towards zero.
fn trunc_quotient(x: i64, d: i64) -> (r: i64)
    requires
        d != 0,
        fits(x as int),
        fits(d as int),
    ensures
        r == trunc_div(x as int, d as int),
        fits(r as int) || r == 0x8000_0000,
{
    if x >= 0 {
        if d > 0 {
            x / d
        } else {
            let q: i64 = x / (-d);
            -q
        }
    } else {
        if d > 0 {
            let q: i64 = (-x) / d;
            -q
        } else {
            (-x) / (-d)
        }
    }
}

/// The temperature and the value that the pressure is compensated with.
fn temperature(c: &CalibrationData, ut: i32) -> (r: Option<(i64, i64)>)
    ensures
        match true_temperature(*c, ut as int) {
            Some((t, b5)) => r == Some((t as i64, b5 as i64)) && fits(t) && fits(b5),
            None => r is None,
        },
{
    let d: i64 = (ut as i64) - (c.ac6 as i64);
    if !fits32(d) {
        return None;
    }
    let m: i64 = product(d, c.ac5 as i64);
    if !fits32(m) {
        return None;
    }
    let x1: i64 = floor_quotient(m, 32768);
    let den: i64 = x1 + (c.md as i64);
    let num: i64 = product(c.mc as i64, 2048);
    if !fits32(den) || den == 0 || !fits32(num) {
        return None;
    }
    let x2: i64 = trunc_quotient(num, den);
    let b5: i64 = x1 + x2;
    if !fits32(b5) || !fits32(b5 + 8) {
        return None;
    }
    Some((floor_quotient(b5 + 8, 16), b5))
}

/// The offset and the divisor of the compensation of the pressure.
fn offset_and_divisor(c: &CalibrationData, precision: Precision, b5: i64) -> (r: Option<
    (i64, i64),
>)
    requires
        fits(b5 as int),
    ensures
        match pressure_terms(*c, precision, b5 as int) {
            Some((b3, b4)) => r == Some((b3 as i64, b4 as i64)) && fits(b3) && 0 < b4
                <= 0x1_ffff,
            None => r is None,
        },
{
    let factor: i64 = match precision {
        Precision::UltraLowPower => 1,
        Precision::Standard => 2,
        Precision::High => 4,
        Precision::UltraHigh => 8,
    };
    let b6: i64 = b5 - 4000;
    if !fits32(b6) {
        return None;
    }
    let sq: i64 = product(b6, b6);
    if !fits32(sq) {
        return None;
    }
    let q: i64 = floor_quotient(sq, 4096);
    let m2: i64 = product(c.b2 as i64, q);
    let m3: i64 = product(c.ac2 as i64, b6);
    if !fits32(m2) || !fits32(m3) {
        return None;
    }
    let x3: i64 = floor_quotient(m2, 2048) + floor_quotient(m3, 2048);
    let a4: i64 = product(c.ac1 as i64, 4);
    if !fits32(x3) || !fits32(a4) {
        return None;
    }
    let s: i64 = a4 + x3;
    if !fits32(s) {
        return None;
    }
    let s2: i64 = product(s, factor);
    if !fits32(s2) || !fits32(s2 + 2) {
        return None;
    }
    let b3: i64 = floor_quotient(s2 + 2, 4);
    let m4: i64 = product(c.ac3 as i64, b6);
    let m5: i64 = product(c.b1 as i64, q);
    if !fits32(m4) || !fits32(m5) {
        return None;
    }
    let y: i64 = floor_quotient(m4, 8192) + floor_quotient(m5, 65536) + 2;
    if !fits32(y) {
        return None;
    }
    let u: i64 = floor_quotient(y, 4) + 32768;
    if u < 0 || !fits32(u) {
        return None;
    }
    let m6: i64 = product(c.ac4 as i64, u);
    if m6 > 0xffff_ffff {
        return None;
    }
    let b4: i64 = m6 / 32768;
    if b4 == 0 {
        return None;
    }
    Some((b3, b4))
}

/// The pressure from a raw pressure, the offset and the divisor.
fn pressure(precision: Precision, b3: i64, b4: i64, up: i32) -> (r: Option<i64>)
    requires
        fits(b3 as int),
        0 < b4 <= 0x1_ffff,
    ensures
        match true_pressure(precision, b3 as int, b4 as int, up as int) {
            Some(p) => r == Some(p as i64) && fits(p),
            None => r is None,
        },
{
    let scale: i64 = match precision {
        Precision::UltraLowPower => 50000,
        Precision::Standard => 25000,
        Precision::High => 12500,
        Precision::UltraHigh => 6250,
    };
    let dlt: i64 = (up as i64) - b3;
    if dlt < 0 || !fits32(dlt) {
        return None;
    }
    let b7: i64 = product(dlt, scale);
    if b7 > 0xffff_ffff {
        return None;
    }
    let p1: i64 = if b7 < 0x8000_0000 {
        (b7 * 2) / b4
    } else {
        (b7 / b4) * 2
    };
    if !fits32(p1) {
        return None;
    }
    let h: i64 = floor_quotient(p1, 256);
    let hh: i64 = product(h, h);
    if !fits32(hh) {
        return None;
    }
    let m7: i64 = product(hh, 3038);
    let m8: i64 = product(-7357, p1);
    if !fits32(m7) || !fits32(m8) {
        return None;
    }
    let su: i64 = floor_quotient(m7, 65536) + floor_quotient(m8, 65536) + 3791;
    if !fits32(su) {
        return None;
    }
    let p: i64 = p1 + floor_quotient(su, 16);
    if !fits32(p) {
        return None;
    }
    Some(p)
}

impl Bmp085 {
    /// The temperature in tenths of a degree Celsius and the pressure in
    /// pascal, from the raw readings and the calibration values, by the
    /// algorithm of the data sheet.
    ///
    /// Fails with `InvalidSensorData` where the sensor is not calibrated,
    /// where a value of the computation does not fit the 32 bits that the
    /// algorithm allows for, and where a divisor is zero.
    pub fn compensate(&self, ut: i32, up: i32) -> (r: Result<(i32, i32), MeteoError>)
        ensures
            r == match self.calib {
                None => Err::<(i32, i32), MeteoError>(MeteoError::InvalidSensorData),
                Some(c) => match compensated(c, self.precision, ut as int, up as int) {
                    None => Err::<(i32, i32), MeteoError>(MeteoError::InvalidSensorData),
                    Some((t, p)) => Ok::<(i32, i32), MeteoError>((t as i32, p as i32)),
                },
            },
    {
        let c = match self.calib {
            None => {
                return Err(MeteoError::InvalidSensorData);
            },
            Some(c) => c,
        };
        let (t, b5) = match temperature(&c, ut) {
            None => {
                return Err(MeteoError::InvalidSensorData);
            },
            Some(found) => found,
        };
        let (b3, b4) = match offset_and_divisor(&c, self.precision, b5) {
            None => {
                return Err(MeteoError::InvalidSensorData);
            },
            Some(found) => found,
        };
        match pressure(self.precision, b3, b4, up) {
            None => Err(MeteoError::InvalidSensorData),
            Some(p) => Ok((t as i32, p as i32)),
        }
    }
}

} // verus!
