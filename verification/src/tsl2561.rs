//! Driver of the TSL2561 light sensor: its commands as transactions, and
//! what it makes of their results.

use vstd::prelude::*;
use crate::i2c::{steps_view, valid_steps, Error, Peripheral, Step};
use crate::meteo::{addressed_read, one_write};

verus! {

/// Address of the sensor on the bus.
pub const TSL2561_I2C_ADDR: u8 = 0x29;

/// Register addresses, with the bits that mark a command and a block
/// transfer.
pub const CONTROL_REG_ADDR: u8 = 0x90;
pub const TIMING_REG_ADDR: u8 = 0x91;
pub const DATA_REG_ADDR: u8 = 0x9b;

/// Number of bytes of a block of data: the count, then two bytes for each
/// of the two channels, low byte first.
pub const DATA_BYTE_NUM: usize = 5;

/// Whether the sensor is powered.
#[derive(Clone, Copy, PartialEq, Eq, Debug, Structural)]
pub enum State {
    On,
    Off,
}

/// Gain of the sensor.
#[derive(Clone, Copy, PartialEq, Eq, Debug, Structural)]
pub enum Gain {
    Gain1x,
    Gain16x,
}

/// Time over which the sensor integrates.
#[allow(non_camel_case_types)]
#[derive(Clone, Copy, PartialEq, Eq, Debug, Structural)]
pub enum IntegrationTime {
    Time13_7ms,
    Time101ms,
    Time402ms,
}

impl State {
    pub open spec fn spec_bits(self) -> u8 {
        match self {
            State::On => 0x03,
            State::Off => 0x00,
        }
    }

    /// Value of the control register for the state.
    #[verifier::when_used_as_spec(spec_bits)]
    pub fn bits(self) -> (b: u8)
        ensures
            b == self.spec_bits(),
    {
        match self {
            State::On => 0x03,
            State::Off => 0x00,
        }
    }
}

impl Gain {
    pub open spec fn spec_bits(self) -> u8 {
        match self {
            Gain::Gain1x => 0x10,
            Gain::Gain16x => 0x00,
        }
    }

    /// Bits of the timing register for the gain.
    #[verifier::when_used_as_spec(spec_bits)]
    pub fn bits(self) -> (b: u8)
        ensures
            b == self.spec_bits(),
    {
        match self {
            Gain::Gain1x => 0x10,
            Gain::Gain16x => 0x00,
        }
    }
}

impl IntegrationTime {
    pub open spec fn spec_bits(self) -> u8 {
        match self {
            IntegrationTime::Time13_7ms => 0x00,
            IntegrationTime::Time101ms => 0x01,
            IntegrationTime::Time402ms => 0x10,
        }
    }

    /// Bits of the timing register for the integration time.
    #[verifier::when_used_as_spec(spec_bits)]
    pub fn bits(self) -> (b: u8)
        ensures
            b == self.spec_bits(),
    {
        match self {
            IntegrationTime::Time13_7ms => 0x00,
            IntegrationTime::Time101ms => 0x01,
            IntegrationTime::Time402ms => 0x10,
        }
    }
}

/// The driver's record of one sensor.
#[derive(Debug)]
pub struct Tsl2561 {
    pub dev_addr: u8,
    pub i2c_bus: Peripheral,
    pub gain: Gain,
    pub integ_time: IntegrationTime,
    pub state: State,
}

/// The value of a channel from its two bytes.
pub open spec fn channel_value(low: u8, high: u8) -> u16 {
    (high * 256 + low) as u16
}

impl Tsl2561 {
    /// The record of a sensor on a bus: switched off, with a gain of one
    /// and the longest integration time.
    pub fn new(periph: Peripheral) -> (sensor: Tsl2561)
        ensures
            sensor.dev_addr == TSL2561_I2C_ADDR,
            sensor.i2c_bus == periph,
            sensor.gain == Gain::Gain1x,
            sensor.integ_time == IntegrationTime::Time402ms,
            sensor.state == State::Off,
    {
        Tsl2561 {
            dev_addr: TSL2561_I2C_ADDR,
            i2c_bus: periph,
            gain: Gain::Gain1x,
            integ_time: IntegrationTime::Time402ms,
            state: State::Off,
        }
    }

    /// The transaction that switches the sensor on or off.
    pub fn state_command(new_state: State) -> (steps: Vec<Step>)
        ensures
            steps_view(steps@) == one_write(seq![CONTROL_REG_ADDR, 0x01, new_state.spec_bits()]),
            valid_steps(steps_view(steps@)),
    {
        let steps = vec![Step::Write(vec![CONTROL_REG_ADDR, 0x01, new_state.bits()])];
        proof {
            assert(steps@[0]@.data =~= seq![CONTROL_REG_ADDR, 0x01, new_state.spec_bits()]);
            assert(steps_view(steps@) =~= one_write(
                seq![CONTROL_REG_ADDR, 0x01, new_state.spec_bits()],
            ));
        }
        steps
    }

    /// Records the state once the transaction of `state_command` has run:
    /// after a success the sensor is in the new state, after a failure the
    /// record is unchanged and the call fails.
    pub fn set_state(&mut self, new_state: State, outcome: Result<(), Error>) -> (r: Result<
        (),
        (),
    >)
        ensures
            r is Ok <==> outcome is Ok,
            outcome is Ok ==> *final(self) == (Tsl2561 { state: new_state, ..*old(self) }),
            outcome is Err ==> *final(self) == *old(self),
    {
        match outcome {
            Ok(_) => {
                self.state = new_state;
                Ok(())
            },
            Err(_) => Err(()),
        }
    }

    /// The transaction that sets the gain and the integration time.
    pub fn gain_and_integ_time_command(new_gain: Gain, new_integ_time: IntegrationTime) -> (steps:
        Vec<Step>)
        ensures
            steps_view(steps@) == one_write(
                seq![
                    TIMING_REG_ADDR,
                    0x01,
                    new_gain.spec_bits() | new_integ_time.spec_bits(),
                ],
            ),
            valid_steps(steps_view(steps@)),
    {
        let steps = vec![
            Step::Write(vec![TIMING_REG_ADDR, 0x01, new_gain.bits() | new_integ_time.bits()]),
        ];
        proof {
            assert(steps@[0]@.data =~= seq![
                TIMING_REG_ADDR,
                0x01,
                new_gain.spec_bits() | new_integ_time.spec_bits(),
            ]);
            assert(steps_view(steps@) =~= one_write(
                seq![
                    TIMING_REG_ADDR,
                    0x01,
                    new_gain.spec_bits() | new_integ_time.spec_bits(),
                ],
            ));
        }
        steps
    }

    /// Records the gain and the integration time once the transaction of
    /// `gain_and_integ_time_command` has run: after a success the sensor has
    /// both, after a failure the record is unchanged and the call fails.
    pub fn set_gain_and_integ_time(
        &mut self,
        new_gain: Gain,
        new_integ_time: IntegrationTime,
        outcome: Result<(), Error>,
    ) -> (r: Result<(), ()>)
        ensures
            r is Ok <==> outcome is Ok,
            outcome is Ok ==> *final(self) == (Tsl2561 {
                gain: new_gain,
                integ_time: new_integ_time,
                ..*old(self)
            }),
            outcome is Err ==> *final(self) == *old(self),
    {
        match outcome {
            Ok(_) => {
                self.gain = new_gain;
                self.integ_time = new_integ_time;
                Ok(())
            },
            Err(_) => Err(()),
        }
    }

    /// The transaction that reads a block of data.
    pub fn raw_data_request() -> (steps: Vec<Step>)
        ensures
            steps_view(steps@) == addressed_read(DATA_REG_ADDR, DATA_BYTE_NUM as nat),
            valid_steps(steps_view(steps@)),
    {
        let steps = vec![Step::Write(vec![DATA_REG_ADDR]), Step::Read(vec![0u8; DATA_BYTE_NUM])];
        proof {
            assert(steps@[0]@.data =~= seq![DATA_REG_ADDR]);
            assert(steps@[1]@.data =~= Seq::new(DATA_BYTE_NUM as nat, |i: int| 0u8));
            assert(steps_view(steps@) =~= addressed_read(DATA_REG_ADDR, DATA_BYTE_NUM as nat));
        }
        steps
    }

    /// The values of the two channels once the transaction of
    /// `raw_data_request` has run, from the block that it read: the first
    /// byte is the count, then come the two bytes of each channel, low byte
    /// first. After a failure of the transaction the call fails.
    pub fn get_raw_data(&self, outcome: Result<(), Error>, data_buf: &[u8; 5]) -> (r: Result<
        (u16, u16),
        (),
    >)
        ensures
            r == match outcome {
                Ok(_) => Ok::<(u16, u16), ()>(
                    (
                        channel_value(data_buf@[1], data_buf@[2]),
                        channel_value(data_buf@[3], data_buf@[4]),
                    ),
                ),
                Err(_) => Err::<(u16, u16), ()>(()),
            },
    {
        match outcome {
            Ok(_) => {
                let ch0: u16 = (data_buf[2] as u16) * 256 + (data_buf[1] as u16);
                let ch1: u16 = (data_buf[4] as u16) * 256 + (data_buf[3] as u16);
                Ok((ch0, ch1))
            },
            Err(_) => Err(()),
        }
    }
}

} // verus!
