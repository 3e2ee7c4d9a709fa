//! What the sensor drivers share.

use vstd::prelude::*;
use crate::i2c::{Error, StepView};

verus! {

/// Why a measurement could not be made or reported.
#[derive(Clone, Copy, PartialEq, Eq, Debug, Structural)]
pub enum MeteoError {
    I2CCommError,
    TxQueueFullError,
    InvalidMsgError,
    MsgCreationError,
    SensorNotReadyError,
    InvalidSensorData,
}

impl MeteoError {
    pub open spec fn spec_code(self) -> i32 {
        match self {
            MeteoError::I2CCommError => -1i32,
            MeteoError::TxQueueFullError => -2i32,
            MeteoError::InvalidMsgError => -3i32,
            MeteoError::MsgCreationError => -4i32,
            MeteoError::SensorNotReadyError => -5i32,
            MeteoError::InvalidSensorData => -6i32,
        }
    }

    /// The number under which the error is reported.
    #[verifier::when_used_as_spec(spec_code)]
    pub fn code(self) -> (c: i32)
        ensures
            c == self.spec_code(),
    {
        match self {
            MeteoError::I2CCommError => -1,
            MeteoError::TxQueueFullError => -2,
            MeteoError::InvalidMsgError => -3,
            MeteoError::MsgCreationError => -4,
            MeteoError::SensorNotReadyError => -5,
            MeteoError::InvalidSensorData => -6,
        }
    }
}

/// A transaction of one write step.
pub open spec fn one_write(bytes: Seq<u8>) -> Seq<StepView> {
    seq![StepView { read: false, data: bytes }]
}

/// A transaction that writes a register address and reads `count` bytes
/// from there.
pub open spec fn addressed_read(reg: u8, count: nat) -> Seq<StepView> {
    seq![
        StepView { read: false, data: seq![reg] },
        StepView { read: true, data: Seq::new(count, |i: int| 0u8) },
    ]
}

/// What a driver makes of the result of a transaction: every failure of the
/// bus is a communication error.
pub fn bus_result(outcome: Result<(), Error>) -> (r: Result<(), MeteoError>)
    ensures
        r == match outcome {
            Ok(_) => Ok::<(), MeteoError>(()),
            Err(_) => Err::<(), MeteoError>(MeteoError::I2CCommError),
        },
{
    match outcome {
        Ok(_) => Ok(()),
        Err(_) => Err(MeteoError::I2CCommError),
    }
}

} // verus!
