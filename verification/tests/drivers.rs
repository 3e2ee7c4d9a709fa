use i2c_engine::bmp085::{Bmp085, CalibrationData, Precision};
use i2c_engine::cstr::CStrWriter;
use i2c_engine::i2c::{Error, InterruptContext, Peripheral, Step};
use i2c_engine::meteo::{bus_result, MeteoError};
use i2c_engine::scb::ItPriorityGrouping;
use i2c_engine::sim::SimulatedBus;
use i2c_engine::tsl2561::{Gain, IntegrationTime, State, Tsl2561};

#[test]
fn meteo_error_codes() {
    assert_eq!(MeteoError::I2CCommError.code(), -1);
    assert_eq!(MeteoError::TxQueueFullError.code(), -2);
    assert_eq!(MeteoError::InvalidMsgError.code(), -3);
    assert_eq!(MeteoError::MsgCreationError.code(), -4);
    assert_eq!(MeteoError::SensorNotReadyError.code(), -5);
    assert_eq!(MeteoError::InvalidSensorData.code(), -6);
    assert_eq!(bus_result(Ok(())), Ok(()));
    assert_eq!(bus_result(Err(Error::Busy)), Err(MeteoError::I2CCommError));
    assert_eq!(bus_result(Err(Error::TransactionFailed)), Err(MeteoError::I2CCommError));
}

#[test]
fn bmp085_precision() {
    assert_eq!(Precision::UltraLowPower.get_oversampling_param(), 0);
    assert_eq!(Precision::Standard.get_oversampling_param(), 1);
    assert_eq!(Precision::High.get_oversampling_param(), 2);
    assert_eq!(Precision::UltraHigh.get_oversampling_param(), 3);
    assert_eq!(Precision::UltraLowPower.get_pressure_conversion_time_ms(), 5);
    assert_eq!(Precision::Standard.get_pressure_conversion_time_ms(), 8);
    assert_eq!(Precision::High.get_pressure_conversion_time_ms(), 14);
    assert_eq!(Precision::UltraHigh.get_pressure_conversion_time_ms(), 26);
}

#[test]
fn bmp085_new_and_set_precision() {
    let mut sensor = Bmp085::new(Peripheral::I2C3);
    assert_eq!(sensor.dev_addr, 0x77);
    assert_eq!(sensor.i2c_bus, Peripheral::I2C3);
    assert_eq!(sensor.precision, Precision::Standard);
    assert!(sensor.calib.is_none());
    sensor.set_precision(Precision::UltraHigh);
    assert_eq!(sensor.precision, Precision::UltraHigh);
    assert_eq!(sensor.dev_addr, 0x77);
    assert!(sensor.calib.is_none());
}

#[test]
fn bmp085_commands() {
    assert_eq!(
        Bmp085::calibration_request(),
        vec![Step::Write(vec![0xaa]), Step::Read(vec![0; 22])]
    );
    assert_eq!(Bmp085::temperature_command(), vec![Step::Write(vec![0xf4, 0x2e])]);
    assert_eq!(Bmp085::result_request(2), vec![Step::Write(vec![0xf6]), Step::Read(vec![0; 2])]);
    assert_eq!(Bmp085::result_request(3), vec![Step::Write(vec![0xf6]), Step::Read(vec![0; 3])]);
    let mut sensor = Bmp085::new(Peripheral::I2C3);
    assert_eq!(sensor.pressure_command(), vec![Step::Write(vec![0xf4, 0x74])]);
    sensor.set_precision(Precision::UltraLowPower);
    assert_eq!(sensor.pressure_command(), vec![Step::Write(vec![0xf4, 0x34])]);
    sensor.set_precision(Precision::High);
    assert_eq!(sensor.pressure_command(), vec![Step::Write(vec![0xf4, 0xb4])]);
    sensor.set_precision(Precision::UltraHigh);
    assert_eq!(sensor.pressure_command(), vec![Step::Write(vec![0xf4, 0xf4])]);
}

#[test]
fn bmp085_calibration_from_the_bus() {
    // The calibration values of the data sheet's example.
    let block: [u8; 22] = [
        0x01, 0x98, 0xff, 0xb8, 0xc7, 0xd1, 0x7f, 0xe5, 0x7f, 0xf5, 0x5a, 0x71, 0x18, 0x2e, 0x00,
        0x04, 0x80, 0x00, 0xdd, 0xf9, 0x0b, 0x34,
    ];
    let periph = Peripheral::I2C3;
    let mut bus = SimulatedBus::new(periph, block.to_vec());
    let mut ctx = InterruptContext::new(periph);
    let mut sensor = Bmp085::new(periph);
    let mut steps = Bmp085::calibration_request();
    let outcome = periph.run_transaction(
        &mut ctx,
        &mut bus,
        sensor.dev_addr,
        &mut steps,
        ItPriorityGrouping::EightTwo,
    );
    assert_eq!(outcome, Ok(()));
    assert_eq!(bus.sent, vec![0xee, 0xaa, 0xef]);
    let mut conf_data = [0u8; 22];
    conf_data.copy_from_slice(steps[1].as_ref());
    assert_eq!(conf_data, block);
    assert_eq!(sensor.get_calibration_data(outcome, &conf_data), Ok(()));
    assert_eq!(
        sensor.calib,
        Some(CalibrationData {
            ac1: 408,
            ac2: -72,
            ac3: -14383,
            ac4: 32741,
            ac5: 32757,
            ac6: 23153,
            b1: 6190,
            b2: 4,
            mb: -32768,
            mc: -8711,
            md: 2868,
        })
    );
}

#[test]
fn bmp085_calibration_extremes() {
    let mut sensor = Bmp085::new(Peripheral::I2C1);
    let mut block = [0xffu8; 22];
    block[2] = 0x7f;
    block[4] = 0x80;
    block[5] = 0x00;
    block[8] = 0x00;
    block[9] = 0x00;
    assert_eq!(sensor.get_calibration_data(Ok(()), &block), Ok(()));
    let calib = sensor.calib.unwrap();
    assert_eq!(calib.ac1, -1);
    assert_eq!(calib.ac2, 32767);
    assert_eq!(calib.ac3, -32768);
    assert_eq!(calib.ac4, 65535);
    assert_eq!(calib.ac5, 0);
    assert_eq!(calib.md, -1);
}

#[test]
fn bmp085_failed_calibration_leaves_the_record() {
    let mut sensor = Bmp085::new(Peripheral::I2C1);
    assert_eq!(
        sensor.get_calibration_data(Err(Error::TransactionFailed), &[1; 22]),
        Err(MeteoError::I2CCommError)
    );
    assert!(sensor.calib.is_none());
    assert_eq!(sensor.get_calibration_data(Ok(()), &[1; 22]), Ok(()));
    let calib = sensor.calib;
    assert_eq!(
        sensor.get_calibration_data(Err(Error::Busy), &[2; 22]),
        Err(MeteoError::I2CCommError)
    );
    assert_eq!(sensor.calib, calib);
}

#[test]
fn bmp085_raw_values() {
    let mut sensor = Bmp085::new(Peripheral::I2C1);
    // The readings of the data sheet's example.
    assert_eq!(sensor.get_raw_temp_val(Ok(()), &[0x6c, 0xfa]), Ok(27898));
    assert_eq!(sensor.get_raw_temp_val(Ok(()), &[0xff, 0xff]), Ok(65535));
    assert_eq!(sensor.get_raw_temp_val(Ok(()), &[0, 0]), Ok(0));
    assert_eq!(
        sensor.get_raw_temp_val(Err(Error::TransactionFailed), &[0x6c, 0xfa]),
        Err(MeteoError::I2CCommError)
    );
    sensor.set_precision(Precision::UltraLowPower);
    assert_eq!(sensor.get_raw_pressure_val(Ok(()), &[0x5d, 0x23, 0x00]), Ok(23843));
    assert_eq!(sensor.get_raw_pressure_val(Ok(()), &[0xff, 0xff, 0xff]), Ok(0xffff));
    sensor.set_precision(Precision::Standard);
    assert_eq!(sensor.get_raw_pressure_val(Ok(()), &[0xff, 0xff, 0xff]), Ok(0x1ffff));
    sensor.set_precision(Precision::High);
    assert_eq!(sensor.get_raw_pressure_val(Ok(()), &[0xff, 0xff, 0xff]), Ok(0x3ffff));
    sensor.set_precision(Precision::UltraHigh);
    assert_eq!(sensor.get_raw_pressure_val(Ok(()), &[0xff, 0xff, 0xff]), Ok(0x7ffff));
    assert_eq!(sensor.get_raw_pressure_val(Ok(()), &[0x12, 0x34, 0x56]), Ok(0x123456 >> 5));
    assert_eq!(
        sensor.get_raw_pressure_val(Err(Error::Busy), &[0, 0, 0]),
        Err(MeteoError::I2CCommError)
    );
}

#[test]
fn tsl2561_new() {
    let sensor = Tsl2561::new(Peripheral::I2C3);
    assert_eq!(sensor.dev_addr, 0x29);
    assert_eq!(sensor.i2c_bus, Peripheral::I2C3);
    assert_eq!(sensor.gain, Gain::Gain1x);
    assert_eq!(sensor.integ_time, IntegrationTime::Time402ms);
    assert_eq!(sensor.state, State::Off);
}

#[test]
fn tsl2561_set_state() {
    let mut sensor = Tsl2561::new(Peripheral::I2C3);
    assert_eq!(Tsl2561::state_command(State::On), vec![Step::Write(vec![0x90, 0x01, 0x03])]);
    assert_eq!(Tsl2561::state_command(State::Off), vec![Step::Write(vec![0x90, 0x01, 0x00])]);
    assert_eq!(sensor.set_state(State::On, Err(Error::TransactionFailed)), Err(()));
    assert_eq!(sensor.state, State::Off);
    assert_eq!(sensor.set_state(State::On, Ok(())), Ok(()));
    assert_eq!(sensor.state, State::On);
    assert_eq!(sensor.set_state(State::Off, Err(Error::Busy)), Err(()));
    assert_eq!(sensor.state, State::On);
    assert_eq!(sensor.gain, Gain::Gain1x);
}

#[test]
fn tsl2561_set_gain_and_integ_time() {
    let mut sensor = Tsl2561::new(Peripheral::I2C3);
    assert_eq!(
        Tsl2561::gain_and_integ_time_command(Gain::Gain1x, IntegrationTime::Time101ms),
        vec![Step::Write(vec![0x91, 0x01, 0x11])]
    );
    assert_eq!(
        Tsl2561::gain_and_integ_time_command(Gain::Gain16x, IntegrationTime::Time13_7ms),
        vec![Step::Write(vec![0x91, 0x01, 0x00])]
    );
    assert_eq!(
        Tsl2561::gain_and_integ_time_command(Gain::Gain16x, IntegrationTime::Time402ms),
        vec![Step::Write(vec![0x91, 0x01, 0x10])]
    );
    assert_eq!(
        sensor.set_gain_and_integ_time(Gain::Gain16x, IntegrationTime::Time101ms, Err(Error::Busy)),
        Err(())
    );
    assert_eq!(sensor.gain, Gain::Gain1x);
    assert_eq!(sensor.integ_time, IntegrationTime::Time402ms);
    assert_eq!(
        sensor.set_gain_and_integ_time(Gain::Gain16x, IntegrationTime::Time101ms, Ok(())),
        Ok(())
    );
    assert_eq!(sensor.gain, Gain::Gain16x);
    assert_eq!(sensor.integ_time, IntegrationTime::Time101ms);
    assert_eq!(sensor.state, State::Off);
}

#[test]
fn tsl2561_raw_data_from_the_bus() {
    let periph = Peripheral::I2C3;
    let mut bus = SimulatedBus::new(periph, vec![4, 0x34, 0x12, 0xff, 0x80]);
    let mut ctx = InterruptContext::new(periph);
    let sensor = Tsl2561::new(periph);
    let mut steps = Tsl2561::raw_data_request();
    assert_eq!(steps, vec![Step::Write(vec![0x9b]), Step::Read(vec![0; 5])]);
    let outcome = periph.run_transaction(
        &mut ctx,
        &mut bus,
        sensor.dev_addr,
        &mut steps,
        ItPriorityGrouping::EightTwo,
    );
    let mut data = [0u8; 5];
    data.copy_from_slice(steps[1].as_ref());
    assert_eq!(sensor.get_raw_data(outcome, &data), Ok((0x1234, 0x80ff)));
    assert_eq!(sensor.get_raw_data(Err(Error::TransactionFailed), &data), Err(()));
    assert_eq!(sensor.get_raw_data(Ok(()), &[0, 0xff, 0xff, 0, 0]), Ok((0xffff, 0)));
}

#[test]
fn c_string_writer() {
    let mut w = CStrWriter::new(vec![0xaa; 8]);
    assert_eq!(w.len(), 0);
    assert_eq!(w.buf, vec![0, 0xaa, 0xaa, 0xaa, 0xaa, 0xaa, 0xaa, 0xaa]);
    assert_eq!(w.write_str(",12"), Ok(()));
    assert_eq!(w.len(), 3);
    assert_eq!(w.buf, vec![b',', b'1', b'2', 0, 0xaa, 0xaa, 0xaa, 0xaa]);
    assert_eq!(w.write_str(""), Ok(()));
    assert_eq!(w.len(), 3);
    // Five bytes are left, one of them for the zero byte.
    assert_eq!(w.write_str("12345"), Err(()));
    assert_eq!(w.len(), 3);
    assert_eq!(w.buf, vec![b',', b'1', b'2', 0, 0xaa, 0xaa, 0xaa, 0xaa]);
    assert_eq!(w.write_str("3.5\u{b0}"), Err(()));
    assert_eq!(w.write_str(",3.5"), Ok(()));
    assert_eq!(w.len(), 7);
    assert_eq!(w.buf, vec![b',', b'1', b'2', b',', b'3', b'.', b'5', 0]);
    assert_eq!(w.write_str("x"), Err(()));
    assert_eq!(w.write_str(""), Ok(()));
    assert_eq!(w.len(), 7);
}

#[test]
fn c_string_writer_of_one_byte() {
    let mut w = CStrWriter::new(vec![7]);
    assert_eq!(w.buf, vec![0]);
    assert_eq!(w.write_str("a"), Err(()));
    assert_eq!(w.write_str(""), Ok(()));
    assert_eq!(w.len(), 0);
}

fn data_sheet_calibration() -> CalibrationData {
    CalibrationData {
        ac1: 408,
        ac2: -72,
        ac3: -14383,
        ac4: 32741,
        ac5: 32757,
        ac6: 23153,
        b1: 6190,
        b2: 4,
        mb: -32768,
        mc: -8711,
        md: 2868,
    }
}

#[test]
fn bmp085_compensation_of_the_data_sheet() {
    let mut sensor = Bmp085::new(Peripheral::I2C3);
    sensor.calib = Some(data_sheet_calibration());
    sensor.set_precision(Precision::UltraLowPower);
    assert_eq!(sensor.compensate(27898, 23843), Ok((150, 69964)));
    sensor.set_precision(Precision::UltraHigh);
    assert_eq!(sensor.compensate(27898, 23843 << 3), Ok((150, 69963)));
    sensor.set_precision(Precision::Standard);
    assert_eq!(sensor.compensate(28500, 50000), Ok((198, 74216)));
    // Below the freezing point.
    sensor.set_precision(Precision::High);
    assert_eq!(sensor.compensate(26000, 130000), Ok((-17, 92278)));
    sensor.set_precision(Precision::UltraLowPower);
    assert_eq!(sensor.compensate(30000, 30000), Ok((313, 91595)));
    // A temperature far beyond the range of the sensor: the square of the
    // intermediate value does not fit.
    assert_eq!(sensor.compensate(20000, 60000), Err(MeteoError::InvalidSensorData));
}

#[test]
fn bmp085_compensation_refuses_what_it_cannot_compute() {
    let mut sensor = Bmp085::new(Peripheral::I2C3);
    // Not calibrated.
    assert_eq!(sensor.compensate(27898, 23843), Err(MeteoError::InvalidSensorData));
    // A divisor of zero in the temperature.
    let mut calib = data_sheet_calibration();
    calib.ac5 = 0;
    calib.md = 0;
    sensor.calib = Some(calib);
    assert_eq!(sensor.compensate(27898, 23843), Err(MeteoError::InvalidSensorData));
    // A divisor of zero in the pressure.
    let mut calib = data_sheet_calibration();
    calib.ac4 = 0;
    sensor.calib = Some(calib);
    assert_eq!(sensor.compensate(27898, 23843), Err(MeteoError::InvalidSensorData));
    // A product that does not fit.
    let mut calib = data_sheet_calibration();
    calib.ac5 = i32::MAX;
    sensor.calib = Some(calib);
    assert_eq!(sensor.compensate(i32::MAX, 23843), Err(MeteoError::InvalidSensorData));
    // A raw pressure below the offset.
    sensor.calib = Some(data_sheet_calibration());
    assert_eq!(sensor.compensate(27898, 0), Err(MeteoError::InvalidSensorData));
    assert_eq!(sensor.compensate(27898, 23843).map(|(t, _)| t), Ok(150));
}
