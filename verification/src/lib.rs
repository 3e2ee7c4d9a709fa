//! Interrupt-driven I2C bus master engine for STM32F4-class peripherals.
//!
//! The engine never touches memory-mapped hardware itself. Every function
//! that the firmware would use to drive a register returns the register
//! accesses to make, as values of [`hw::Op`]; the firmware performs them in
//! order and hands back what it read. The same programs run on the
//! [`sim::SimulatedBus`], a model of one peripheral and its bus.
//!
//! - [`hw`]: registers and register programs.
//! - [`gpio`], [`rcc`], [`nvic`], [`scb`], [`board`]: pins, clocks, interrupt
//!   lines and the priority grouping, as register programs.
//! - [`i2c`]: transactions, the context of a peripheral, and the two calls
//!   with which the foreground submits a transaction and waits for its end.
//! - [`i2c_v1`]: the register interface of the peripheral, its interrupt
//!   handlers, its initialisation and the recovery of a stuck bus.
//! - [`sim`], [`harness`]: the simulated bus, and whole transactions on it.
//! - [`lockstep`], [`outcome`], [`laws`]: why a transaction on the simulated
//!   bus ends as it does, and what always holds of the engine.
//! - [`meteo`], [`bmp085`], [`tsl2561`]: the sensor drivers on top of the
//!   engine.
//! - [`cstr`]: a writer of C strings.

pub mod hw;
pub mod gpio;
pub mod rcc;
pub mod scb;
pub mod nvic;
pub mod i2c;
pub mod i2c_v1;
pub mod sim;
pub mod lockstep;
pub mod outcome;
pub mod harness;
pub mod laws;
pub mod board;
pub mod cstr;
pub mod meteo;
pub mod tsl2561;
pub mod bmp085;
