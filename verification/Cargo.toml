[package]
name = "i2c_engine"
version = "0.1.0"
edition = "2021"
publish = false

[dependencies]
volatile-register = "0.2.2"
