//! Drivers for two environmental sensor chips that speak a register-oriented
//! bus protocol: the BH1750 ambient-light sensor and the BMP280 combined
//! pressure/temperature sensor.
//!
//! The drivers are generic over a [`bus::Transport`], the addressed byte-buffer
//! transaction interface that a concrete bus implementation supplies. All
//! protocol logic — command selection, settle delays, register decoding,
//! calibration parsing, and the fixed-point compensation arithmetic — lives
//! here and is verified.

pub mod bh1750;
pub mod bmp280;
pub mod bus;
pub mod hardware;
