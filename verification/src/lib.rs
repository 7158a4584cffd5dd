//! Calibration decoding and raw-sample assembly for a BME280-class
//! environmental sensor.
//!
//! The sensor hands back factory trim coefficients and raw ADC readings as
//! bytes over a register-addressed bus. This crate holds the pure part of
//! that pipeline: decoding the 32-byte trim dump into typed coefficient
//! sets (with 16-bit two's-complement sign extension), assembling the
//! 8-byte ADC block into 20-bit samples, and encoding the control-register
//! bytes written during initialization. Bus I/O itself, and the
//! floating-point compensation formulas, live outside the verified
//! library.

pub mod calib;
pub mod control;
pub mod regmap;
pub mod sample;
pub mod transport;
