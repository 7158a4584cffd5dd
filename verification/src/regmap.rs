use vstd::prelude::*;

verus! {

/// Default I2C slave address of the sensor.
pub const ADDR_BME280: u16 = 0x76;

/// Humidity oversampling control register.
pub const REG_CTRL_HUM: u8 = 0xF2;

/// Measurement control register (temperature/pressure oversampling, mode).
pub const REG_CTRL_MEAS: u8 = 0xF4;

/// Configuration register (standby time, IIR filter, 3-wire SPI enable).
pub const REG_CONFIG: u8 = 0xF5;

/// First calibration block: 24 consecutive bytes.
pub const REG_CALIB_00: u8 = 0x88;

/// Length of the first calibration block.
pub const REG_CALIB_00_LEN: usize = 24;

/// Single follow-on calibration byte.
pub const REG_CALIB_24: u8 = 0xA1;

/// Second calibration block: 7 consecutive bytes.
pub const REG_CALIB_26: u8 = 0xE1;

/// Length of the second calibration block.
pub const REG_CALIB_26_LEN: usize = 7;

/// ADC output block: 8 consecutive bytes.
pub const REG_ADC_VALUE: u8 = 0xF7;

/// Length of the ADC output block.
pub const REG_ADC_VALUE_LEN: usize = 8;

/// Register that feeds index `i` of the flat 32-byte calibration buffer:
/// the 24-byte block at 0x88 fills indices 0..23, the single byte at 0xA1
/// fills index 24, and the 7-byte block at 0xE1 fills indices 25..31.
pub fn calib_source_register(i: usize) -> (r: u8)
    requires
        i < 32,
    ensures
        i < 24 ==> r == REG_CALIB_00 + i,
        i == 24 ==> r == REG_CALIB_24,
        i > 24 ==> r == REG_CALIB_26 + (i - 25),
{
    if i < REG_CALIB_00_LEN {
        REG_CALIB_00 + (i as u8)
    } else if i == REG_CALIB_00_LEN {
        REG_CALIB_24
    } else {
        REG_CALIB_26 + ((i - REG_CALIB_00_LEN - 1) as u8)
    }
}

/// Register that feeds index `i` of the 8-byte ADC output buffer: the
/// block at 0xF7 fills indices 0..7 in order.
pub fn adc_source_register(i: usize) -> (r: u8)
    requires
        i < 8,
    ensures
        r == REG_ADC_VALUE + i,
{
    REG_ADC_VALUE + (i as u8)
}

} // verus!
