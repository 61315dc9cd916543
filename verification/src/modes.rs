//! Sampling-rate/power profiles of the two sensors.
//!
//! Each mode maps to a fixed device-defined rate code (the "bitcode"); the
//! mapping is a pure, injective function from variant to code, proved so by
//! the lemmas at the bottom of this module.

use vstd::prelude::*;

verus! {

/// The modes and output data rates the accelerometer can run at.
#[derive(Clone, Copy, Debug)]
pub enum AccelerometerMode {
    PowerDown,
    LowPower13Hz,
    LowPower26Hz,
    LowPower52Hz,
    Normal104Hz,
    Normal208Hz,
    HighPerformance416Hz,
    HighPerformance833Hz,
    HighPerformance1660Hz,
    HighPerformance3330Hz,
    HighPerformance6660Hz,
}

/// The modes and output data rates the gyroscope can run at.
#[derive(Clone, Copy, Debug)]
pub enum GyroscopeMode {
    PowerDown,
    LowPower13Hz,
    LowPower26Hz,
    LowPower52Hz,
    Normal104Hz,
    Normal208Hz,
    HighPerformance416Hz,
    HighPerformance833Hz,
    HighPerformance1660Hz,
}

/// The device-defined rate code of an accelerometer mode.
pub open spec fn accel_mode_code(m: AccelerometerMode) -> u8 {
    match m {
        AccelerometerMode::PowerDown => 0,
        AccelerometerMode::LowPower13Hz => 1,
        AccelerometerMode::LowPower26Hz => 2,
        AccelerometerMode::LowPower52Hz => 3,
        AccelerometerMode::Normal104Hz => 4,
        AccelerometerMode::Normal208Hz => 5,
        AccelerometerMode::HighPerformance416Hz => 6,
        AccelerometerMode::HighPerformance833Hz => 7,
        AccelerometerMode::HighPerformance1660Hz => 8,
        AccelerometerMode::HighPerformance3330Hz => 9,
        AccelerometerMode::HighPerformance6660Hz => 10,
    }
}

/// The device-defined rate code of a gyroscope mode.
pub open spec fn gyro_mode_code(m: GyroscopeMode) -> u8 {
    match m {
        GyroscopeMode::PowerDown => 0,
        GyroscopeMode::LowPower13Hz => 1,
        GyroscopeMode::LowPower26Hz => 2,
        GyroscopeMode::LowPower52Hz => 3,
        GyroscopeMode::Normal104Hz => 4,
        GyroscopeMode::Normal208Hz => 5,
        GyroscopeMode::HighPerformance416Hz => 6,
        GyroscopeMode::HighPerformance833Hz => 7,
        GyroscopeMode::HighPerformance1660Hz => 8,
    }
}

impl AccelerometerMode {
    /// The device-defined rate code of this mode, always below 16 so that it
    /// fits a control register's high nibble.
    pub fn to_bitcode(self) -> (r: u8)
        ensures
            r == accel_mode_code(self),
    {
        match self {
            AccelerometerMode::PowerDown => 0,
            AccelerometerMode::LowPower13Hz => 1,
            AccelerometerMode::LowPower26Hz => 2,
            AccelerometerMode::LowPower52Hz => 3,
            AccelerometerMode::Normal104Hz => 4,
            AccelerometerMode::Normal208Hz => 5,
            AccelerometerMode::HighPerformance416Hz => 6,
            AccelerometerMode::HighPerformance833Hz => 7,
            AccelerometerMode::HighPerformance1660Hz => 8,
            AccelerometerMode::HighPerformance3330Hz => 9,
            AccelerometerMode::HighPerformance6660Hz => 10,
        }
    }
}

impl GyroscopeMode {
    /// The device-defined rate code of this mode, always below 16 so that it
    /// fits a control register's high nibble.
    pub fn to_bitcode(self) -> (r: u8)
        ensures
            r == gyro_mode_code(self),
    {
        match self {
            GyroscopeMode::PowerDown => 0,
            GyroscopeMode::LowPower13Hz => 1,
            GyroscopeMode::LowPower26Hz => 2,
            GyroscopeMode::LowPower52Hz => 3,
            GyroscopeMode::Normal104Hz => 4,
            GyroscopeMode::Normal208Hz => 5,
            GyroscopeMode::HighPerformance416Hz => 6,
            GyroscopeMode::HighPerformance833Hz => 7,
            GyroscopeMode::HighPerformance1660Hz => 8,
        }
    }
}

/// Law: the accelerometer mode-to-bitcode mapping is injective. Two modes
/// with the same rate code are the same mode.
pub proof fn lemma_accel_code_injective(a: AccelerometerMode, b: AccelerometerMode)
    ensures
        accel_mode_code(a) == accel_mode_code(b) ==> a == b,
{
}

/// Law: the gyroscope mode-to-bitcode mapping is injective. Two modes with
/// the same rate code are the same mode.
pub proof fn lemma_gyro_code_injective(a: GyroscopeMode, b: GyroscopeMode)
    ensures
        gyro_mode_code(a) == gyro_mode_code(b) ==> a == b,
{
}

} // verus!
