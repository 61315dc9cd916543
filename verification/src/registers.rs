//! Register addresses of the LSM6 that this driver touches.

use vstd::prelude::*;

verus! {

/// Identity register; reads back the fixed device id.
pub const WHO_AM_I: u8 = 0x0F;

/// Accelerometer control: output data rate in the high nibble.
pub const CTRL1_XL: u8 = 0x10;

/// Gyroscope control: output data rate in the high nibble.
pub const CTRL2_G: u8 = 0x11;

/// Common control: bit 2 enables register auto-increment on multi-byte reads.
pub const CTRL3_C: u8 = 0x12;

/// Accelerometer axis enables in bits 5 (X), 4 (Y) and 3 (Z).
pub const CTRL9_XL: u8 = 0x18;

/// Gyroscope axis enables in bits 5 (X), 4 (Y) and 3 (Z); the low three
/// bits hold unrelated device state and must be preserved on writes.
pub const CTRL10_C: u8 = 0x19;

/// Status: bit 0 set when a fresh accelerometer sample is ready, bit 1
/// when a fresh gyroscope sample is ready.
pub const STATUS_REG: u8 = 0x1E;

/// First (X axis, low byte) of the six gyroscope output registers.
pub const OUTX_L_G: u8 = 0x22;

/// First (X axis, low byte) of the six accelerometer output registers.
pub const OUTX_L_XL: u8 = 0x28;

} // verus!
