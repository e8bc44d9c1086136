//! Register protocol of the AMG88xx 8x8 infrared thermal-array sensor.
//!
//! `transfer` runs a fixed script of SMBus transactions one at a time and
//! stops at the first failure; `amg88xx` holds the sensor's register map,
//! the scripts of its operations and the decoding of its raw readings.
use vstd::prelude::*;

pub mod amg88xx;
pub mod transfer;

verus! {

} // verus!
