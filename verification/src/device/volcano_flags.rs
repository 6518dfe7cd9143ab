//! Bitmask flags from the Volcano activity and display characteristics.
use vstd::prelude::*;

verus! {

pub const HEATER_ENABLED: u16 = 0x0020;

pub const FAN_ENABLED: u16 = 0x0400;

pub const AUTO_SHUTDOWN: u16 = 0x0200;

pub const PUMP_ENABLED: u16 = 0x2000;

pub const DISPLAY_ON_COOLING: u16 = 0x1000;

pub const FAHRENHEIT_ENA: u16 = 0x0200;

} // verus!
