//! Bitmask flags for the Volcano vibration characteristic.
use vstd::prelude::*;

verus! {

pub const VIBRATION: u32 = 0x0400;

} // verus!
