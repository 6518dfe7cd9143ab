//! Identifiers of the characteristics, as a table that the caller supplies.
use vstd::prelude::*;

verus! {

/// Characteristics of the Volcano Hybrid.
#[derive(Debug, Clone, Copy, PartialEq, Eq, Structural)]
pub struct VolcanoUuids {
    pub activity: u128,
    pub current_temp: u128,
    pub target_temp: u128,
    pub display: u128,
    pub current_auto_off: u128,
    pub heater_on: u128,
    pub heater_off: u128,
    pub pump_on: u128,
    pub pump_off: u128,
    pub brightness: u128,
    pub vibration: u128,
    pub shutoff_time: u128,
    pub serial_number: u128,
    pub firmware_version: u128,
    pub firmware_ble_version: u128,
    pub hours_of_heating: u128,
    pub minutes_of_heating: u128,
}

/// Characteristics of the Crafty.
#[derive(Debug, Clone, Copy, PartialEq, Eq, Structural)]
pub struct CraftyUuids {
    pub current_temp_changed: u128,
    pub write_temp: u128,
    pub write_boost_temp: u128,
    pub heater_on: u128,
    pub heater_off: u128,
    pub led_brightness: u128,
    pub serial_number: u128,
    pub firmware_version: u128,
    pub firmware_ble_version: u128,
    pub use_hours: u128,
    pub use_minutes: u128,
    pub system_status: u128,
    pub akku_status: u128,
    pub factory_reset: u128,
    pub auto_off_countdown: u128,
    pub project_register: u128,
    pub sicherheitscode: u128,
}

/// Services by which the models can be told apart.
#[derive(Debug, Clone, Copy, PartialEq, Eq, Structural)]
pub struct ServiceUuids {
    pub volcano_state: u128,
    pub volcano_control: u128,
    pub venty_primary: u128,
    pub crafty_1: u128,
    pub crafty_2: u128,
    pub crafty_3: u128,
}

} // verus!
