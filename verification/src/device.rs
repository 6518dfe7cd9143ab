//! The devices and what is known of them.
pub mod volcano_flags;
pub mod volcano_vibration_flags;

use crate::single::Single;
use vstd::prelude::*;
use vstd::string::*;

verus! {

/// Supported Storz & Bickel device models.
#[derive(Debug, Clone, Copy, PartialEq, Eq, Hash, Structural)]
pub enum DeviceModel {
    VolcanoHybrid,
    Venty,
    Veazy,
    Crafty,
}

impl DeviceModel {
    /// How the model is called.
    pub open spec fn label(self) -> Seq<char> {
        match self {
            DeviceModel::VolcanoHybrid => "Volcano Hybrid"@,
            DeviceModel::Venty => "Venty"@,
            DeviceModel::Veazy => "Veazy"@,
            DeviceModel::Crafty => "Crafty"@,
        }
    }

    /// The model's name.
    pub fn name(self) -> (r: String)
        ensures
            r@ == self.label(),
    {
        match self {
            DeviceModel::VolcanoHybrid => "Volcano Hybrid".to_owned(),
            DeviceModel::Venty => "Venty".to_owned(),
            DeviceModel::Veazy => "Veazy".to_owned(),
            DeviceModel::Crafty => "Crafty".to_owned(),
        }
    }
}

/// Heater mode for Venty/Veazy devices.
#[derive(Debug, Clone, Copy, PartialEq, Eq, Hash, Structural)]
pub enum HeaterMode {
    /// Heater off
    Off,
    /// Normal heating
    Normal,
    /// Boost mode
    Boost,
    /// Superboost mode
    SuperBoost,
}

/// The heater mode that a raw byte stands for: 1 to 3 are the heating modes, all else is off.
pub open spec fn mode_of(val: u8) -> HeaterMode {
    if val == 1 {
        HeaterMode::Normal
    } else if val == 2 {
        HeaterMode::Boost
    } else if val == 3 {
        HeaterMode::SuperBoost
    } else {
        HeaterMode::Off
    }
}

impl HeaterMode {
    /// The byte that stands for a mode.
    pub open spec fn code(self) -> u8 {
        match self {
            HeaterMode::Off => 0,
            HeaterMode::Normal => 1,
            HeaterMode::Boost => 2,
            HeaterMode::SuperBoost => 3,
        }
    }

    /// How the mode is called.
    pub open spec fn label(self) -> Seq<char> {
        match self {
            HeaterMode::Off => "off"@,
            HeaterMode::Normal => "normal"@,
            HeaterMode::Boost => "boost"@,
            HeaterMode::SuperBoost => "superboost"@,
        }
    }

    /// Parse from raw byte value.
    pub fn from_u8(val: u8) -> (r: Self)
        ensures
            r == mode_of(val),
    {
        match val {
            1 => HeaterMode::Normal,
            2 => HeaterMode::Boost,
            3 => HeaterMode::SuperBoost,
            _ => HeaterMode::Off,
        }
    }

    /// The raw byte value.
    pub fn as_u8(self) -> (r: u8)
        ensures
            r == self.code(),
    {
        match self {
            HeaterMode::Off => 0,
            HeaterMode::Normal => 1,
            HeaterMode::Boost => 2,
            HeaterMode::SuperBoost => 3,
        }
    }

    /// The mode's name.
    pub fn name(self) -> (r: String)
        ensures
            r@ == self.label(),
    {
        match self {
            HeaterMode::Off => "off".to_owned(),
            HeaterMode::Normal => "normal".to_owned(),
            HeaterMode::Boost => "boost".to_owned(),
            HeaterMode::SuperBoost => "superboost".to_owned(),
        }
    }
}

/// Reading back the byte of a mode gives the mode.
pub proof fn law_heater_mode_round_trip(mode: HeaterMode)
    ensures
        mode_of(mode.code()) == mode,
{
}

/// Device settings.
#[derive(Debug, Clone, Copy, PartialEq, Eq)]
pub struct DeviceSettings {
    /// Temperature unit: true = Celsius, false = Fahrenheit
    pub is_celsius: bool,
    /// Setpoint reached flag
    pub setpoint_reached: bool,
    /// Boost visualization enabled
    pub boost_visualization: bool,
    /// Charge current optimization
    pub charge_current_optimization: bool,
    /// Charge voltage limit enabled
    pub charge_voltage_limit: bool,
    /// Permanent Bluetooth enabled
    pub permanent_bluetooth: bool,
    /// Vibration enabled
    pub vibration: bool,
    /// Auto shutdown timer in seconds
    pub auto_shutdown_seconds: Option<u16>,
    /// Battery level 0-100
    pub battery_level: Option<u8>,
    /// Is charging
    pub is_charging: bool,
}

impl DeviceSettings {
    /// Nothing known, every switch off.
    pub open spec fn blank() -> DeviceSettings {
        DeviceSettings {
            is_celsius: false,
            setpoint_reached: false,
            boost_visualization: false,
            charge_current_optimization: false,
            charge_voltage_limit: false,
            permanent_bluetooth: false,
            vibration: false,
            auto_shutdown_seconds: None,
            battery_level: None,
            is_charging: false,
        }
    }
}

impl Default for DeviceSettings {
    fn default() -> (r: Self)
        ensures
            r == DeviceSettings::blank(),
    {
        DeviceSettings {
            is_celsius: false,
            setpoint_reached: false,
            boost_visualization: false,
            charge_current_optimization: false,
            charge_voltage_limit: false,
            permanent_bluetooth: false,
            vibration: false,
            auto_shutdown_seconds: None,
            battery_level: None,
            is_charging: false,
        }
    }
}

/// Current state snapshot of a vaporizer device.
#[derive(Debug, Clone, Copy, PartialEq, Eq)]
pub struct DeviceState {
    /// Current measured temperature in Celsius.
    pub current_temp: Option<Single>,
    /// Target temperature in Celsius.
    pub target_temp: Option<Single>,
    /// Boost temperature offset in Celsius (Venty/Veazy).
    pub boost_temp: Option<Single>,
    /// Superboost temperature offset in Celsius (Venty/Veazy).
    pub super_boost_temp: Option<Single>,
    /// Heater mode (Venty/Veazy).
    pub heater_mode: Option<HeaterMode>,
    /// Heater is active.
    pub heater_on: bool,
    /// Pump is active (Volcano only).
    pub pump_on: bool,
    /// Fan is active (Volcano only).
    pub fan_on: bool,
    /// Target temperature has been reached.
    pub setpoint_reached: bool,
    /// Raw activity flags (Volcano).
    pub raw_activity: Option<u32>,
    /// Device settings (Venty/Veazy).
    pub settings: Option<DeviceSettings>,
}

impl DeviceState {
    /// Nothing known, everything off.
    pub open spec fn blank() -> DeviceState {
        DeviceState {
            current_temp: None,
            target_temp: None,
            boost_temp: None,
            super_boost_temp: None,
            heater_mode: None,
            heater_on: false,
            pump_on: false,
            fan_on: false,
            setpoint_reached: false,
            raw_activity: None,
            settings: None,
        }
    }

    /// The battery level, where the settings are known and tell it.
    pub fn get_battery_level(&self) -> (r: Option<u8>)
        ensures
            r == match self.settings {
                Some(s) => s.battery_level,
                None => None,
            },
    {
        match self.settings {
            Some(s) => s.battery_level,
            None => None,
        }
    }

    /// Whether the device charges, where the settings are known.
    pub fn get_is_charging(&self) -> (r: Option<bool>)
        ensures
            r == match self.settings {
                Some(s) => Some(s.is_charging),
                None => None,
            },
    {
        match self.settings {
            Some(s) => Some(s.is_charging),
            None => None,
        }
    }

    /// One line about the state, where the two texts are the temperatures in it.
    pub open spec fn summary(self, current: Seq<char>, target: Seq<char>) -> Seq<char> {
        "State(heater="@ + truth(self.heater_on) + ", pump="@ + truth(self.pump_on) + ", fan="@
            + truth(self.fan_on) + ", current="@ + current + "°C, target="@ + target + "°C)"@
    }

    /// Describes the state in one line, given the two temperatures as texts.
    pub fn describe(&self, current: &str, target: &str) -> (r: String)
        ensures
            r@ == self.summary(current@, target@),
    {
        let mut out = "State(heater=".to_owned();
        out.append(truth_text(self.heater_on));
        out.append(", pump=");
        out.append(truth_text(self.pump_on));
        out.append(", fan=");
        out.append(truth_text(self.fan_on));
        out.append(", current=");
        out.append(current);
        out.append("°C, target=");
        out.append(target);
        out.append("°C)");
        out
    }
}

impl Default for DeviceState {
    fn default() -> (r: Self)
        ensures
            r == DeviceState::blank(),
    {
        DeviceState {
            current_temp: None,
            target_temp: None,
            boost_temp: None,
            super_boost_temp: None,
            heater_mode: None,
            heater_on: false,
            pump_on: false,
            fan_on: false,
            setpoint_reached: false,
            raw_activity: None,
            settings: None,
        }
    }
}

/// How a truth value is written.
pub open spec fn truth(b: bool) -> Seq<char> {
    if b {
        "true"@
    } else {
        "false"@
    }
}

/// Writes a truth value.
pub fn truth_text(b: bool) -> (r: &'static str)
    ensures
        r@ == truth(b),
{
    if b {
        "true"
    } else {
        "false"
    }
}

/// Device information (serial number, firmware, etc.).
#[derive(Debug, PartialEq, Eq)]
pub struct DeviceInfo {
    /// Serial number string.
    pub serial_number: Option<String>,
    /// Firmware version string.
    pub firmware_version: Option<String>,
    /// BLE firmware version string.
    pub firmware_ble_version: Option<String>,
    /// Color index (Venty/Veazy).
    pub color_index: Option<u8>,
    /// Total heater runtime in minutes.
    pub heater_runtime_minutes: Option<u32>,
    /// Total battery charging time in minutes.
    pub battery_charging_time_minutes: Option<u32>,
    /// Hours of heating (Volcano).
    pub hours_of_heating: Option<u16>,
    /// Minutes of heating (Volcano).
    pub minutes_of_heating: Option<u16>,
}

/// Device information with its texts as character sequences.
pub struct InfoView {
    pub serial_number: Option<Seq<char>>,
    pub firmware_version: Option<Seq<char>>,
    pub firmware_ble_version: Option<Seq<char>>,
    pub color_index: Option<u8>,
    pub heater_runtime_minutes: Option<u32>,
    pub battery_charging_time_minutes: Option<u32>,
    pub hours_of_heating: Option<u16>,
    pub minutes_of_heating: Option<u16>,
}

impl InfoView {
    /// Nothing known.
    pub open spec fn blank() -> InfoView {
        InfoView {
            serial_number: None,
            firmware_version: None,
            firmware_ble_version: None,
            color_index: None,
            heater_runtime_minutes: None,
            battery_charging_time_minutes: None,
            hours_of_heating: None,
            minutes_of_heating: None,
        }
    }
}

impl View for DeviceInfo {
    type V = InfoView;

    open spec fn view(&self) -> InfoView {
        InfoView {
            serial_number: crate::text::text_of(self.serial_number),
            firmware_version: crate::text::text_of(self.firmware_version),
            firmware_ble_version: crate::text::text_of(self.firmware_ble_version),
            color_index: self.color_index,
            heater_runtime_minutes: self.heater_runtime_minutes,
            battery_charging_time_minutes: self.battery_charging_time_minutes,
            hours_of_heating: self.hours_of_heating,
            minutes_of_heating: self.minutes_of_heating,
        }
    }
}

impl Default for DeviceInfo {
    fn default() -> (r: Self)
        ensures
            r@ == InfoView::blank(),
    {
        DeviceInfo {
            serial_number: None,
            firmware_version: None,
            firmware_ble_version: None,
            color_index: None,
            heater_runtime_minutes: None,
            battery_charging_time_minutes: None,
            hours_of_heating: None,
            minutes_of_heating: None,
        }
    }
}

impl Clone for DeviceInfo {
    fn clone(&self) -> (r: Self)
        ensures
            r@ == self@,
    {
        DeviceInfo {
            serial_number: self.serial_number.clone(),
            firmware_version: self.firmware_version.clone(),
            firmware_ble_version: self.firmware_ble_version.clone(),
            color_index: self.color_index,
            heater_runtime_minutes: self.heater_runtime_minutes,
            battery_charging_time_minutes: self.battery_charging_time_minutes,
            hours_of_heating: self.hours_of_heating,
            minutes_of_heating: self.minutes_of_heating,
        }
    }
}

} // verus!
