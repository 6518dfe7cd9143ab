//! Venty and Veazy: one characteristic, to which 20-byte commands are written and which
//! notifies of everything.
use crate::device::DeviceInfo;
use crate::device::DeviceModel;
use crate::device::DeviceSettings;
use crate::device::DeviceState;
use crate::device::HeaterMode;
use crate::error::Detail;
use crate::error::StorzError;
use crate::gatt::copied;
use crate::gatt::has_characteristic;
use crate::gatt::CharacteristicWrite;
use crate::single::Single;
use crate::text::decimal_text;
use crate::text::from_utf8_lossy;
use crate::utils::build_venty_command;
use crate::utils::celsius_of;
use crate::utils::tenths_u16;
use crate::utils::u16_at;
use crate::utils::u24_at;
use vstd::prelude::*;
use vstd::string::*;

verus! {

/// Venty or Veazy device, both share the same protocol.
#[derive(Debug)]
pub struct Venty {
    pub model: DeviceModel,
    /// Identifier of the control characteristic.
    pub control: u128,
    /// Identifiers of the characteristics that the device offers.
    pub characteristics: Vec<u128>,
    pub state: DeviceState,
    pub device_info: DeviceInfo,
}

/// Four bytes with dots between them.
pub open spec fn dotted(a: u8, b: u8, c: u8, d: u8) -> Seq<char> {
    crate::text::decimal(a as nat).push('.') + crate::text::decimal(b as nat).push('.')
        + crate::text::decimal(c as nat).push('.') + crate::text::decimal(d as nat)
}

/// Settings after a status notification of at least 15 bytes.
pub open spec fn settings_after(before: DeviceSettings, data: Seq<u8>) -> DeviceSettings {
    DeviceSettings {
        battery_level: Some(data[8]),
        auto_shutdown_seconds: Some(
            crate::utils::little_endian(data.subrange(9, 11)) as u16,
        ),
        is_charging: data[13] > 0,
        is_celsius: data[14] & 0x01 == 0,
        setpoint_reached: data[14] & 0x02 != 0,
        charge_current_optimization: data[14] & 0x08 != 0,
        charge_voltage_limit: data[14] & 0x20 != 0,
        boost_visualization: data[14] & 0x40 != 0,
        vibration: data[14] & 0x40 != 0,
        permanent_bluetooth: if data.len() >= 17 {
            data[16] & 0x01 != 0
        } else {
            before.permanent_bluetooth
        },
        ..before
    }
}

/// What was known of the settings.
pub open spec fn known_settings(state: DeviceState) -> DeviceSettings {
    match state.settings {
        Some(s) => s,
        None => DeviceSettings::blank(),
    }
}

/// A notification that tells the status of the device.
pub open spec fn is_status(data: Seq<u8>) -> bool {
    data.len() >= 15 && data[0] == 0x01
}

/// State after a notification.
pub open spec fn state_after(before: DeviceState, data: Seq<u8>) -> DeviceState {
    if is_status(data) {
        let mode = crate::device::mode_of(data[11]);
        let settings = settings_after(known_settings(before), data);
        DeviceState {
            target_temp: Some(
                crate::utils::of_tenths(crate::utils::little_endian(data.subrange(4, 6))),
            ),
            boost_temp: Some(crate::single::whole(data[6] as nat)),
            super_boost_temp: Some(crate::single::whole(data[7] as nat)),
            heater_mode: Some(mode),
            heater_on: mode != HeaterMode::Off,
            pump_on: false,
            setpoint_reached: settings.setpoint_reached,
            settings: Some(settings),
            ..before
        }
    } else {
        before
    }
}

/// Device information after a notification.
pub open spec fn info_after(
    before: crate::device::InfoView,
    data: Seq<u8>,
) -> crate::device::InfoView {
    if data.len() >= 9 && data[0] == 0x02 {
        crate::device::InfoView {
            firmware_version: Some(dotted(data[1], data[2], data[3], data[4])),
            firmware_ble_version: Some(dotted(data[5], data[6], data[7], data[8])),
            ..before
        }
    } else if data.len() >= 7 && data[0] == 0x04 {
        crate::device::InfoView {
            heater_runtime_minutes: Some(
                crate::utils::little_endian(data.subrange(1, 4)) as u32,
            ),
            battery_charging_time_minutes: Some(
                crate::utils::little_endian(data.subrange(4, 7)) as u32,
            ),
            ..before
        }
    } else if data.len() >= 19 && data[0] == 0x05 {
        crate::device::InfoView {
            serial_number: Some(
                crate::text::lossy_text(data.subrange(15, 17)) + crate::text::lossy_text(
                    data.subrange(9, 15),
                ),
            ),
            color_index: Some(data[18]),
            ..before
        }
    } else {
        before
    }
}

/// Writes a version.
fn dotted_text(data: &[u8], from: usize) -> (r: String)
    requires
        from + 4 <= data@.len(),
    ensures
        r@ == dotted(data@[from as int], data@[from + 1], data@[from + 2], data@[from + 3]),
{
    let mut out = decimal_text(data[from] as u64);
    out.push('.');
    let b = decimal_text(data[from + 1] as u64);
    out.append(b.as_str());
    out.push('.');
    let c = decimal_text(data[from + 2] as u64);
    out.append(c.as_str());
    out.push('.');
    let d = decimal_text(data[from + 3] as u64);
    out.append(d.as_str());
    assert(out@ == dotted(data@[from as int], data@[from + 1], data@[from + 2], data@[from + 3]));
    out
}

impl Venty {
    /// A device of which nothing is known yet.
    pub fn new(model: DeviceModel, control: u128, characteristics: Vec<u128>) -> (r: Venty)
        ensures
            r.model == model,
            r.control == control,
            r.characteristics@ == characteristics@,
            r.state == DeviceState::blank(),
            r.device_info@ == crate::device::InfoView::blank(),
    {
        Venty {
            model,
            control,
            characteristics,
            state: DeviceState::default(),
            device_info: DeviceInfo::default(),
        }
    }

    /// Takes in a notification and says whether it brought a new state to tell of.
    pub fn handle_notification(&mut self, data: &[u8]) -> (r: bool)
        ensures
            r == is_status(data@),
            final(self).state == state_after(old(self).state, data@),
            final(self).device_info@ == info_after(old(self).device_info@, data@),
            data@.len() >= 19 && data@[0] == 0x05 && vstd::utf8::valid_utf8(data@.subrange(15, 17))
                && vstd::utf8::valid_utf8(data@.subrange(9, 15))
                ==> final(self).device_info@.serial_number == Some(
                vstd::utf8::decode_utf8(data@.subrange(15, 17)) + vstd::utf8::decode_utf8(
                    data@.subrange(9, 15),
                ),
            ),
            final(self).model == old(self).model,
            final(self).control == old(self).control,
            final(self).characteristics@ == old(self).characteristics@,
    {
        if data.len() == 0 {
            return false;
        }
        let cmd_id = data[0];
        if cmd_id == 0x01 && data.len() >= 15 {
            self.take_status(data);
            return true;
        }
        if cmd_id == 0x02 && data.len() >= 9 {
            let firmware = dotted_text(data, 1);
            let bootloader = dotted_text(data, 5);
            self.device_info.firmware_version = Some(firmware);
            self.device_info.firmware_ble_version = Some(bootloader);
        } else if cmd_id == 0x04 && data.len() >= 7 {
            self.device_info.heater_runtime_minutes = Some(u24_at(data, 1));
            self.device_info.battery_charging_time_minutes = Some(u24_at(data, 4));
        } else if cmd_id == 0x05 && data.len() >= 19 {
            let mut serial = from_utf8_lossy(vstd::slice::slice_subrange(data, 15, 17));
            let rest = from_utf8_lossy(vstd::slice::slice_subrange(data, 9, 15));
            serial.append(rest.as_str());
            self.device_info.serial_number = Some(serial);
            self.device_info.color_index = Some(data[18]);
        }
        false
    }

    /// Takes in a status notification.
    fn take_status(&mut self, data: &[u8])
        requires
            is_status(data@),
        ensures
            final(self).state == state_after(old(self).state, data@),
            final(self).device_info == old(self).device_info,
            final(self).model == old(self).model,
            final(self).control == old(self).control,
            final(self).characteristics == old(self).characteristics,
    {
        let mode = HeaterMode::from_u8(data[11]);
        let mut settings = match self.state.settings {
            Some(s) => s,
            None => DeviceSettings::default(),
        };
        settings.battery_level = Some(data[8]);
        settings.auto_shutdown_seconds = Some(u16_at(data, 9));
        settings.is_charging = data[13] > 0;
        let flags = data[14];
        settings.is_celsius = (flags & 0x01) == 0;
        settings.setpoint_reached = (flags & 0x02) != 0;
        settings.charge_current_optimization = (flags & 0x08) != 0;
        settings.charge_voltage_limit = (flags & 0x20) != 0;
        settings.boost_visualization = (flags & 0x40) != 0;
        settings.vibration = (flags & 0x40) != 0;
        if data.len() >= 17 {
            settings.permanent_bluetooth = (data[16] & 0x01) != 0;
        }
        self.state.target_temp = Some(celsius_of(u16_at(data, 4) as u32));
        self.state.boost_temp = Some(Single::from_u32(data[6] as u32));
        self.state.super_boost_temp = Some(Single::from_u32(data[7] as u32));
        self.state.heater_on = mode != HeaterMode::Off;
        self.state.heater_mode = Some(mode);
        self.state.setpoint_reached = settings.setpoint_reached;
        self.state.settings = Some(settings);
        self.state.pump_on = false;
    }
}

/// The error of a device without its control characteristic.
pub open spec fn control_missing() -> crate::error::Failure {
    crate::error::unparsed("Venty control characteristic not found"@)
}

/// The byte of a switch: `bit` or nothing.
pub open spec fn switched(on: bool, bit: u8) -> u8 {
    if on {
        bit
    } else {
        0
    }
}

/// The low byte of a number, as a command carries it.
pub open spec fn low_byte(n: nat) -> u8 {
    (n % 256) as u8
}

/// The high byte of a number, as a command carries it.
pub open spec fn high_byte(n: nat) -> u8 {
    (n / 256) as u8
}

impl Venty {
    /// The outcome is a command to the control characteristic where the device has it.
    pub open spec fn sends(
        &self,
        r: Result<CharacteristicWrite, StorzError>,
        bytes: Seq<u8>,
    ) -> bool {
        crate::gatt::writes(r, self.characteristics@, self.control, bytes, control_missing())
    }

    /// The control characteristic.
    pub fn control_characteristic(&self) -> (r: Result<u128, StorzError>)
        ensures
            r is Ok <==> self.characteristics@.contains(self.control),
            r matches Ok(uuid) ==> uuid == self.control,
            r matches Err(e) ==> e@ == control_missing(),
    {
        if has_characteristic(self.characteristics.as_slice(), self.control) {
            Ok(self.control)
        } else {
            Err(StorzError::ParseError(
                Detail::Text("Venty control characteristic not found".to_owned()),
            ))
        }
    }

    fn write_command(&self, buf: &[u8]) -> (r: Result<CharacteristicWrite, StorzError>)
        ensures
            self.sends(r, buf@),
    {
        match self.control_characteristic() {
            Ok(uuid) => Ok(CharacteristicWrite { uuid, bytes: copied(buf) }),
            Err(e) => Err(e),
        }
    }

    /// What a freshly connected device is sent, once its notifications are subscribed to:
    /// requests for firmware, 0x1D, status and extended data, in this order.
    pub fn init(&self) -> (r: Result<Vec<CharacteristicWrite>, StorzError>)
        ensures
            self.sends_all(r, seq![0x02u8, 0x1du8, 0x01u8, 0x04u8]),
    {
        self.requests(&[0x02, 0x1d, 0x01, 0x04])
    }

    /// The requests for device information; the answers come as notifications.
    pub fn get_device_info(&self) -> (r: Result<Vec<CharacteristicWrite>, StorzError>)
        ensures
            self.sends_all(r, seq![0x02u8, 0x04u8, 0x05u8]),
    {
        self.requests(&[0x02, 0x04, 0x05])
    }

    /// The outcome is one bare command after another, where the device has the control
    /// characteristic.
    pub open spec fn sends_all(
        &self,
        r: Result<Vec<CharacteristicWrite>, StorzError>,
        commands: Seq<u8>,
    ) -> bool {
        &&& r is Ok <==> self.characteristics@.contains(self.control)
        &&& r matches Ok(list) ==> {
            &&& list@.len() == commands.len()
            &&& forall|i: int|
                0 <= i < commands.len() ==> (#[trigger] list@[i]).uuid == self.control
                    && list@[i].bytes@ == crate::utils::command(commands[i], 0, Seq::empty())
        }
        &&& r matches Err(e) ==> e@ == control_missing()
    }

    fn requests(&self, commands: &[u8]) -> (r: Result<Vec<CharacteristicWrite>, StorzError>)
        ensures
            self.sends_all(r, commands@),
    {
        let uuid = match self.control_characteristic() {
            Ok(uuid) => uuid,
            Err(e) => return Err(e),
        };
        let mut out: Vec<CharacteristicWrite> = Vec::new();
        let mut i: usize = 0;
        while i < commands.len()
            invariant
                i <= commands@.len(),
                out@.len() == i,
                uuid == self.control,
                forall|k: int|
                    0 <= k < i ==> (#[trigger] out@[k]).uuid == self.control && out@[k].bytes@
                        == crate::utils::command(commands@[k], 0, Seq::empty()),
            decreases commands@.len() - i,
        {
            let empty: [(usize, u8); 0] = [];
            assert(empty@ == Seq::<(usize, u8)>::empty());
            let buf = build_venty_command(commands[i], 0, &empty);
            out.push(CharacteristicWrite { uuid, bytes: copied(&buf) });
            i = i + 1;
        }
        Ok(out)
    }

    /// The measured temperature, as far as notifications told it. No notification that is
    /// understood carries it: which bytes hold the measured temperature is not known, so that a
    /// device that was only listened to answers with the error.
    pub fn get_current_temperature(&self) -> (r: Result<Single, StorzError>)
        ensures
            match self.state.current_temp {
                Some(t) => r matches Ok(v) && v == t,
                None => r matches Err(e) && e@ == crate::error::unparsed(
                    "Current temperature not yet available from device notifications"@,
                ),
            },
    {
        match self.state.current_temp {
            Some(t) => Ok(t),
            None => Err(
                StorzError::ParseError(
                    Detail::Text("Current temperature not yet available from device notifications".to_owned()),
                ),
            ),
        }
    }

    /// The target temperature, as far as notifications told it.
    pub fn get_target_temperature(&self) -> (r: Result<Single, StorzError>)
        ensures
            match self.state.target_temp {
                Some(t) => r matches Ok(v) && v == t,
                None => r matches Err(e) && e@ == crate::error::unparsed(
                    "Target temperature not yet available from device notifications"@,
                ),
            },
    {
        match self.state.target_temp {
            Some(t) => Ok(t),
            None => Err(
                StorzError::ParseError(
                    Detail::Text("Target temperature not yet available from device notifications".to_owned()),
                ),
            ),
        }
    }

    /// The settings, as far as notifications told them.
    pub fn get_settings(&self) -> (r: Result<DeviceSettings, StorzError>)
        ensures
            match self.state.settings {
                Some(s) => r matches Ok(v) && v == s,
                None => r matches Err(e) && e@ == crate::error::unparsed(
                    "Settings not yet available from device notifications"@,
                ),
            },
    {
        match self.state.settings {
            Some(s) => Ok(s),
            None => Err(
                StorzError::ParseError(
                    Detail::Text("Settings not yet available from device notifications".to_owned()),
                ),
            ),
        }
    }

    /// Sets the target temperature, in tenths of a degree and without a range check.
    pub fn set_target_temperature(&self, celsius: Single) -> (r: Result<
        CharacteristicWrite,
        StorzError,
    >)
        ensures
            self.sends(r, target_command(crate::utils::tenths(celsius, u16::MAX as nat))),
    {
        let raw = tenths_u16(celsius);
        let pairs: [(usize, u8); 2] = [(4, (raw % 256) as u8), (5, (raw / 256) as u8)];
        assert(pairs@ == seq![(4usize, low_byte(raw as nat)), (5usize, high_byte(raw as nat))]);
        let buf = build_venty_command(0x01, 0x02, &pairs);
        self.write_command(&buf)
    }

    /// Sets the time after which the device switches itself off.
    pub fn set_auto_shutdown_timer(&self, seconds: u16) -> (r: Result<
        CharacteristicWrite,
        StorzError,
    >)
        ensures
            self.sends(r, timer_command(seconds)),
    {
        let pairs: [(usize, u8); 2] = [(9, (seconds % 256) as u8), (10, (seconds / 256) as u8)];
        assert(pairs@ == seq![
            (9usize, low_byte(seconds as nat)),
            (10usize, high_byte(seconds as nat)),
        ]);
        let buf = build_venty_command(0x01, 0x10, &pairs);
        self.write_command(&buf)
    }

    /// Switches the heater on, in normal mode.
    pub fn heater_on(&self) -> (r: Result<CharacteristicWrite, StorzError>)
        ensures
            self.sends(r, heater_command(HeaterMode::Normal)),
    {
        let pairs: [(usize, u8); 1] = [(11, 1u8)];
        assert(pairs@ == seq![(11usize, 1u8)]);
        let buf = build_venty_command(0x01, 0x20, &pairs);
        self.write_command(&buf)
    }

    /// Switches the heater off.
    pub fn heater_off(&self) -> (r: Result<CharacteristicWrite, StorzError>)
        ensures
            self.sends(r, heater_command(HeaterMode::Off)),
    {
        let pairs: [(usize, u8); 1] = [(11, 0u8)];
        assert(pairs@ == seq![(11usize, 0u8)]);
        let buf = build_venty_command(0x01, 0x20, &pairs);
        self.write_command(&buf)
    }

    /// Sets the heater mode.
    pub fn set_heater_mode(&self, mode: HeaterMode) -> (r: Result<CharacteristicWrite, StorzError>)
        ensures
            self.sends(r, heater_command(mode)),
    {
        let code: u8 = mode.as_u8();
        let pairs: [(usize, u8); 1] = [(11, code)];
        assert(pairs@ == seq![(11usize, code)]);
        let buf = build_venty_command(0x01, 0x20, &pairs);
        self.write_command(&buf)
    }

    /// There is no pump.
    pub fn pump_on(&self) -> (r: Result<CharacteristicWrite, StorzError>)
        ensures
            r matches Err(e) && e@ == crate::error::unsupported(self.model.label(), "pump_on"@),
    {
        Err(StorzError::UnsupportedOperation { device: self.model.name(), operation: "pump_on".to_owned() })
    }

    /// There is no pump.
    pub fn pump_off(&self) -> (r: Result<CharacteristicWrite, StorzError>)
        ensures
            r matches Err(e) && e@ == crate::error::unsupported(self.model.label(), "pump_off"@),
    {
        Err(StorzError::UnsupportedOperation { device: self.model.name(), operation: "pump_off".to_owned() })
    }

    /// Sets the boost offset, in whole degrees.
    pub fn set_boost_temperature(&self, celsius: Single) -> (r: Result<CharacteristicWrite, StorzError>)
        ensures
            self.sends(r, boost_command(celsius.saturated(255) as u8)),
    {
        let raw: u8 = celsius.round_saturating(255) as u8;
        let pairs: [(usize, u8); 1] = [(6, raw)];
        assert(pairs@ == seq![(6usize, raw)]);
        let buf = build_venty_command(0x01, 0x04, &pairs);
        self.write_command(&buf)
    }

    /// Sets the superboost offset, in whole degrees.
    pub fn set_super_boost_temperature(&self, celsius: Single) -> (r: Result<CharacteristicWrite, StorzError>)
        ensures
            self.sends(r, super_boost_command(celsius.saturated(255) as u8)),
    {
        let raw: u8 = celsius.round_saturating(255) as u8;
        let pairs: [(usize, u8); 1] = [(7, raw)];
        assert(pairs@ == seq![(7usize, raw)]);
        let buf = build_venty_command(0x01, 0x08, &pairs);
        self.write_command(&buf)
    }

    /// Writes a setting: its byte, and behind it the mask of the bits that count.
    fn write_setting(&self, at: usize, value: u8, mask: u8) -> (r: Result<
        CharacteristicWrite,
        StorzError,
    >)
        requires
            at == 14 || at == 16,
        ensures
            self.sends(
                r,
                if at == 14 {
                    setting_command(value, mask)
                } else {
                    setting2_command(value, mask)
                },
            ),
    {
        let pairs: [(usize, u8); 2] = [(at, value), (at + 1, mask)];
        assert(pairs@ == seq![(at, value), ((at + 1) as usize, mask)]);
        let buf = build_venty_command(0x01, 0x80, &pairs);
        self.write_command(&buf)
    }

    /// Shows temperatures in Celsius or in Fahrenheit.
    pub fn set_temperature_unit(&self, celsius: bool) -> (r: Result<CharacteristicWrite, StorzError>)
        ensures
            self.sends(r, setting_command(switched(!celsius, 0x01), 0x01)),
    {
        let value: u8 = if celsius { 0 } else { 0x01 };
        self.write_setting(14, value, 0x01)
    }

    /// Resets the device to its factory settings.
    pub fn factory_reset(&self) -> (r: Result<CharacteristicWrite, StorzError>)
        ensures
            self.sends(r, setting_command(0x04, 0x04)),
    {
        let value: u8 = 0x04;
        self.write_setting(14, value, 0x04)
    }

    /// Shows boost on the device; the Veazy has the bit the other way round.
    pub fn set_boost_visualization(&self, enabled: bool) -> (r: Result<CharacteristicWrite, StorzError>)
        ensures
            self.sends(r, setting_command(switched(enabled == (self.model != DeviceModel::Veazy), 0x40), 0x40)),
    {
        let value: u8 = if enabled == (self.model != DeviceModel::Veazy) { 0x40 } else { 0 };
        self.write_setting(14, value, 0x40)
    }

    /// Switches the charge current optimization.
    pub fn set_charge_current_optimization(&self, enabled: bool) -> (r: Result<CharacteristicWrite, StorzError>)
        ensures
            self.sends(r, setting_command(switched(enabled, 0x08), 0x08)),
    {
        let value: u8 = if enabled { 0x08 } else { 0 };
        self.write_setting(14, value, 0x08)
    }

    /// Switches the charge voltage limit.
    pub fn set_charge_voltage_limit(&self, enabled: bool) -> (r: Result<CharacteristicWrite, StorzError>)
        ensures
            self.sends(r, setting_command(switched(enabled, 0x20), 0x20)),
    {
        let value: u8 = if enabled { 0x20 } else { 0 };
        self.write_setting(14, value, 0x20)
    }

    /// Switches permanent Bluetooth.
    pub fn set_permanent_bluetooth(&self, enabled: bool) -> (r: Result<CharacteristicWrite, StorzError>)
        ensures
            self.sends(r, setting2_command(switched(enabled, 0x01), 0x01)),
    {
        let value: u8 = if enabled { 0x01 } else { 0 };
        self.write_setting(16, value, 0x01)
    }

    /// Switches vibration.
    pub fn set_vibration(&self, on: bool) -> (r: Result<CharacteristicWrite, StorzError>)
        ensures
            self.sends(r, seq![0x06u8, 0x08u8, 0u8, 0u8, 0u8, switched(on, 1), 0u8]),
    {
        let value: u8 = if on { 1 } else { 0 };
        let buf: [u8; 7] = [0x06, 0x08, 0, 0, 0, value, 0];
        assert(buf@ == seq![0x06u8, 0x08u8, 0u8, 0u8, 0u8, value, 0u8]);
        self.write_command(&buf)
    }

    /// Sets the brightness, of which the low byte counts.
    pub fn set_brightness(&self, value: u16) -> (r: Result<CharacteristicWrite, StorzError>)
        ensures
            self.sends(r, seq![0x06u8, 0x01u8, low_byte(value as nat), 0u8, 0u8, 0u8, 0u8]),
    {
        let value: u8 = (value % 256) as u8;
        let buf: [u8; 7] = [0x06, 0x01, value, 0, 0, 0, 0];
        assert(buf@ == seq![0x06u8, 0x01u8, value, 0u8, 0u8, 0u8, 0u8]);
        self.write_command(&buf)
    }

    /// Sets how long a boost lasts.
    pub fn set_boost_timeout(&self, seconds: u8) -> (r: Result<CharacteristicWrite, StorzError>)
        ensures
            self.sends(r, seq![0x06u8, 0x10u8, 0u8, 0u8, 0u8, 0u8, seconds]),
    {
        let value: u8 = seconds;
        let buf: [u8; 7] = [0x06, 0x10, 0, 0, 0, 0, value];
        assert(buf@ == seq![0x06u8, 0x10u8, 0u8, 0u8, 0u8, 0u8, value]);
        self.write_command(&buf)
    }

    /// Makes the device show where it is.
    pub fn find_my_device(&self) -> (r: Result<CharacteristicWrite, StorzError>)
        ensures
            self.sends(r, crate::utils::command(0x0d, 0x01, Seq::empty())),
    {
        let empty: [(usize, u8); 0] = [];
        assert(empty@ == Seq::<(usize, u8)>::empty());
        let buf = build_venty_command(0x0d, 0x01, &empty);
        self.write_command(&buf)
    }
}

/// The command that sets a target of `raw` tenths of a degree.
pub open spec fn target_command(raw: nat) -> Seq<u8> {
    crate::utils::command(0x01, 0x02, seq![(4usize, low_byte(raw)), (5usize, high_byte(raw))])
}

/// The command that sets the shutdown timer.
pub open spec fn timer_command(seconds: u16) -> Seq<u8> {
    crate::utils::command(
        0x01,
        0x10,
        seq![(9usize, low_byte(seconds as nat)), (10usize, high_byte(seconds as nat))],
    )
}

/// The command that sets the heater mode.
pub open spec fn heater_command(mode: HeaterMode) -> Seq<u8> {
    crate::utils::command(0x01, 0x20, seq![(11usize, mode.code())])
}

/// The command that sets the boost offset.
pub open spec fn boost_command(degrees: u8) -> Seq<u8> {
    crate::utils::command(0x01, 0x04, seq![(6usize, degrees)])
}

/// The command that sets the superboost offset.
pub open spec fn super_boost_command(degrees: u8) -> Seq<u8> {
    crate::utils::command(0x01, 0x08, seq![(7usize, degrees)])
}

/// The command that sets the bits in `mask` of the settings byte.
pub open spec fn setting_command(value: u8, mask: u8) -> Seq<u8> {
    crate::utils::command(0x01, 0x80, seq![(14usize, value), (15usize, mask)])
}

/// The command that sets the bits in `mask` of the second settings byte.
pub open spec fn setting2_command(value: u8, mask: u8) -> Seq<u8> {
    crate::utils::command(0x01, 0x80, seq![(16usize, value), (17usize, mask)])
}

/// A device that answers a target command with the same bytes reports the target that was
/// set.
pub proof fn law_target_echo(before: DeviceState, raw: nat)
    requires
        raw <= 0xffff,
    ensures
        is_status(target_command(raw)),
        state_after(before, target_command(raw)).target_temp == Some(crate::utils::of_tenths(raw)),
{
    lemma_two_pairs((4usize, low_byte(raw)), (5usize, high_byte(raw)));
    lemma_two_bytes(target_command(raw), 4, raw);
}

/// A device that answers a timer command with the same bytes reports the timer that was set.
pub proof fn law_timer_echo(before: DeviceState, seconds: u16)
    ensures
        is_status(timer_command(seconds)),
        known_settings(state_after(before, timer_command(seconds))).auto_shutdown_seconds == Some(
            seconds,
        ),
{
    lemma_two_pairs((9usize, low_byte(seconds as nat)), (10usize, high_byte(seconds as nat)));
    lemma_two_bytes(timer_command(seconds), 9, seconds as nat);
}

/// A device that answers a heater command with the same bytes reports the mode that was set,
/// and that it heats unless that is off.
pub proof fn law_heater_echo(before: DeviceState, mode: HeaterMode)
    ensures
        is_status(heater_command(mode)),
        state_after(before, heater_command(mode)).heater_mode == Some(mode),
        state_after(before, heater_command(mode)).heater_on == (mode != HeaterMode::Off),
{
    reveal_with_fuel(crate::utils::command, 2);
    crate::device::law_heater_mode_round_trip(mode);
}

/// A device that answers a boost command with the same bytes reports the offset that was set.
pub proof fn law_boost_echo(before: DeviceState, degrees: u8)
    ensures
        is_status(boost_command(degrees)),
        state_after(before, boost_command(degrees)).boost_temp == Some(
            crate::single::whole(degrees as nat),
        ),
        is_status(super_boost_command(degrees)),
        state_after(before, super_boost_command(degrees)).super_boost_temp == Some(
            crate::single::whole(degrees as nat),
        ),
{
    reveal_with_fuel(crate::utils::command, 2);
}

/// The two pairs of a command, one by one.
proof fn lemma_two_pairs(a: (usize, u8), b: (usize, u8))
    requires
        a.0 < 20,
        b.0 < 20,
    ensures
        crate::utils::command(0x01, 0x02, seq![a, b]) == crate::utils::bare_command(
            0x01,
            0x02,
        ).update(a.0 as int, a.1).update(b.0 as int, b.1),
        crate::utils::command(0x01, 0x10, seq![a, b]) == crate::utils::bare_command(
            0x01,
            0x10,
        ).update(a.0 as int, a.1).update(b.0 as int, b.1),
        crate::utils::command(0x01, 0x80, seq![a, b]) == crate::utils::bare_command(
            0x01,
            0x80,
        ).update(a.0 as int, a.1).update(b.0 as int, b.1),
{
    reveal_with_fuel(crate::utils::command, 3);
    assert(seq![a, b].drop_last() == seq![a]);
    assert(seq![a].drop_last() == Seq::<(usize, u8)>::empty());
}

/// Two bytes of a command hold the number that was put there.
proof fn lemma_two_bytes(data: Seq<u8>, at: int, n: nat)
    requires
        0 <= at,
        at + 2 <= data.len(),
        n <= 0xffff,
        data[at] == low_byte(n),
        data[at + 1] == high_byte(n),
    ensures
        crate::utils::little_endian(data.subrange(at, at + 2)) == n,
{
    let s = data.subrange(at, at + 2);
    reveal_with_fuel(crate::utils::little_endian, 3);
    assert(s.skip(1).skip(1) == Seq::<u8>::empty());
}

/// A device that answers a settings command with the same bytes reports the switch that was
/// set.
pub proof fn law_switch_echo(before: DeviceState, on: bool)
    ensures
        known_settings(
            state_after(before, setting_command(switched(!on, 0x01), 0x01)),
        ).is_celsius == on,
        known_settings(
            state_after(before, setting_command(switched(on, 0x08), 0x08)),
        ).charge_current_optimization == on,
        known_settings(
            state_after(before, setting_command(switched(on, 0x20), 0x20)),
        ).charge_voltage_limit == on,
        known_settings(
            state_after(before, setting_command(switched(on, 0x40), 0x40)),
        ).boost_visualization == on,
        known_settings(
            state_after(before, setting2_command(switched(on, 0x01), 0x01)),
        ).permanent_bluetooth == on,
{
    lemma_two_pairs((14usize, switched(!on, 0x01)), (15usize, 0x01u8));
    lemma_two_pairs((14usize, switched(on, 0x08)), (15usize, 0x08u8));
    lemma_two_pairs((14usize, switched(on, 0x20)), (15usize, 0x20u8));
    lemma_two_pairs((14usize, switched(on, 0x40)), (15usize, 0x40u8));
    lemma_two_pairs((16usize, switched(on, 0x01)), (17usize, 0x01u8));
    assert(0u8 & 0x01 == 0 && 0x01u8 & 0x01 != 0 && 0u8 & 0x08 == 0 && 0x08u8 & 0x08 != 0 && 0u8
        & 0x20 == 0 && 0x20u8 & 0x20 != 0 && 0u8 & 0x40 == 0 && 0x40u8 & 0x40 != 0) by (bit_vector);
}

/// What the parts of a state say of each other: there is no pump, and heater and setpoint are
/// told twice in the same way.
pub open spec fn coherent(state: DeviceState) -> bool {
    &&& !state.pump_on
    &&& state.heater_mode matches Some(mode) ==> state.heater_on == (mode != HeaterMode::Off)
    &&& state.settings matches Some(settings) ==> state.setpoint_reached
        == settings.setpoint_reached
}

/// A state is coherent from the start, and every notification keeps it so.
pub proof fn law_state_stays_coherent(before: DeviceState, data: Seq<u8>)
    ensures
        coherent(DeviceState::blank()),
        coherent(before) ==> coherent(state_after(before, data)),
{
}

/// A notification tells of the state or of the device, never of both, and one of any other
/// kind changes nothing.
pub proof fn law_notifications_are_apart(
    state: DeviceState,
    info: crate::device::InfoView,
    data: Seq<u8>,
)
    ensures
        is_status(data) ==> info_after(info, data) == info,
        !is_status(data) ==> state_after(state, data) == state,
        data.len() == 0 || !(data[0] == 0x01 || data[0] == 0x02 || data[0] == 0x04 || data[0]
            == 0x05) ==> state_after(state, data) == state && info_after(info, data) == info,
{
}

} // verus!
