//! Volcano Hybrid: one characteristic for each value and each switch.
use crate::device::volcano_flags::DISPLAY_ON_COOLING;
use crate::device::volcano_flags::FAHRENHEIT_ENA;
use crate::device::volcano_flags::FAN_ENABLED;
use crate::device::volcano_flags::HEATER_ENABLED;
use crate::device::volcano_flags::PUMP_ENABLED;
use crate::device::volcano_vibration_flags::VIBRATION;
use crate::device::DeviceInfo;
use crate::device::DeviceSettings;
use crate::device::DeviceState;
use crate::error::StorzError;
use crate::gatt::characteristic;
use crate::gatt::number_answer;
use crate::gatt::text_answer;
use crate::gatt::write_to;
use crate::gatt::CharacteristicWrite;
use crate::single::Single;
use crate::utils::celsius_to_raw_u32;
use crate::utils::le_bytes_u16;
use crate::utils::le_bytes_u32;
use crate::utils::raw_to_celsius_u16;
use crate::utils::raw_to_celsius_u32;
use crate::utils::u16_at;
use crate::uuids::VolcanoUuids;
use vstd::prelude::*;
use vstd::string::*;

verus! {

/// A Volcano Hybrid and what is known of it.
#[derive(Debug)]
pub struct VolcanoHybrid {
    pub uuids: VolcanoUuids,
    /// Identifiers of the characteristics that the device offers.
    pub characteristics: Vec<u128>,
    pub state: DeviceState,
}

/// A characteristic to be subscribed to; a device without one that is not required is still
/// usable.
#[derive(Debug, Clone, Copy, PartialEq, Eq, Structural)]
pub struct Subscription {
    pub uuid: u128,
    pub required: bool,
}

/// The first two bytes as a number.
pub open spec fn word(data: Seq<u8>) -> u16 {
    crate::utils::little_endian(data.subrange(0, 2)) as u16
}

/// What was known of the settings.
pub open spec fn known_settings(state: DeviceState) -> DeviceSettings {
    match state.settings {
        Some(s) => s,
        None => DeviceSettings::blank(),
    }
}

/// State after a notification, or nothing where the notification says nothing.
pub open spec fn state_after(
    uuids: VolcanoUuids,
    before: DeviceState,
    uuid: u128,
    data: Seq<u8>,
) -> Option<DeviceState> {
    if uuid == uuids.activity && data.len() >= 2 {
        let flags = word(data);
        Some(
            DeviceState {
                raw_activity: Some(flags as u32),
                heater_on: flags & HEATER_ENABLED != 0,
                pump_on: flags & PUMP_ENABLED != 0,
                fan_on: flags & FAN_ENABLED != 0,
                ..before
            },
        )
    } else if uuid == uuids.current_temp {
        if data.len() >= 2 {
            let celsius = crate::utils::of_tenths(crate::utils::little_endian(data.take(2)));
            Some(DeviceState { current_temp: Some(celsius), ..before })
        } else {
            None
        }
    } else if uuid == uuids.target_temp {
        if data.len() >= 4 {
            let celsius = crate::utils::of_tenths(crate::utils::little_endian(data.take(4)));
            Some(DeviceState { target_temp: Some(celsius), ..before })
        } else {
            None
        }
    } else if uuid == uuids.display && data.len() >= 2 {
        let settings = DeviceSettings {
            is_celsius: word(data) & FAHRENHEIT_ENA == 0,
            ..known_settings(before)
        };
        Some(DeviceState { settings: Some(settings), ..before })
    } else if uuid == uuids.current_auto_off && data.len() >= 2 {
        let settings = DeviceSettings {
            auto_shutdown_seconds: Some(word(data)),
            ..known_settings(before)
        };
        Some(DeviceState { settings: Some(settings), ..before })
    } else {
        None
    }
}

/// A register write that sets a flag, or clears it where bit 16 is set too.
pub open spec fn flag_write(flag: u32, set: bool) -> Seq<u8> {
    crate::utils::le_seq(
        if set {
            flag as nat
        } else {
            0x1_0000 + flag as nat
        },
        4,
    )
}

impl VolcanoHybrid {
    /// A device of which nothing is known yet.
    pub fn new(uuids: VolcanoUuids, characteristics: Vec<u128>) -> (r: VolcanoHybrid)
        ensures
            r.uuids == uuids,
            r.characteristics@ == characteristics@,
            r.state == DeviceState::blank(),
    {
        VolcanoHybrid { uuids, characteristics, state: DeviceState::default() }
    }

    /// What to subscribe to, in this order: activity and the two temperatures, which every
    /// device must have, then the display and the auto-off countdown.
    pub fn subscriptions(&self) -> (r: Vec<Subscription>)
        ensures
            r@ == seq![
                (Subscription { uuid: self.uuids.activity, required: true }),
                (Subscription { uuid: self.uuids.current_temp, required: true }),
                (Subscription { uuid: self.uuids.target_temp, required: true }),
                (Subscription { uuid: self.uuids.display, required: false }),
                (Subscription { uuid: self.uuids.current_auto_off, required: false }),
            ],
    {
        let mut out: Vec<Subscription> = Vec::new();
        out.push(Subscription { uuid: self.uuids.activity, required: true });
        out.push(Subscription { uuid: self.uuids.current_temp, required: true });
        out.push(Subscription { uuid: self.uuids.target_temp, required: true });
        out.push(Subscription { uuid: self.uuids.display, required: false });
        out.push(Subscription { uuid: self.uuids.current_auto_off, required: false });
        out
    }

    /// Takes in a notification and says whether it brought a new state to tell of.
    pub fn handle_notification(&mut self, uuid: u128, data: &[u8]) -> (r: bool)
        ensures
            match state_after(old(self).uuids, old(self).state, uuid, data@) {
                Some(state) => r && final(self).state == state,
                None => !r && final(self).state == old(self).state,
            },
            final(self).uuids == old(self).uuids,
            final(self).characteristics == old(self).characteristics,
    {
        if uuid == self.uuids.activity && data.len() >= 2 {
            let flags = u16_at(data, 0);
            self.state.raw_activity = Some(flags as u32);
            self.state.heater_on = (flags & HEATER_ENABLED) != 0;
            self.state.pump_on = (flags & PUMP_ENABLED) != 0;
            self.state.fan_on = (flags & FAN_ENABLED) != 0;
            true
        } else if uuid == self.uuids.current_temp {
            match raw_to_celsius_u16(data) {
                Ok(temp) => {
                    self.state.current_temp = Some(temp);
                    true
                },
                Err(_) => false,
            }
        } else if uuid == self.uuids.target_temp {
            match raw_to_celsius_u32(data) {
                Ok(temp) => {
                    self.state.target_temp = Some(temp);
                    true
                },
                Err(_) => false,
            }
        } else if uuid == self.uuids.display && data.len() >= 2 {
            let flags = u16_at(data, 0);
            let mut settings = self.settings_so_far();
            settings.is_celsius = (flags & FAHRENHEIT_ENA) == 0;
            self.state.settings = Some(settings);
            true
        } else if uuid == self.uuids.current_auto_off && data.len() >= 2 {
            let mut settings = self.settings_so_far();
            settings.auto_shutdown_seconds = Some(u16_at(data, 0));
            self.state.settings = Some(settings);
            true
        } else {
            false
        }
    }

    fn settings_so_far(&self) -> (r: DeviceSettings)
        ensures
            r == known_settings(self.state),
    {
        match self.state.settings {
            Some(s) => s,
            None => DeviceSettings::default(),
        }
    }

    /// Device information from the bytes that were read from the serial number, the two
    /// firmware versions, the hours and the minutes; `None` where a read failed.
    pub fn device_info(
        serial: Option<Vec<u8>>,
        firmware: Option<Vec<u8>>,
        firmware_ble: Option<Vec<u8>>,
        hours: Option<Vec<u8>>,
        minutes: Option<Vec<u8>>,
    ) -> (r: DeviceInfo)
        ensures
            r@ == (crate::device::InfoView {
                serial_number: crate::gatt::text_read(crate::gatt::bytes_of(serial)),
                firmware_version: crate::gatt::text_read(crate::gatt::bytes_of(firmware)),
                firmware_ble_version: crate::gatt::text_read(crate::gatt::bytes_of(firmware_ble)),
                hours_of_heating: crate::gatt::number_read(crate::gatt::bytes_of(hours)),
                minutes_of_heating: crate::gatt::number_read(crate::gatt::bytes_of(minutes)),
                ..crate::device::InfoView::blank()
            }),
    {
        let mut info = DeviceInfo::default();
        info.serial_number = text_answer(serial);
        info.firmware_version = text_answer(firmware);
        info.firmware_ble_version = text_answer(firmware_ble);
        info.hours_of_heating = number_answer(&hours);
        info.minutes_of_heating = number_answer(&minutes);
        info
    }

    /// The outcome is a write to a characteristic where the device has it.
    pub open spec fn sends(
        &self,
        r: Result<CharacteristicWrite, StorzError>,
        uuid: u128,
        bytes: Seq<u8>,
    ) -> bool {
        crate::gatt::writes(r, self.characteristics@, uuid, bytes, crate::gatt::missing(uuid))
    }

    fn write(&self, uuid: u128, bytes: &[u8]) -> (r: Result<CharacteristicWrite, StorzError>)
        ensures
            self.sends(r, uuid, bytes@),
    {
        write_to(self.characteristics.as_slice(), uuid, bytes)
    }

    fn write_u8(&self, uuid: u128) -> (r: Result<CharacteristicWrite, StorzError>)
        ensures
            self.sends(r, uuid, seq![0u8]),
    {
        let zero: [u8; 1] = [0];
        assert(zero@ == seq![0u8]);
        self.write(uuid, &zero)
    }

    fn write_flag(&self, uuid: u128, flag: u32, set: bool) -> (r: Result<
        CharacteristicWrite,
        StorzError,
    >)
        requires
            flag < 0x1_0000,
        ensures
            self.sends(r, uuid, flag_write(flag, set)),
    {
        let raw: u32 = if set {
            flag
        } else {
            0x1_0000 + flag
        };
        let bytes = le_bytes_u32(raw);
        self.write(uuid, &bytes)
    }

    /// Sets the target temperature. A missing characteristic is reported before a temperature
    /// out of range.
    pub fn set_target_temperature(&self, celsius: Single) -> (r: Result<
        CharacteristicWrite,
        StorzError,
    >)
        ensures
            !self.characteristics@.contains(self.uuids.target_temp) ==> (r matches Err(e) && e@
                == crate::gatt::missing(self.uuids.target_temp)),
            self.characteristics@.contains(self.uuids.target_temp) && !crate::utils::in_range(
                celsius,
            ) ==> (r matches Err(e) && e@ == crate::error::out_of_range(celsius)),
            self.characteristics@.contains(self.uuids.target_temp) && crate::utils::in_range(
                celsius,
            ) ==> (r matches Ok(w) && w.uuid == self.uuids.target_temp && w.bytes@
                == crate::utils::le_seq(crate::utils::tenths(celsius, u32::MAX as nat), 4)),
    {
        let uuid = match characteristic(self.characteristics.as_slice(), self.uuids.target_temp) {
            Ok(uuid) => uuid,
            Err(e) => return Err(e),
        };
        match celsius_to_raw_u32(celsius) {
            Ok(raw) => self.write(uuid, &raw),
            Err(e) => Err(e),
        }
    }

    /// Switches the heater on.
    pub fn heater_on(&self) -> (r: Result<CharacteristicWrite, StorzError>)
        ensures
            self.sends(r, self.uuids.heater_on, seq![0u8]),
    {
        self.write_u8(self.uuids.heater_on)
    }

    /// Switches the heater off.
    pub fn heater_off(&self) -> (r: Result<CharacteristicWrite, StorzError>)
        ensures
            self.sends(r, self.uuids.heater_off, seq![0u8]),
    {
        self.write_u8(self.uuids.heater_off)
    }

    /// Switches the pump on.
    pub fn pump_on(&self) -> (r: Result<CharacteristicWrite, StorzError>)
        ensures
            self.sends(r, self.uuids.pump_on, seq![0u8]),
    {
        self.write_u8(self.uuids.pump_on)
    }

    /// Switches the pump off.
    pub fn pump_off(&self) -> (r: Result<CharacteristicWrite, StorzError>)
        ensures
            self.sends(r, self.uuids.pump_off, seq![0u8]),
    {
        self.write_u8(self.uuids.pump_off)
    }

    /// Sets the brightness of the display.
    pub fn set_brightness(&self, value: u16) -> (r: Result<CharacteristicWrite, StorzError>)
        ensures
            self.sends(r, self.uuids.brightness, crate::utils::le_seq(value as nat, 2)),
    {
        let raw = le_bytes_u16(value);
        self.write(self.uuids.brightness, &raw)
    }

    /// Switches vibration.
    pub fn set_vibration(&self, on: bool) -> (r: Result<CharacteristicWrite, StorzError>)
        ensures
            self.sends(r, self.uuids.vibration, flag_write(VIBRATION, on)),
    {
        self.write_flag(self.uuids.vibration, VIBRATION, on)
    }

    /// Sets the time after which the device switches itself off.
    pub fn set_shutoff_time(&self, seconds: u16) -> (r: Result<CharacteristicWrite, StorzError>)
        ensures
            self.sends(r, self.uuids.shutoff_time, crate::utils::le_seq(seconds as nat, 2)),
    {
        let raw = le_bytes_u16(seconds);
        self.write(self.uuids.shutoff_time, &raw)
    }

    /// Sets the auto shutdown timer, which on this device is the shutoff time.
    pub fn set_auto_shutdown_timer(&self, seconds: u16) -> (r: Result<
        CharacteristicWrite,
        StorzError,
    >)
        ensures
            self.sends(r, self.uuids.shutoff_time, crate::utils::le_seq(seconds as nat, 2)),
    {
        self.set_shutoff_time(seconds)
    }

    /// Shows temperatures in Celsius, which clears the Fahrenheit flag, or in Fahrenheit.
    pub fn set_temperature_unit(&self, celsius: bool) -> (r: Result<
        CharacteristicWrite,
        StorzError,
    >)
        ensures
            self.sends(r, self.uuids.display, flag_write(FAHRENHEIT_ENA as u32, !celsius)),
    {
        self.write_flag(self.uuids.display, FAHRENHEIT_ENA as u32, !celsius)
    }

    /// Keeps the display on while the device cools.
    pub fn set_display_on_cooling(&self, on: bool) -> (r: Result<CharacteristicWrite, StorzError>)
        ensures
            self.sends(r, self.uuids.display, flag_write(DISPLAY_ON_COOLING as u32, on)),
    {
        self.write_flag(self.uuids.display, DISPLAY_ON_COOLING as u32, on)
    }

    /// The characteristic that holds the measured temperature.
    pub fn current_temperature_source(&self) -> (r: Result<u128, StorzError>)
        ensures
            r is Ok <==> self.characteristics@.contains(self.uuids.current_temp),
            r matches Ok(uuid) ==> uuid == self.uuids.current_temp,
            r matches Err(e) ==> e@ == crate::gatt::missing(self.uuids.current_temp),
    {
        characteristic(self.characteristics.as_slice(), self.uuids.current_temp)
    }

    /// The characteristic that holds the target temperature.
    pub fn target_temperature_source(&self) -> (r: Result<u128, StorzError>)
        ensures
            r is Ok <==> self.characteristics@.contains(self.uuids.target_temp),
            r matches Ok(uuid) ==> uuid == self.uuids.target_temp,
            r matches Err(e) ==> e@ == crate::gatt::missing(self.uuids.target_temp),
    {
        characteristic(self.characteristics.as_slice(), self.uuids.target_temp)
    }
}

/// What a register holds after a write: the low 16 bits select flags, which are set, or
/// cleared where bit 16 is set.
pub open spec fn register_after(flags: u16, raw: u32) -> u16 {
    let selected = (raw % 0x1_0000) as u16;
    if raw >= 0x1_0000 {
        flags & !selected
    } else {
        flags | selected
    }
}

/// After the unit is set, the display flags that the device notifies of say that unit, and
/// the other flags are as they were.
pub proof fn law_unit_register(flags: u16, celsius: bool)
    ensures
        ({
            let raw = crate::utils::little_endian(flag_write(FAHRENHEIT_ENA as u32, !celsius));
            let after = register_after(flags, raw as u32);
            &&& raw <= u32::MAX
            &&& (after & FAHRENHEIT_ENA == 0) == celsius
            &&& after & !FAHRENHEIT_ENA == flags & !FAHRENHEIT_ENA
        }),
{
    lemma_flag_write(FAHRENHEIT_ENA as u32, !celsius);
    assert((flags & !0x0200u16) & 0x0200u16 == 0) by (bit_vector);
    assert((flags | 0x0200u16) & 0x0200u16 != 0) by (bit_vector);
    assert((flags & !0x0200u16) & !0x0200u16 == flags & !0x0200u16) by (bit_vector);
    assert((flags | 0x0200u16) & !0x0200u16 == flags & !0x0200u16) by (bit_vector);
}

proof fn lemma_flag_write(flag: u32, set: bool)
    requires
        flag < 0x1_0000,
    ensures
        crate::utils::little_endian(flag_write(flag, set)) == if set {
            flag as int
        } else {
            0x1_0000 + flag
        },
{
    reveal_with_fuel(crate::utils::byte_bound, 5);
    crate::utils::law_little_endian_round_trip(flag as nat, 4);
    crate::utils::law_little_endian_round_trip((0x1_0000 + flag) as nat, 4);
}

/// A notification of a temperature leaves heater, pump, fan and settings alone, one of the
/// activity leaves temperatures and settings alone, and one of display or countdown changes
/// nothing but the settings.
pub proof fn law_notifications_keep_the_rest(
    uuids: VolcanoUuids,
    before: DeviceState,
    uuid: u128,
    data: Seq<u8>,
)
    ensures
        state_after(uuids, before, uuid, data) matches Some(after) ==> {
            &&& after.current_temp != before.current_temp || after.target_temp
                != before.target_temp ==> after == (DeviceState {
                current_temp: after.current_temp,
                target_temp: after.target_temp,
                ..before
            })
            &&& after.settings != before.settings ==> after == (DeviceState {
                settings: after.settings,
                ..before
            })
            &&& after.heater_on != before.heater_on || after.pump_on != before.pump_on
                || after.fan_on != before.fan_on ==> after.current_temp == before.current_temp
                && after.target_temp == before.target_temp && after.settings == before.settings
        },
{
}

} // verus!
