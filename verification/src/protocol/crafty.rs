//! Crafty: one characteristic for each value and each switch.
use crate::device::DeviceInfo;
use crate::device::DeviceState;
use crate::error::StorzError;
use crate::gatt::characteristic;
use crate::gatt::number_answer;
use crate::gatt::text_answer;
use crate::gatt::write_to;
use crate::gatt::CharacteristicWrite;
use crate::single::Single;
use crate::utils::celsius_to_raw_u16;
use crate::utils::le_bytes_u16;
use crate::utils::raw_to_celsius_u16;
use crate::utils::tenths_u16;
use crate::uuids::CraftyUuids;
use vstd::prelude::*;
use vstd::string::*;

verus! {

/// Largest boost offset in Celsius: 30, as the bits of a single.
pub const BOOST_MAX: u32 = 0x41f0_0000;

/// A Crafty and what is known of it.
#[derive(Debug)]
pub struct Crafty {
    pub uuids: CraftyUuids,
    /// Identifiers of the characteristics that the device offers.
    pub characteristics: Vec<u128>,
    pub state: DeviceState,
}

/// State after a notification, or nothing where the notification says nothing.
pub open spec fn state_after(
    uuids: CraftyUuids,
    before: DeviceState,
    uuid: u128,
    data: Seq<u8>,
) -> Option<DeviceState> {
    if uuid == uuids.current_temp_changed && data.len() >= 2 {
        let celsius = crate::utils::of_tenths(crate::utils::little_endian(data.take(2)));
        Some(DeviceState { current_temp: Some(celsius), ..before })
    } else {
        None
    }
}

/// A boost offset kept between 0 and 30 degrees.
pub open spec fn boost_offset(celsius: Single) -> Single {
    celsius.clamped(Single { bits: 0 }, Single { bits: BOOST_MAX })
}

impl Crafty {
    /// A device of which nothing is known yet.
    pub fn new(uuids: CraftyUuids, characteristics: Vec<u128>) -> (r: Crafty)
        ensures
            r.uuids == uuids,
            r.characteristics@ == characteristics@,
            r.state == DeviceState::blank(),
    {
        Crafty { uuids, characteristics, state: DeviceState::default() }
    }

    /// The outcome is a characteristic where the device has it.
    pub open spec fn finds(&self, r: Result<u128, StorzError>, uuid: u128) -> bool {
        &&& r is Ok <==> self.characteristics@.contains(uuid)
        &&& r matches Ok(found) ==> found == uuid
        &&& r matches Err(e) ==> e@ == crate::gatt::missing(uuid)
    }

    /// The outcome is a write to a characteristic where the device has it.
    pub open spec fn sends(
        &self,
        r: Result<CharacteristicWrite, StorzError>,
        uuid: u128,
        bytes: Seq<u8>,
    ) -> bool {
        crate::gatt::writes(r, self.characteristics@, uuid, bytes, crate::gatt::missing(uuid))
    }

    /// What to subscribe to: the measured temperature.
    pub fn subscription(&self) -> (r: Result<u128, StorzError>)
        ensures
            self.finds(r, self.uuids.current_temp_changed),
    {
        characteristic(self.characteristics.as_slice(), self.uuids.current_temp_changed)
    }

    /// The characteristic that holds the measured temperature.
    pub fn current_temperature_source(&self) -> (r: Result<u128, StorzError>)
        ensures
            self.finds(r, self.uuids.current_temp_changed),
    {
        characteristic(self.characteristics.as_slice(), self.uuids.current_temp_changed)
    }

    /// The characteristic that holds the target temperature.
    pub fn target_temperature_source(&self) -> (r: Result<u128, StorzError>)
        ensures
            self.finds(r, self.uuids.write_temp),
    {
        characteristic(self.characteristics.as_slice(), self.uuids.write_temp)
    }

    /// The characteristic that holds the project register.
    pub fn project_register_source(&self) -> (r: Result<u128, StorzError>)
        ensures
            self.finds(r, self.uuids.project_register),
    {
        characteristic(self.characteristics.as_slice(), self.uuids.project_register)
    }

    /// Takes in a notification and says whether it brought a new state to tell of.
    pub fn handle_notification(&mut self, uuid: u128, data: &[u8]) -> (r: bool)
        ensures
            match state_after(old(self).uuids, old(self).state, uuid, data@) {
                Some(state) => r && final(self).state == state,
                None => !r && final(self).state == old(self).state,
            },
            final(self).uuids == old(self).uuids,
            final(self).characteristics == old(self).characteristics,
    {
        if uuid == self.uuids.current_temp_changed {
            match raw_to_celsius_u16(data) {
                Ok(temp) => {
                    self.state.current_temp = Some(temp);
                    true
                },
                Err(_) => false,
            }
        } else {
            false
        }
    }

    fn write(&self, uuid: u128, bytes: &[u8]) -> (r: Result<CharacteristicWrite, StorzError>)
        ensures
            self.sends(r, uuid, bytes@),
    {
        write_to(self.characteristics.as_slice(), uuid, bytes)
    }

    fn write_zero(&self, uuid: u128) -> (r: Result<CharacteristicWrite, StorzError>)
        ensures
            self.sends(r, uuid, seq![0u8]),
    {
        let zero: [u8; 1] = [0];
        assert(zero@ == seq![0u8]);
        self.write(uuid, &zero)
    }

    fn write_u16(&self, uuid: u128, value: u16) -> (r: Result<CharacteristicWrite, StorzError>)
        ensures
            self.sends(r, uuid, crate::utils::le_seq(value as nat, 2)),
    {
        let raw = le_bytes_u16(value);
        self.write(uuid, &raw)
    }

    /// Sets the target temperature. A missing characteristic is reported before a temperature
    /// out of range.
    pub fn set_target_temperature(&self, celsius: Single) -> (r: Result<
        CharacteristicWrite,
        StorzError,
    >)
        ensures
            !self.characteristics@.contains(self.uuids.write_temp) ==> (r matches Err(e) && e@
                == crate::gatt::missing(self.uuids.write_temp)),
            self.characteristics@.contains(self.uuids.write_temp) && !crate::utils::in_range(
                celsius,
            ) ==> (r matches Err(e) && e@ == crate::error::out_of_range(celsius)),
            self.characteristics@.contains(self.uuids.write_temp) && crate::utils::in_range(
                celsius,
            ) ==> (r matches Ok(w) && w.uuid == self.uuids.write_temp && w.bytes@
                == crate::utils::le_seq(crate::utils::tenths(celsius, u16::MAX as nat), 2)),
    {
        let uuid = match characteristic(self.characteristics.as_slice(), self.uuids.write_temp) {
            Ok(uuid) => uuid,
            Err(e) => return Err(e),
        };
        match celsius_to_raw_u16(celsius) {
            Ok(raw) => self.write(uuid, &raw),
            Err(e) => Err(e),
        }
    }

    /// Switches the heater on.
    pub fn heater_on(&self) -> (r: Result<CharacteristicWrite, StorzError>)
        ensures
            self.sends(r, self.uuids.heater_on, seq![0u8]),
    {
        self.write_zero(self.uuids.heater_on)
    }

    /// Switches the heater off.
    pub fn heater_off(&self) -> (r: Result<CharacteristicWrite, StorzError>)
        ensures
            self.sends(r, self.uuids.heater_off, seq![0u8]),
    {
        self.write_zero(self.uuids.heater_off)
    }

    /// There is no pump.
    pub fn pump_on(&self) -> (r: Result<CharacteristicWrite, StorzError>)
        ensures
            r matches Err(e) && e@ == crate::error::unsupported("Crafty"@, "pump_on"@),
    {
        Err(StorzError::UnsupportedOperation { device: "Crafty".to_owned(), operation: "pump_on".to_owned() })
    }

    /// There is no pump.
    pub fn pump_off(&self) -> (r: Result<CharacteristicWrite, StorzError>)
        ensures
            r matches Err(e) && e@ == crate::error::unsupported("Crafty"@, "pump_off"@),
    {
        Err(StorzError::UnsupportedOperation { device: "Crafty".to_owned(), operation: "pump_off".to_owned() })
    }

    /// Sets the boost offset, kept between 0 and 30 degrees, in tenths of a degree.
    pub fn set_boost_temperature(&self, celsius: Single) -> (r: Result<
        CharacteristicWrite,
        StorzError,
    >)
        ensures
            self.sends(
                r,
                self.uuids.write_boost_temp,
                crate::utils::le_seq(
                    crate::utils::tenths(boost_offset(celsius), u16::MAX as nat),
                    2,
                ),
            ),
    {
        let clamped = celsius.clamp(Single::from_bits(0), Single::from_bits(BOOST_MAX));
        self.write_u16(self.uuids.write_boost_temp, tenths_u16(clamped))
    }

    /// Sets the brightness of the LED.
    pub fn set_brightness(&self, value: u16) -> (r: Result<CharacteristicWrite, StorzError>)
        ensures
            self.sends(r, self.uuids.led_brightness, crate::utils::le_seq(value as nat, 2)),
    {
        self.write_u16(self.uuids.led_brightness, value)
    }

    /// Device information from the bytes that were read from the serial number, the two firmware
    /// versions, the hours and the minutes; `None` where a read failed.
    pub fn device_info(
        serial: Option<Vec<u8>>,
        firmware: Option<Vec<u8>>,
        firmware_ble: Option<Vec<u8>>,
        hours: Option<Vec<u8>>,
        minutes: Option<Vec<u8>>,
    ) -> (r: DeviceInfo)
        ensures
            r@ == (crate::device::InfoView {
                serial_number: crate::gatt::text_read(
                    crate::gatt::bytes_of(serial),
                ),
                firmware_version: crate::gatt::text_read(
                    crate::gatt::bytes_of(firmware),
                ),
                firmware_ble_version: crate::gatt::text_read(
                    crate::gatt::bytes_of(firmware_ble),
                ),
                hours_of_heating: crate::gatt::number_read(
                    crate::gatt::bytes_of(hours),
                ),
                minutes_of_heating: crate::gatt::number_read(
                    crate::gatt::bytes_of(minutes),
                ),
                ..crate::device::InfoView::blank()
            }),
    {
        let mut info = DeviceInfo::default();
        info.serial_number = text_answer(serial);
        info.firmware_version = text_answer(firmware);
        info.firmware_ble_version = text_answer(firmware_ble);
        info.hours_of_heating = number_answer(&hours);
        info.minutes_of_heating = number_answer(&minutes);
        info
    }

    /// Resets the device to its factory settings.
    pub fn factory_reset(&self) -> (r: Result<CharacteristicWrite, StorzError>)
        ensures
            self.sends(r, self.uuids.factory_reset, seq![0u8]),
    {
        self.write_zero(self.uuids.factory_reset)
    }

    /// Sets the auto-off countdown.
    pub fn set_auto_off_countdown(&self, seconds: u16) -> (r: Result<
        CharacteristicWrite,
        StorzError,
    >)
        ensures
            self.sends(r, self.uuids.auto_off_countdown, crate::utils::le_seq(seconds as nat, 2)),
    {
        self.write_u16(self.uuids.auto_off_countdown, seconds)
    }

    /// Sets the security code.
    pub fn set_security_code(&self, code: u16) -> (r: Result<CharacteristicWrite, StorzError>)
        ensures
            self.sends(r, self.uuids.sicherheitscode, crate::utils::le_seq(code as nat, 2)),
    {
        self.write_u16(self.uuids.sicherheitscode, code)
    }
}

} // verus!
