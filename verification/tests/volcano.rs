use storz_rs::device::volcano_flags::{FAHRENHEIT_ENA, FAN_ENABLED, HEATER_ENABLED, PUMP_ENABLED};
use storz_rs::device::DeviceModel;
use storz_rs::gatt::{characteristic, read_string};
use storz_rs::protocol::crafty::Crafty;
use storz_rs::protocol::support::{check_support, Operation};
use storz_rs::protocol::volcano::{Subscription, VolcanoHybrid};
use storz_rs::single::Single;
use storz_rs::uuids::{CraftyUuids, VolcanoUuids};

fn s(x: f32) -> Single {
    Single::from_bits(x.to_bits())
}

fn volcano_uuids() -> VolcanoUuids {
    VolcanoUuids {
        activity: 1,
        current_temp: 2,
        target_temp: 3,
        display: 4,
        current_auto_off: 5,
        heater_on: 6,
        heater_off: 7,
        pump_on: 8,
        pump_off: 9,
        brightness: 10,
        vibration: 11,
        shutoff_time: 12,
        serial_number: 13,
        firmware_version: 14,
        firmware_ble_version: 15,
        hours_of_heating: 16,
        minutes_of_heating: 17,
    }
}

fn crafty_uuids() -> CraftyUuids {
    CraftyUuids {
        current_temp_changed: 1,
        write_temp: 2,
        write_boost_temp: 3,
        heater_on: 4,
        heater_off: 5,
        led_brightness: 6,
        firmware_version: 7,
        firmware_ble_version: 8,
        use_hours: 9,
        use_minutes: 10,
        system_status: 11,
        akku_status: 12,
        factory_reset: 13,
        auto_off_countdown: 14,
        project_register: 15,
        sicherheitscode: 16,
        serial_number: 17,
    }
}

fn volcano() -> VolcanoHybrid {
    VolcanoHybrid::new(volcano_uuids(), (1..=17).collect())
}

fn crafty() -> Crafty {
    Crafty::new(crafty_uuids(), (1..=17).collect())
}

#[test]
fn activity_flags() {
    let mut device = volcano();
    for (flags, heater, pump, fan) in [
        (0u16, false, false, false),
        (HEATER_ENABLED, true, false, false),
        (PUMP_ENABLED, false, true, false),
        (FAN_ENABLED, false, false, true),
        (HEATER_ENABLED | PUMP_ENABLED | FAN_ENABLED, true, true, true),
        (!(HEATER_ENABLED | PUMP_ENABLED), false, false, true),
    ] {
        assert!(device.handle_notification(1, &flags.to_le_bytes()));
        assert_eq!(device.state.heater_on, heater);
        assert_eq!(device.state.pump_on, pump);
        assert_eq!(device.state.fan_on, fan);
        assert_eq!(device.state.raw_activity, Some(u32::from(flags)));
    }
    assert!(!device.handle_notification(1, &[1]));
}

#[test]
fn volcano_temperatures() {
    let mut device = volcano();
    assert!(device.handle_notification(2, &1853u16.to_le_bytes()));
    assert_eq!(device.state.current_temp, Some(s(185.3)));
    assert!(device.handle_notification(3, &1900u32.to_le_bytes()));
    assert_eq!(device.state.target_temp, Some(s(190.0)));
    let before = device.state;
    assert!(!device.handle_notification(2, &[1]));
    assert!(!device.handle_notification(3, &[1, 2, 3]));
    assert!(!device.handle_notification(99, &[1, 2, 3, 4]));
    assert_eq!(device.state, before);
}

#[test]
fn display_and_countdown() {
    let mut device = volcano();
    assert!(device.handle_notification(4, &0u16.to_le_bytes()));
    assert!(device.state.settings.unwrap().is_celsius);
    assert!(device.handle_notification(5, &300u16.to_le_bytes()));
    assert_eq!(device.state.settings.unwrap().auto_shutdown_seconds, Some(300));
    assert!(device.handle_notification(4, &FAHRENHEIT_ENA.to_le_bytes()));
    let settings = device.state.settings.unwrap();
    assert!(!settings.is_celsius);
    assert_eq!(settings.auto_shutdown_seconds, Some(300));
    assert!(!device.handle_notification(4, &[0]));
    assert!(!device.handle_notification(5, &[0]));
}

#[test]
fn volcano_writes() {
    let device = volcano();
    let target = device.set_target_temperature(s(185.0)).unwrap();
    assert_eq!((target.uuid, target.bytes), (3, 1850u32.to_le_bytes().to_vec()));
    for (write, uuid) in [
        (device.heater_on(), 6),
        (device.heater_off(), 7),
        (device.pump_on(), 8),
        (device.pump_off(), 9),
    ] {
        let write = write.unwrap();
        assert_eq!((write.uuid, write.bytes), (uuid, vec![0]));
    }
    assert_eq!(device.set_brightness(70).unwrap().bytes, 70u16.to_le_bytes());
    assert_eq!(device.set_vibration(true).unwrap().bytes, 0x0400u32.to_le_bytes());
    assert_eq!(device.set_vibration(false).unwrap().bytes, 0x1_0400u32.to_le_bytes());
    let shutoff = device.set_shutoff_time(1800).unwrap();
    assert_eq!((shutoff.uuid, shutoff.bytes), (12, 1800u16.to_le_bytes().to_vec()));
    assert_eq!(device.set_auto_shutdown_timer(1800).unwrap().uuid, 12);
    assert_eq!(device.set_temperature_unit(true).unwrap().bytes, 0x1_0200u32.to_le_bytes());
    assert_eq!(device.set_temperature_unit(false).unwrap().bytes, 0x0200u32.to_le_bytes());
    assert_eq!(device.set_display_on_cooling(true).unwrap().bytes, 0x1000u32.to_le_bytes());
    assert_eq!(device.set_display_on_cooling(false).unwrap().bytes, 0x1_1000u32.to_le_bytes());
    assert_eq!(device.current_temperature_source().unwrap(), 2);
    assert_eq!(device.target_temperature_source().unwrap(), 3);
}

#[test]
fn unit_register_says_the_unit_that_was_set() {
    // A write sets the selected flags, or clears them where bit 16 is set.
    let apply = |flags: u16, bytes: &[u8]| {
        let raw = u32::from_le_bytes([bytes[0], bytes[1], bytes[2], bytes[3]]);
        if raw >= 0x1_0000 { flags & !(raw as u16) } else { flags | raw as u16 }
    };
    for flags in [0u16, 0xffff, 0x1234] {
        for celsius in [true, false] {
            let mut device = volcano();
            let after = apply(flags, &device.set_temperature_unit(celsius).unwrap().bytes);
            device.handle_notification(4, &after.to_le_bytes());
            assert_eq!(device.state.settings.unwrap().is_celsius, celsius);
            assert_eq!(after & !FAHRENHEIT_ENA, flags & !FAHRENHEIT_ENA);
        }
    }
}

#[test]
fn missing_characteristic_comes_before_a_bad_temperature() {
    let device = VolcanoHybrid::new(volcano_uuids(), vec![1, 2]);
    assert_eq!(
        device.set_target_temperature(s(500.0)).unwrap_err().message(""),
        "Parse error: Characteristic 00000000-0000-0000-0000-000000000003 not found"
    );
    assert_eq!(
        volcano().set_target_temperature(s(500.0)).unwrap_err().message("500"),
        "Parse error: Temperature 500°C out of range (40–230°C)"
    );
    assert!(device.heater_on().is_err());
}

#[test]
fn identifiers_are_written_in_groups() {
    let e = characteristic(&[], 0xa1a2a3a4_b1b2_c1c2_d1d2_d3d4d5d6d7d8).unwrap_err();
    assert_eq!(
        e.message(""),
        "Parse error: Characteristic a1a2a3a4-b1b2-c1c2-d1d2-d3d4d5d6d7d8 not found"
    );
    assert_eq!(characteristic(&[7, 8], 8).unwrap(), 8);
}

#[test]
fn subscriptions_in_their_order() {
    let want = |uuid: u128, required: bool| Subscription { uuid, required };
    assert_eq!(
        volcano().subscriptions(),
        [want(1, true), want(2, true), want(3, true), want(4, false), want(5, false)]
    );
    assert_eq!(crafty().subscription().unwrap(), 1);
}

#[test]
fn volcano_information() {
    let info = VolcanoHybrid::device_info(
        Some(b"VH123".to_vec()),
        Some(b"V01.02".to_vec()),
        Some(vec![0xff]),
        Some(vec![10, 1]),
        Some(vec![5]),
    );
    assert_eq!(info.serial_number.as_deref(), Some("VH123"));
    assert_eq!(info.firmware_version.as_deref(), Some("V01.02"));
    assert_eq!(info.firmware_ble_version, None);
    assert_eq!(info.hours_of_heating, Some(266));
    assert_eq!(info.minutes_of_heating, None);
    assert_eq!(info.color_index, None);
    let none = VolcanoHybrid::device_info(None, None, None, None, None);
    assert_eq!(none, storz_rs::device::DeviceInfo::default());
}

#[test]
fn texts_must_be_utf8() {
    assert_eq!(read_string("°C".as_bytes().to_vec()).unwrap(), "°C");
    assert_eq!(
        read_string(vec![b'a', 0xff]).unwrap_err().message(""),
        "Parse error: Invalid UTF-8: invalid utf-8 sequence of 1 bytes from index 1"
    );
}

#[test]
fn crafty_notifications_and_writes() {
    let mut device = crafty();
    assert!(device.handle_notification(1, &2005u16.to_le_bytes()));
    assert_eq!(device.state.current_temp, Some(s(200.5)));
    assert!(!device.handle_notification(2, &2005u16.to_le_bytes()));
    assert!(!device.handle_notification(1, &[3]));
    let target = device.set_target_temperature(s(180.0)).unwrap();
    assert_eq!((target.uuid, target.bytes), (2, 1800u16.to_le_bytes().to_vec()));
    assert!(device.set_target_temperature(s(39.9)).is_err());
    assert_eq!(device.heater_on().unwrap().uuid, 4);
    assert_eq!(device.heater_off().unwrap().uuid, 5);
    assert_eq!(
        device.pump_on().unwrap_err().message(""),
        "Unsupported operation 'pump_on' for device 'Crafty'"
    );
    assert!(device.pump_off().is_err());
    assert_eq!(device.set_brightness(33).unwrap().bytes, [33, 0]);
    assert_eq!(device.factory_reset().unwrap().uuid, 13);
    assert_eq!(device.set_auto_off_countdown(300).unwrap().bytes, 300u16.to_le_bytes());
    assert_eq!(device.set_security_code(4711).unwrap().bytes, 4711u16.to_le_bytes());
    assert_eq!(device.project_register_source().unwrap(), 15);
    assert_eq!(device.current_temperature_source().unwrap(), 1);
    assert_eq!(device.target_temperature_source().unwrap(), 2);
}

#[test]
fn crafty_boost_is_kept_between_0_and_30() {
    let device = crafty();
    for (asked, sent) in [(15.0f32, 150u16), (-3.0, 0), (31.0, 300), (f32::NAN, 0), (12.34, 123)] {
        assert_eq!(device.set_boost_temperature(s(asked)).unwrap().bytes, sent.to_le_bytes());
    }
}

#[test]
fn crafty_information() {
    let info = Crafty::device_info(
        Some(b"CY0123".to_vec()),
        Some(b"1.0".to_vec()),
        None,
        Some(vec![1, 0]),
        Some(vec![59, 0]),
    );
    assert_eq!(info.serial_number.as_deref(), Some("CY0123"));
    assert_eq!(info.firmware_version.as_deref(), Some("1.0"));
    assert_eq!(info.hours_of_heating, Some(1));
    assert_eq!(info.minutes_of_heating, Some(59));
    assert_eq!(info.firmware_ble_version, None);
    // A read that fails leaves its own field out and nothing else.
    let info = Crafty::device_info(None, Some(b"1.0".to_vec()), None, None, None);
    assert_eq!(info.serial_number, None);
    assert_eq!(info.firmware_version.as_deref(), Some("1.0"));
    assert!(Crafty::new(crafty_uuids(), vec![]).subscription().is_err());
}

#[test]
fn operations_of_each_model() {
    let volcano = DeviceModel::VolcanoHybrid;
    let has = |model: DeviceModel, op: Operation| check_support(model, op).is_ok();
    for model in [DeviceModel::Venty, DeviceModel::Veazy, DeviceModel::Crafty] {
        let e = check_support(model, Operation::PumpOn).unwrap_err();
        assert_eq!(
            e.message(""),
            format!("Unsupported operation 'pump_on' for device '{}'", model.name())
        );
        assert!(!has(model, Operation::PumpOff));
        assert!(has(model, Operation::SetBoostTemperature));
        assert!(has(model, Operation::FactoryReset));
    }
    assert!(has(volcano, Operation::PumpOn));
    assert!(has(volcano, Operation::SetVibration));
    assert!(has(volcano, Operation::SetAutoShutdownTimer));
    assert!(!has(volcano, Operation::SetBoostTemperature));
    assert!(!has(volcano, Operation::FactoryReset));
    assert!(!has(volcano, Operation::FindMyDevice));
    assert!(has(DeviceModel::Venty, Operation::FindMyDevice));
    assert!(!has(DeviceModel::Crafty, Operation::FindMyDevice));
    assert!(!has(DeviceModel::Crafty, Operation::SetVibration));
    assert!(!has(DeviceModel::Crafty, Operation::SetAutoShutdownTimer));
    assert!(has(DeviceModel::Crafty, Operation::SetAutoOffCountdown));
}

#[test]
fn notifications_keep_the_rest() {
    let mut device = volcano();
    device.handle_notification(2, &1853u16.to_le_bytes());
    device.handle_notification(4, &0u16.to_le_bytes());
    let before = device.state;
    device.handle_notification(1, &0xffffu16.to_le_bytes());
    assert_eq!(device.state.current_temp, before.current_temp);
    assert_eq!(device.state.settings, before.settings);
    let active = device.state;
    device.handle_notification(3, &1900u32.to_le_bytes());
    assert_eq!(device.state.heater_on, active.heater_on);
    assert_eq!(device.state.settings, active.settings);
    device.handle_notification(5, &60u16.to_le_bytes());
    assert_eq!(device.state.current_temp, before.current_temp);
    assert!(device.state.pump_on && device.state.fan_on);
}
