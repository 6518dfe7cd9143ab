use storz_rs::device::{DeviceModel, DeviceState, HeaterMode};
use storz_rs::protocol::venty::Venty;
use storz_rs::protocol::venty_log::debug_dump_notification;
use storz_rs::single::Single;

const CONTROL: u128 = 0x1234;

fn s(x: f32) -> Single {
    Single::from_bits(x.to_bits())
}

fn venty() -> Venty {
    Venty::new(DeviceModel::Venty, CONTROL, vec![1, CONTROL])
}

fn status() -> Vec<u8> {
    let mut data = vec![0u8; 20];
    data[0] = 0x01;
    data[4] = 0x3a; // 1850 tenths
    data[5] = 0x07;
    data[6] = 5;
    data[7] = 10;
    data[8] = 85;
    data[9] = 0x2c; // 300 seconds
    data[10] = 0x01;
    data[11] = 2;
    data[13] = 1;
    data[14] = 0x02 | 0x20;
    data[16] = 0x01;
    data
}

#[test]
fn heater_modes_and_their_bytes() {
    for (byte, mode) in [
        (0, HeaterMode::Off),
        (1, HeaterMode::Normal),
        (2, HeaterMode::Boost),
        (3, HeaterMode::SuperBoost),
    ] {
        assert_eq!(HeaterMode::from_u8(byte), mode);
        assert_eq!(mode.as_u8(), byte);
    }
    assert_eq!(HeaterMode::from_u8(4), HeaterMode::Off);
    assert_eq!(HeaterMode::from_u8(255), HeaterMode::Off);
    assert_eq!(HeaterMode::SuperBoost.name(), "superboost");
    assert_eq!(DeviceModel::VolcanoHybrid.name(), "Volcano Hybrid");
}

#[test]
fn status_notification_sets_the_state() {
    let mut device = venty();
    assert!(device.handle_notification(&status()));
    let state = device.state;
    assert_eq!(state.target_temp, Some(s(185.0)));
    assert_eq!(state.boost_temp, Some(s(5.0)));
    assert_eq!(state.super_boost_temp, Some(s(10.0)));
    assert_eq!(state.heater_mode, Some(HeaterMode::Boost));
    assert!(state.heater_on);
    assert!(!state.pump_on);
    assert!(state.setpoint_reached);
    assert_eq!(state.current_temp, None);
    let settings = state.settings.unwrap();
    assert_eq!(settings.battery_level, Some(85));
    assert_eq!(settings.auto_shutdown_seconds, Some(300));
    assert!(settings.is_charging);
    assert!(settings.is_celsius);
    assert!(settings.setpoint_reached);
    assert!(settings.charge_voltage_limit);
    assert!(!settings.charge_current_optimization);
    assert!(!settings.vibration);
    assert!(!settings.boost_visualization);
    assert!(settings.permanent_bluetooth);
    assert_eq!(state.get_battery_level(), Some(85));
    assert_eq!(state.get_is_charging(), Some(true));
}

#[test]
fn short_status_keeps_what_it_does_not_tell() {
    let mut device = venty();
    device.handle_notification(&status());
    let mut short = status();
    short.truncate(15);
    short[14] = 0x01;
    short[11] = 0;
    assert!(device.handle_notification(&short));
    let settings = device.state.settings.unwrap();
    assert!(settings.permanent_bluetooth);
    assert!(!settings.is_celsius);
    assert!(!device.state.heater_on);
    // Fourteen bytes are too few for a status.
    short.truncate(14);
    let before = device.state;
    assert!(!device.handle_notification(&short));
    assert_eq!(device.state, before);
    assert!(!device.handle_notification(&[]));
    assert!(!device.handle_notification(&[0x0d]));
    assert_eq!(device.state, before);
}

#[test]
fn firmware_runtime_and_serial() {
    let mut device = venty();
    assert!(!device.handle_notification(&[0x02, 1, 2, 3, 4, 50, 60, 70, 255]));
    assert_eq!(device.device_info.firmware_version.as_deref(), Some("1.2.3.4"));
    assert_eq!(device.device_info.firmware_ble_version.as_deref(), Some("50.60.70.255"));
    device.handle_notification(&[0x04, 1, 2, 3, 4, 0, 0]);
    assert_eq!(device.device_info.heater_runtime_minutes, Some(0x030201));
    assert_eq!(device.device_info.battery_charging_time_minutes, Some(4));
    let mut data = [0u8; 19];
    data[0] = 0x05;
    data[9..15].copy_from_slice(b"123456");
    data[15..17].copy_from_slice(b"VY");
    data[18] = 7;
    device.handle_notification(&data);
    assert_eq!(device.device_info.serial_number.as_deref(), Some("VY123456"));
    assert_eq!(device.device_info.color_index, Some(7));
    // Bytes that are no UTF-8 are replaced.
    data[15] = 0xff;
    device.handle_notification(&data);
    assert_eq!(device.device_info.serial_number.as_deref(), Some("\u{fffd}Y123456"));
    assert_eq!(device.state, DeviceState::default());
    let copy = device.device_info.clone();
    assert_eq!(copy, device.device_info);
}

#[test]
fn target_command_is_echoed_as_the_target() {
    let device = venty();
    let write = device.set_target_temperature(s(185.0)).unwrap();
    assert_eq!(write.uuid, CONTROL);
    assert_eq!(write.bytes.len(), 20);
    assert_eq!(write.bytes[..6], [0x01, 0x02, 0, 0, 0x3a, 0x07]);
    let mut echo = venty();
    assert!(echo.handle_notification(&write.bytes));
    assert_eq!(echo.get_target_temperature().unwrap(), s(185.0));
    // There is no range check, only the limits of two bytes.
    let far = device.set_target_temperature(s(1e9)).unwrap();
    assert_eq!(far.bytes[4..6], [0xff, 0xff]);
    let nan = device.set_target_temperature(s(f32::NAN)).unwrap();
    assert_eq!(nan.bytes[4..6], [0, 0]);
}

#[test]
fn commands_and_their_echoes() {
    let device = venty();
    let mut echo = venty();
    for mode in [HeaterMode::Off, HeaterMode::Normal, HeaterMode::Boost, HeaterMode::SuperBoost] {
        echo.handle_notification(&device.set_heater_mode(mode).unwrap().bytes);
        assert_eq!(echo.state.heater_mode, Some(mode));
        assert_eq!(echo.state.heater_on, mode != HeaterMode::Off);
    }
    assert_eq!(device.heater_on().unwrap().bytes[11], 1);
    assert_eq!(device.heater_off().unwrap().bytes[11], 0);
    assert_eq!(device.heater_on().unwrap().bytes[1], 0x20);
    echo.handle_notification(&device.set_auto_shutdown_timer(600).unwrap().bytes);
    assert_eq!(echo.get_settings().unwrap().auto_shutdown_seconds, Some(600));
    echo.handle_notification(&device.set_boost_temperature(s(7.6)).unwrap().bytes);
    assert_eq!(echo.state.boost_temp, Some(s(8.0)));
    echo.handle_notification(&device.set_super_boost_temperature(s(300.0)).unwrap().bytes);
    assert_eq!(echo.state.super_boost_temp, Some(s(255.0)));
    for on in [false, true] {
        echo.handle_notification(&device.set_temperature_unit(on).unwrap().bytes);
        assert_eq!(echo.get_settings().unwrap().is_celsius, on);
        echo.handle_notification(&device.set_charge_current_optimization(on).unwrap().bytes);
        assert_eq!(echo.get_settings().unwrap().charge_current_optimization, on);
        echo.handle_notification(&device.set_charge_voltage_limit(on).unwrap().bytes);
        assert_eq!(echo.get_settings().unwrap().charge_voltage_limit, on);
        echo.handle_notification(&device.set_boost_visualization(on).unwrap().bytes);
        assert_eq!(echo.get_settings().unwrap().boost_visualization, on);
        echo.handle_notification(&device.set_permanent_bluetooth(on).unwrap().bytes);
        assert_eq!(echo.get_settings().unwrap().permanent_bluetooth, on);
    }
}

#[test]
fn veazy_inverts_boost_visualization() {
    let veazy = Venty::new(DeviceModel::Veazy, CONTROL, vec![CONTROL]);
    assert_eq!(veazy.set_boost_visualization(true).unwrap().bytes[14..16], [0x00, 0x40]);
    assert_eq!(veazy.set_boost_visualization(false).unwrap().bytes[14..16], [0x40, 0x40]);
    assert_eq!(venty().set_boost_visualization(true).unwrap().bytes[14..16], [0x40, 0x40]);
}

#[test]
fn short_commands_and_resets() {
    let device = venty();
    assert_eq!(device.set_vibration(true).unwrap().bytes, [6, 8, 0, 0, 0, 1, 0]);
    assert_eq!(device.set_vibration(false).unwrap().bytes, [6, 8, 0, 0, 0, 0, 0]);
    assert_eq!(device.set_brightness(0x0142).unwrap().bytes, [6, 1, 0x42, 0, 0, 0, 0]);
    assert_eq!(device.set_boost_timeout(9).unwrap().bytes, [6, 16, 0, 0, 0, 0, 9]);
    assert_eq!(device.factory_reset().unwrap().bytes[14..16], [4, 4]);
    assert_eq!(device.find_my_device().unwrap().bytes[..3], [0x0d, 0x01, 0]);
}

#[test]
fn there_is_no_pump() {
    let veazy = Venty::new(DeviceModel::Veazy, CONTROL, vec![CONTROL]);
    assert_eq!(
        veazy.pump_on().unwrap_err().message(""),
        "Unsupported operation 'pump_on' for device 'Veazy'"
    );
    assert_eq!(
        venty().pump_off().unwrap_err().message(""),
        "Unsupported operation 'pump_off' for device 'Venty'"
    );
}

#[test]
fn first_requests_in_their_order() {
    let commands: Vec<u8> = venty().init().unwrap().iter().map(|w| w.bytes[0]).collect();
    assert_eq!(commands, [0x02, 0x1d, 0x01, 0x04]);
    let commands: Vec<u8> = venty().get_device_info().unwrap().iter().map(|w| w.bytes[0]).collect();
    assert_eq!(commands, [0x02, 0x04, 0x05]);
}

#[test]
fn device_without_control_characteristic() {
    let device = Venty::new(DeviceModel::Venty, CONTROL, vec![1, 2]);
    let text = "Parse error: Venty control characteristic not found";
    assert_eq!(device.heater_on().unwrap_err().message(""), text);
    assert_eq!(device.init().unwrap_err().message(""), text);
    assert_eq!(device.control_characteristic().unwrap_err().message(""), text);
}

#[test]
fn nothing_known_before_the_first_notification() {
    let device = venty();
    assert_eq!(
        device.get_current_temperature().unwrap_err().message(""),
        "Parse error: Current temperature not yet available from device notifications"
    );
    assert_eq!(
        device.get_target_temperature().unwrap_err().message(""),
        "Parse error: Target temperature not yet available from device notifications"
    );
    assert_eq!(
        device.get_settings().unwrap_err().message(""),
        "Parse error: Settings not yet available from device notifications"
    );
    assert_eq!(device.state.get_battery_level(), None);
    assert_eq!(device.state.get_is_charging(), None);
}

#[test]
fn notifications_spelled_out() {
    assert_eq!(debug_dump_notification(&[]), ["Venty notification: empty"]);
    assert_eq!(debug_dump_notification(&[0x0d]), ["Venty notification: cmd=0x0D len=1 [0D]"]);
    let lines = debug_dump_notification(&status());
    assert_eq!(
        lines,
        [
            "Venty notification: cmd=0x01 len=20 [01 00 00 00 3A 07 05 0A 55 2C 01 02 00 01 22 00 01 00 00 00]",
            "  [0] cmd_id    = 0x01",
            "  [1] mask      = 0x00 (00000000)",
            "  [2:3] bytes   = 0x0000 (u16=0, as_temp=0.0°C — UNUSED)",
            "  [4:5] target  = 0x073A (u16=1850, 185.0°C)",
            "  [6]   boost   = 5°C",
            "  [7]   sboost  = 10°C",
            "  [8]   battery = 85%",
            "  [9:10] timer  = 300s",
            "  [11]  heater  = boost",
            "  [13]  charger = 1",
            "  [14]  settings= 0x22 (cel=yes,setpoint=yes,vibrate=no)",
        ]
    );
    let lines = debug_dump_notification(&[0x01, 0xa5, 0, 0, 0, 0, 0, 0, 0, 0, 0, 9]);
    assert_eq!(lines[2], "  [1] mask      = 0xA5 (10100101)");
    assert_eq!(lines.last().unwrap(), "  [11]  heater  = unknown");
}

#[test]
fn temperatures_in_the_log_have_one_decimal() {
    for raw in (0..=0xffffu16).step_by(7) {
        let [low, high] = raw.to_le_bytes();
        let lines = debug_dump_notification(&[9, 0, 0, 0, low, high]);
        assert_eq!(
            lines[4],
            format!("  [4:5] target  = 0x{raw:04X} (u16={raw}, {:.1}°C)", raw as f32 / 10.0)
        );
    }
}

#[test]
fn state_in_one_line() {
    let mut device = venty();
    device.handle_notification(&status());
    assert_eq!(
        device.state.describe("None", "Some(185.0)"),
        "State(heater=true, pump=false, fan=false, current=None°C, target=Some(185.0)°C)"
    );
}

#[test]
fn state_stays_coherent() {
    let mut device = venty();
    let mut n = 1u32;
    for _ in 0..2000 {
        n = n.wrapping_mul(1664525).wrapping_add(1013904223);
        let mut data: Vec<u8> = (0..(n >> 8) % 24).map(|i| (n >> (i % 13)) as u8).collect();
        if let Some(first) = data.first_mut() {
            *first %= 7;
        }
        let before = (device.state, device.device_info.clone());
        let news = device.handle_notification(&data);
        let state = device.state;
        assert!(!state.pump_on);
        if let Some(mode) = state.heater_mode {
            assert_eq!(state.heater_on, mode != HeaterMode::Off);
        }
        if let Some(settings) = state.settings {
            assert_eq!(state.setpoint_reached, settings.setpoint_reached);
        }
        if news {
            assert_eq!(device.device_info, before.1);
        } else {
            assert_eq!(state, before.0);
        }
    }
}
