use storz_rs::error::{Detail, StorzError};
use storz_rs::single::Single;
use storz_rs::utils::{
    build_venty_command, celsius_of, celsius_to_fahrenheit, celsius_to_raw_u16, celsius_to_raw_u32,
    fahrenheit_to_celsius, le_bytes_u16, le_bytes_u32, raw_to_celsius_u16, raw_to_celsius_u32,
    raw_to_u16, raw_to_u24, tenths_u16, within_range, TEMP_MAX, TEMP_MIN,
};

fn s(x: f32) -> Single {
    Single::from_bits(x.to_bits())
}

fn f(x: Single) -> f32 {
    f32::from_bits(x.to_bits())
}

#[test]
fn test_celsius_to_raw_u32() {
    let bytes = celsius_to_raw_u32(s(185.0)).unwrap();
    assert_eq!(u32::from_le_bytes(bytes), 1850);
}

#[test]
fn test_celsius_to_raw_u16() {
    let bytes = celsius_to_raw_u16(s(210.0)).unwrap();
    assert_eq!(u16::from_le_bytes(bytes), 2100);
}

#[test]
fn test_raw_to_celsius_u16() {
    let bytes = 1850u16.to_le_bytes();
    let celsius = f(raw_to_celsius_u16(&bytes).unwrap());
    assert!((celsius - 185.0).abs() < 0.01);
}

#[test]
fn test_temperature_range_validation() {
    assert!(celsius_to_raw_u32(s(30.0)).is_err());
    assert!(celsius_to_raw_u32(s(250.0)).is_err());
    assert!(celsius_to_raw_u32(s(40.0)).is_ok());
    assert!(celsius_to_raw_u32(s(230.0)).is_ok());
}

#[test]
fn test_build_venty_command() {
    let cmd = build_venty_command(0x01, 0x02, &[(4, 0x1A), (5, 0x07)]);
    assert_eq!(cmd[0], 0x01);
    assert_eq!(cmd[1], 0x02);
    assert_eq!(cmd[4], 0x1A);
    assert_eq!(cmd[5], 0x07);
    assert_eq!(cmd[2], 0); // unset bytes remain 0
}

#[test]
fn test_raw_to_u16() {
    let bytes = [0x34, 0x12];
    assert_eq!(raw_to_u16(&bytes).unwrap(), 0x1234);
}

#[test]
fn test_raw_to_u24() {
    let bytes = [0x01, 0x02, 0x03];
    assert_eq!(raw_to_u24(&bytes).unwrap(), 0x030201);
}

#[test]
fn test_celsius_to_fahrenheit() {
    let fahrenheit = f(celsius_to_fahrenheit(s(100.0)));
    assert!((fahrenheit - 212.0).abs() < 0.01);
}

#[test]
fn test_fahrenheit_to_celsius() {
    let c = f(fahrenheit_to_celsius(s(212.0)));
    assert!((c - 100.0).abs() < 0.01);
}

#[test]
fn conversions_are_those_of_single_precision() {
    for i in 0..5000u32 {
        let x = i as f32 / 20.0;
        assert_eq!(f(celsius_to_fahrenheit(s(x))), x * 1.8 + 32.0);
        assert_eq!(f(fahrenheit_to_celsius(s(x))), (x - 32.0) / 1.8);
        assert_eq!(tenths_u16(s(x)), (x * 10.0).round() as u16);
    }
}

#[test]
fn range_ends_are_accepted_and_their_neighbours_are_not() {
    assert_eq!(f(Single::from_bits(TEMP_MIN)), 40.0);
    assert_eq!(f(Single::from_bits(TEMP_MAX)), 230.0);
    assert!(within_range(s(40.0)));
    assert!(within_range(s(230.0)));
    assert!(!within_range(s(f32::from_bits(40.0f32.to_bits() - 1))));
    assert!(!within_range(s(f32::from_bits(230.0f32.to_bits() + 1))));
    assert!(!within_range(s(f32::NAN)));
    assert!(!within_range(s(f32::INFINITY)));
    assert!(!within_range(s(-50.0)));
}

#[test]
fn out_of_range_error_names_the_temperature() {
    let e = celsius_to_raw_u16(s(250.5)).unwrap_err();
    match &e {
        StorzError::ParseError(Detail::OutOfRange { celsius }) => assert_eq!(f(*celsius), 250.5),
        other => panic!("{other:?}"),
    }
    assert_eq!(
        e.message("250.5"),
        "Parse error: Temperature 250.5°C out of range (40–230°C)"
    );
}

#[test]
fn both_widths_refuse_the_same_with_a_parse_error() {
    for celsius in [39.9, 230.1, -1.0, f32::NAN, f32::INFINITY, f32::NEG_INFINITY] {
        let narrow = celsius_to_raw_u16(s(celsius)).unwrap_err();
        let wide = celsius_to_raw_u32(s(celsius)).unwrap_err();
        assert!(matches!(narrow, StorzError::ParseError(Detail::OutOfRange { .. })));
        assert!(matches!(wide, StorzError::ParseError(Detail::OutOfRange { .. })));
    }
}

#[test]
fn raw_values_survive_the_round_trip() {
    for n in 0..=0xffffu32 {
        assert_eq!(f(celsius_of(n)), n as f32 / 10.0);
        assert_eq!(u32::from(tenths_u16(celsius_of(n))), n);
        let accepted = within_range(celsius_of(n));
        assert_eq!(accepted, (400..=2300).contains(&n));
        if accepted {
            let bytes = celsius_to_raw_u32(celsius_of(n)).unwrap();
            assert_eq!(u32::from_le_bytes(bytes), n);
            assert_eq!(raw_to_celsius_u32(&bytes).unwrap(), celsius_of(n));
        }
    }
}

#[test]
fn accepted_temperatures_become_the_nearest_tenth() {
    for i in 40_000..=230_000u32 {
        let x = i as f32 / 1000.0;
        let n = tenths_u16(s(x));
        assert!((400..=2300).contains(&n));
        assert!((f64::from(n) - f64::from(x) * 10.0).abs() <= 0.5001);
    }
}

#[test]
fn short_answers_are_refused_with_their_length() {
    let message = |r: Result<Single, StorzError>| r.unwrap_err().message("");
    assert_eq!(message(raw_to_celsius_u16(&[7])), "Parse error: Expected >= 2 bytes for u16, got 1");
    assert_eq!(
        message(raw_to_celsius_u32(&[1, 2, 3])),
        "Parse error: Expected >= 4 bytes for u32, got 3"
    );
    assert_eq!(
        raw_to_u16(&[]).unwrap_err().message(""),
        "Parse error: Expected >= 2 bytes for u16, got 0"
    );
    assert_eq!(
        raw_to_u24(&[1, 2]).unwrap_err().message(""),
        "Parse error: Expected >= 3 bytes for u24, got 2"
    );
    // Bytes behind the number do not matter.
    assert_eq!(raw_to_u16(&[1, 2, 3]).unwrap(), 0x0201);
}

#[test]
fn little_endian_bytes() {
    assert_eq!(le_bytes_u16(0x1234), 0x1234u16.to_le_bytes());
    assert_eq!(le_bytes_u32(0x0102_0304), 0x0102_0304u32.to_le_bytes());
    assert_eq!(le_bytes_u32(u32::MAX), [0xff; 4]);
}

#[test]
fn last_write_to_a_byte_wins_and_far_offsets_are_ignored() {
    let cmd = build_venty_command(0x05, 0x06, &[(3, 1), (20, 9), (3, 2), (0, 7)]);
    assert_eq!(cmd[3], 2);
    assert_eq!(cmd[0], 7);
    assert_eq!(cmd[1], 0x06);
    assert_eq!(cmd.iter().filter(|b| **b != 0).count(), 3);
}

#[test]
fn errors_in_words() {
    assert_eq!(StorzError::Bluetooth("x".to_string()).message(""), "Bluetooth error: x");
    assert_eq!(StorzError::DeviceNotFound.message(""), "Device not found");
    assert_eq!(
        StorzError::UnsupportedOperation { device: "Venty".to_string(), operation: "pump_on".to_string() }
            .message(""),
        "Unsupported operation 'pump_on' for device 'Venty'"
    );
    assert_eq!(StorzError::ParseError(Detail::Text("y".to_string())).message(""), "Parse error: y");
    assert_eq!(StorzError::Timeout.message(""), "Operation timed out");
    assert_eq!(StorzError::NotConnected.message(""), "Not connected to device");
    assert_eq!(StorzError::Other("z".to_string()).message(""), "z");
}

#[test]
fn fahrenheit_and_back() {
    for i in 0..=19_000u32 {
        let c = 40.0 + i as f32 / 100.0;
        let back = f(fahrenheit_to_celsius(celsius_to_fahrenheit(s(c))));
        assert!((f64::from(back) - f64::from(c)).abs() <= 1.0 / 16384.0);
    }
}

#[test]
fn whole_degrees_are_exact() {
    for degrees in 40..=230u16 {
        let c = s(f32::from(degrees));
        assert_eq!(tenths_u16(c), degrees * 10);
        assert_eq!(celsius_of(u32::from(degrees) * 10), c);
        let bytes = celsius_to_raw_u16(c).unwrap();
        assert_eq!(raw_to_celsius_u16(&bytes).unwrap(), c);
    }
}
