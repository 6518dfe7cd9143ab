use storz_rs::daemon::{
    automation_brightness, listen_address, needs_refresh, refreshed, socket_path, with_readings,
    DisplayAction, DisplayAutomation, DisplayEvent,
};
use storz_rs::device::{DeviceModel, DeviceState};
use storz_rs::error::StorzError;
use storz_rs::http_client::{
    bad_response, check_answer, check_stream, first_state, frame_data, told_temperature,
    unreachable_daemon, Body, EventBuffer, HttpDevice,
};
use storz_rs::requests::{self, read_line, Line, Request};
use storz_rs::single::Single;

fn s(x: f32) -> Single {
    Single::from_bits(x.to_bits())
}

fn some(text: &str) -> Option<String> {
    Some(text.to_string())
}

fn ask(line: &str) -> Result<Request, String> {
    read_line(line)?.dispatch()
}

#[test]
fn requests_of_every_kind() {
    assert_eq!(ask(r#"{"op":"state"}"#), Ok(Request::State));
    assert_eq!(ask(r#"{"op":"info","x":[1]}"#), Ok(Request::Info));
    assert_eq!(ask(r#"{"op":"set-temp","celsius":185.5}"#), Ok(Request::SetTemperature(s(185.5))));
    assert_eq!(ask(r#"{"op":"set-temp","celsius":180}"#), Ok(Request::SetTemperature(s(180.0))));
    assert_eq!(ask(r#"{"op":"set-temp","celsius":-1}"#), Ok(Request::SetTemperature(s(-1.0))));
    assert_eq!(ask(r#"{"op":"set-temp","celsius":0.1}"#), Ok(Request::SetTemperature(s(0.1))));
    assert_eq!(ask(r#"{"op":"heater","on":true}"#), Ok(Request::Heater(true)));
    assert_eq!(ask(r#"{"op":"pump","on":false}"#), Ok(Request::Pump(false)));
    assert_eq!(ask(r#"{"op":"brightness","value":70}"#), Ok(Request::Brightness(70)));
    assert_eq!(ask(r#"{"op":"brightness","value":65537}"#), Ok(Request::Brightness(1)));
    assert_eq!(ask(r#"{"op":"vibration","on":true}"#), Ok(Request::Vibration(true)));
    assert_eq!(ask(r#"{"op":"shutoff","seconds":1800}"#), Ok(Request::Shutoff(1800)));
    assert_eq!(ask(r#"{"op":"unit","celsius":false}"#), Ok(Request::Unit { celsius: false }));
}

#[test]
fn requests_that_are_refused() {
    let refused = |line: &str, text: &str| assert_eq!(ask(line), Err(text.to_string()));
    refused(r#"{"op":"set-temp"}"#, "missing celsius");
    refused(r#"{"op":"set-temp","celsius":"hot"}"#, "missing celsius");
    refused(r#"{"op":"heater"}"#, "missing on");
    refused(r#"{"op":"pump","on":1}"#, "missing on");
    refused(r#"{"op":"vibration","on":null}"#, "missing on");
    refused(r#"{"op":"brightness","value":-1}"#, "missing value");
    refused(r#"{"op":"brightness","value":1.5}"#, "missing value");
    refused(r#"{"op":"shutoff","seconds":true}"#, "missing seconds");
    refused(r#"{"op":"unit","celsius":1}"#, "missing celsius");
    refused(r#"{"op":"dance"}"#, r#"unknown op "dance""#);
    refused(r#"{"op":"say \"hi\""}"#, r#"unknown op "say \"hi\"""#);
    refused(r#"{"op":7}"#, r#"unknown op """#);
    refused("{}", r#"unknown op """#);
    refused("[1,2]", r#"unknown op """#);
    assert!(ask("{").unwrap_err().starts_with("bad json: EOF while parsing"));
    assert!(read_line(r#"{"op":"watch"}"#).unwrap().watches());
    assert!(!read_line(r#"{"op":"state"}"#).unwrap().watches());
}

#[test]
fn lines_on_the_socket() {
    assert!(matches!(requests::handle(r#"{"op":"watch","on":1}"#), Line::Watch));
    match requests::handle(r#"{"op":"pump","on":true}"#) {
        Line::Ask(pending) => assert_eq!(pending.dispatch(), Ok(Request::Pump(true))),
        other => panic!("{other:?}"),
    }
    match requests::handle("watch") {
        Line::Refuse { words } => assert_eq!(words, "bad json: expected value at line 1 column 1"),
        other => panic!("{other:?}"),
    }
}

#[test]
fn display_follows_the_heater() {
    let mut display = DisplayAutomation::new(70);
    let seen = |heater_on: bool| DisplayEvent::State { heater_on };
    assert_eq!(display.advance(DisplayEvent::Done), DisplayAction::Subscribe);
    assert_eq!(display.advance(DisplayEvent::Done), DisplayAction::ReadState);
    assert_eq!(display.advance(seen(false)), DisplayAction::SetBrightness(0));
    assert_eq!(display.advance(DisplayEvent::Done), DisplayAction::NextState);
    assert_eq!(display.advance(seen(false)), DisplayAction::NextState);
    assert_eq!(display.advance(seen(true)), DisplayAction::SetBrightness(70));
    // A write that failed is tried again at the next state.
    assert_eq!(display.advance(DisplayEvent::Failed), DisplayAction::NextState);
    assert_eq!(display.advance(seen(true)), DisplayAction::SetBrightness(70));
    assert_eq!(display.advance(DisplayEvent::Done), DisplayAction::NextState);
    assert_eq!(display.advance(seen(true)), DisplayAction::NextState);
    assert_eq!(display.advance(DisplayEvent::Ended), DisplayAction::GetDevice);
    // What was set is remembered over a reconnect.
    display.advance(DisplayEvent::Done);
    display.advance(DisplayEvent::Done);
    assert_eq!(display.advance(seen(true)), DisplayAction::NextState);
}

#[test]
fn display_waits_after_failures() {
    let mut display = DisplayAutomation::new(70);
    let pause = DisplayAction::Sleep { millis: 2000 };
    assert_eq!(display.advance(DisplayEvent::Failed), pause);
    assert_eq!(display.advance(DisplayEvent::Done), DisplayAction::GetDevice);
    assert_eq!(display.advance(DisplayEvent::Done), DisplayAction::Subscribe);
    assert_eq!(display.advance(DisplayEvent::Failed), pause);
    assert_eq!(display.advance(DisplayEvent::Done), DisplayAction::GetDevice);
    display.advance(DisplayEvent::Done);
    display.advance(DisplayEvent::Done);
    // A state that cannot be read is no reason to wait.
    assert_eq!(display.advance(DisplayEvent::Failed), DisplayAction::NextState);
}

#[test]
fn snapshots_are_completed() {
    let mut state = DeviceState::default();
    assert!(needs_refresh(&state));
    state.current_temp = Some(s(100.0));
    assert!(needs_refresh(&state));
    let later = DeviceState { heater_on: true, pump_on: true, fan_on: true, ..DeviceState::default() };
    let full = refreshed(&state, None, Some(s(180.0)), &later);
    assert_eq!(full.current_temp, Some(s(100.0)));
    assert_eq!(full.target_temp, Some(s(180.0)));
    assert!(full.heater_on && full.pump_on && !full.fan_on);
    assert!(!needs_refresh(&full));
    let read = with_readings(&full, Some(s(101.0)), None);
    assert_eq!(read.current_temp, Some(s(101.0)));
    assert_eq!(read.target_temp, Some(s(180.0)));
}

#[test]
fn places_from_the_environment() {
    assert_eq!(listen_address(None), "0.0.0.0:8814");
    assert_eq!(listen_address(some("[::]:1")), "[::]:1");
    assert_eq!(socket_path(some("/x"), some("/run")), "/x");
    assert_eq!(socket_path(None, some("/run/user/1")), "/run/user/1/volcano.sock");
    assert_eq!(socket_path(None, None), "/tmp/volcano.sock");
    assert_eq!(automation_brightness(&some("70")), Some(70));
    assert_eq!(automation_brightness(&some("65535")), Some(65535));
    for bad in ["65536", "", "-1", " 70", "x"] {
        assert_eq!(automation_brightness(&some(bad)), None);
    }
    assert_eq!(automation_brightness(&None), None);
}

#[test]
fn addresses_and_bodies() {
    let device = HttpDevice::new("http://watts:8814//", DeviceModel::VolcanoHybrid);
    assert_eq!(device.base, "http://watts:8814");
    assert_eq!(device.state_url(), "http://watts:8814/state");
    assert_eq!(device.settings_url(), "http://watts:8814/config");
    assert_eq!(device.info_url(), "http://watts:8814/info");
    assert_eq!(device.events_url(), "http://watts:8814/events");
    for (post, path, body) in [
        (device.set_target_temperature(s(185.0)), "/target-temp", Body::Celsius(s(185.0))),
        (device.heater_on(), "/heater", Body::On(true)),
        (device.heater_off(), "/heater", Body::On(false)),
        (device.pump_on(), "/pump", Body::On(true)),
        (device.pump_off(), "/pump", Body::On(false)),
        (device.set_display_on_cooling(true), "/display-on-cooling", Body::On(true)),
        (device.set_brightness(5), "/brightness", Body::Value(5)),
        (device.set_vibration(false), "/vibration", Body::On(false)),
        (device.set_shutoff_time(9), "/shutoff-time", Body::Seconds(9)),
        (device.set_temperature_unit(true), "/unit", Body::IsCelsius(true)),
    ] {
        assert_eq!(post.url, format!("http://watts:8814{path}"));
        assert_eq!(post.body, body);
    }
}

#[test]
fn answers_of_the_daemon() {
    assert!(check_answer(200, "200 OK", "").is_ok());
    assert!(check_answer(204, "204 No Content", "").is_ok());
    assert!(check_answer(299, "", "").is_ok());
    for status in [199, 300, 404] {
        assert!(check_answer(status, "", "").is_err());
    }
    assert_eq!(
        check_answer(502, "502 Bad Gateway", "Device not found").unwrap_err().message(""),
        "daemon error 502 Bad Gateway: Device not found"
    );
    assert!(check_stream(200, "200 OK").is_ok());
    assert_eq!(check_stream(502, "502 Bad Gateway").unwrap_err().message(""), "daemon error 502 Bad Gateway");
    assert_eq!(unreachable_daemon("refused").message(""), "daemon unreachable: refused");
    assert_eq!(bad_response("eof").message(""), "bad daemon response: eof");
    assert_eq!(told_temperature(Some(s(1.0))).unwrap(), s(1.0));
    assert!(matches!(told_temperature(None), Err(StorzError::NotConnected)));
}

#[test]
fn events_arrive_in_frames() {
    let mut buffer = EventBuffer::new();
    assert_eq!(buffer.next_frame(), None);
    buffer.push(b"data: {\"a\":1}\n");
    assert_eq!(buffer.next_frame(), None);
    buffer.push(b"\n: keep-alive\n\ndata: x\r\nid: 3\ndata: y\n\nda");
    assert_eq!(buffer.next_frame().unwrap(), ["{\"a\":1}"]);
    assert!(buffer.next_frame().unwrap().is_empty());
    assert_eq!(buffer.next_frame().unwrap(), ["x", "y"]);
    assert_eq!(buffer.next_frame(), None);
    assert_eq!(buffer.text, "da");
    // Bytes that are no UTF-8 are replaced.
    buffer.push(b"ta: \xff\n\n");
    assert_eq!(buffer.next_frame().unwrap(), ["\u{fffd}"]);
    assert_eq!(frame_data("data:x\n data: y\ndata: \n\n"), [""]);
}

#[test]
fn chunks_of_any_size_give_the_same_frames() {
    let stream = "data: one\n\n\n\ndata: two\ndata: three\n\n:x\n\ndata: four\n\n";
    let frames = |size: usize| {
        let mut buffer = EventBuffer::new();
        let mut all = Vec::new();
        for chunk in stream.as_bytes().chunks(size) {
            buffer.push(chunk);
            while let Some(data) = buffer.next_frame() {
                all.extend(data);
            }
        }
        all
    };
    for size in 1..stream.len() {
        assert_eq!(frames(size), ["one", "two", "three", "four"]);
    }
}

#[test]
fn two_pieces_give_the_frames_of_the_whole() {
    let stream = "data: a\n\n: keep-alive\n\ndata: b\ndata: c\n\ndata: unfinished\n";
    let drain = |buffer: &mut EventBuffer| {
        let mut all = Vec::new();
        while let Some(data) = buffer.next_frame() {
            all.push(data);
        }
        all
    };
    let mut whole = EventBuffer::new();
    whole.push_text(stream);
    let expected = drain(&mut whole);
    assert_eq!(expected, [vec!["a"], vec![], vec!["b", "c"]]);
    assert_eq!(whole.text, "data: unfinished\n");
    for cut in 0..=stream.len() {
        let mut buffer = EventBuffer::new();
        buffer.push(&stream.as_bytes()[..cut]);
        let mut frames = drain(&mut buffer);
        buffer.push(&stream.as_bytes()[cut..]);
        frames.extend(drain(&mut buffer));
        assert_eq!(frames, expected);
        assert_eq!(buffer.text, whole.text);
    }
}

#[test]
fn frame_tells_its_first_state() {
    let cold = DeviceState::default();
    let hot = DeviceState { heater_on: true, ..DeviceState::default() };
    assert_eq!(first_state(&[]), None);
    assert_eq!(first_state(&[None, None]), None);
    assert_eq!(first_state(&[None, Some(hot), Some(cold)]), Some(hot));
}
