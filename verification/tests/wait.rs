use storz_rs::error::StorzError;
use storz_rs::single::Single;
use storz_rs::wait::{Wait, WaitAction, WaitEvent, WaitKind};

fn s(x: f32) -> Single {
    Single::from_bits(x.to_bits())
}

fn read(x: f32) -> WaitEvent {
    WaitEvent::Temperature(s(x))
}

fn failed() -> WaitEvent {
    WaitEvent::Failed(StorzError::NotConnected)
}

fn word(action: &WaitAction) -> String {
    match action {
        WaitAction::ReadTarget => "target".to_string(),
        WaitAction::Subscribe => "subscribe".to_string(),
        WaitAction::Limit { seconds } => format!("limit {seconds}"),
        WaitAction::ReadTemperature => "read".to_string(),
        WaitAction::Show(line) => format!("show {line}"),
        WaitAction::Pause { seconds } => format!("pause {seconds}"),
        WaitAction::Reached(line) => line.clone(),
        WaitAction::Fail(e) => format!("fail: {}", e.message("")),
        WaitAction::GiveUp(line) => format!("give up: {line}"),
        WaitAction::Finish => "finish".to_string(),
    }
}

fn words(kind: WaitKind, celsius: Option<f32>, events: Vec<WaitEvent>) -> Vec<String> {
    let mut wait = Wait::new(kind, celsius.map(s));
    events.into_iter().map(|event| word(&wait.advance(event))).collect()
}

const DONE: WaitEvent = WaitEvent::Done;

#[test]
fn command_shows_how_far_the_device_is() {
    let events = vec![DONE, DONE, read(100.0), DONE, DONE, read(184.0), DONE];
    assert_eq!(
        words(WaitKind::Command, Some(185.0), events),
        ["subscribe", "read", "show 100.0°C / 185.0°C", "pause 2", "read", "reached 184.0°C", "finish"]
    );
}

#[test]
fn command_asks_for_the_target_and_ends_with_a_failure() {
    assert_eq!(
        words(WaitKind::Command, None, vec![DONE, read(60.0), DONE, read(75.0)]),
        ["target", "subscribe", "read", "reached 75.0°C"]
    );
    assert_eq!(
        words(WaitKind::Command, None, vec![DONE, failed()]),
        ["target", "fail: Not connected to device"]
    );
    assert_eq!(
        words(WaitKind::Command, Some(60.0), vec![DONE, failed()]),
        ["subscribe", "fail: Not connected to device"]
    );
    assert_eq!(
        words(WaitKind::Command, Some(60.0), vec![DONE, DONE, failed(), DONE]),
        ["subscribe", "read", "fail: Not connected to device", "finish"]
    );
}

#[test]
fn tool_passes_over_failed_readings() {
    let kind = WaitKind::Tool { seconds: 300 };
    let events = vec![DONE, read(185.0), DONE, failed(), DONE, read(20.0), DONE, read(190.5)];
    assert_eq!(
        words(kind, None, events),
        ["target", "limit 300", "read", "pause 2", "read", "pause 2", "read", "reached 190.5°C"]
    );
    assert_eq!(words(kind, None, vec![DONE, failed()])[1], "fail: Not connected to device");
}

#[test]
fn tool_gives_up_when_the_time_is_over() {
    let kind = WaitKind::Tool { seconds: 5 };
    let late = "give up: timed out waiting for 185.0°C";
    assert_eq!(
        words(kind, Some(185.0), vec![DONE, DONE, WaitEvent::TimedOut, DONE]),
        ["limit 5", "read", late, "finish"]
    );
    assert_eq!(
        words(kind, Some(185.0), vec![DONE, DONE, read(20.0), WaitEvent::TimedOut]),
        ["limit 5", "read", "pause 2", late]
    );
}

#[test]
fn readings_are_always_two_seconds_apart() {
    for kind in [WaitKind::Command, WaitKind::Tool { seconds: 9 }] {
        let mut wait = Wait::new(kind, Some(s(200.0)));
        let mut event = WaitEvent::Done;
        let mut paused = true;
        for turn in 0..200 {
            event = match wait.advance(event) {
                WaitAction::ReadTemperature => {
                    assert!(paused);
                    paused = false;
                    read(turn as f32 / 2.0)
                }
                WaitAction::Pause { seconds } => {
                    assert_eq!(seconds, 2);
                    paused = true;
                    WaitEvent::Done
                }
                WaitAction::Reached(_) => panic!("never that warm"),
                _ => WaitEvent::Done,
            };
        }
    }
}
