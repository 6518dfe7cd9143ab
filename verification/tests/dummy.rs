use storz_rs::device::{DeviceModel, HeaterMode};
use storz_rs::error::StorzError;
use storz_rs::protocol::dummy::DummyDevice;
use storz_rs::single::Single;
use storz_rs::workflow::{
    Action, Event, Workflow, WorkflowRunner, WorkflowState, WorkflowStep,
};

fn s(x: f32) -> Single {
    Single::from_bits(x.to_bits())
}

fn f(x: Single) -> f32 {
    f32::from_bits(x.to_bits())
}

#[test]
fn test_dummy_device_temperature() {
    let device = DummyDevice::new();
    let current = f(device.get_current_temperature().unwrap());
    assert!(current > 20.0);
    assert!(current < 25.0);

    let target = f(device.get_target_temperature().unwrap());
    assert!((target - 180.0).abs() < 0.01);
}

#[test]
fn test_dummy_device_heater() {
    let mut device = DummyDevice::new();
    assert!(!device.get_state().unwrap().heater_on);

    device.heater_on().unwrap();
    assert!(device.get_state().unwrap().heater_on);

    device.heater_off().unwrap();
    assert!(!device.get_state().unwrap().heater_on);
}

#[test]
fn test_dummy_device_pump() {
    let mut device = DummyDevice::new();
    assert!(!device.get_state().unwrap().pump_on);

    device.pump_on().unwrap();
    assert!(device.get_state().unwrap().pump_on);

    device.pump_off().unwrap();
    assert!(!device.get_state().unwrap().pump_on);
}

#[test]
fn test_dummy_device_set_temperature() {
    let mut device = DummyDevice::new();
    device.set_target_temperature(s(200.0)).unwrap();
    let target = f(device.get_target_temperature().unwrap());
    // DummyDevice rounds to even numbers
    assert!((target - 200.0).abs() < 1.0);
}

#[test]
fn test_dummy_device_temperature_ramping() {
    let mut device = DummyDevice::new();
    device.set_target_temperature(s(50.0)).unwrap();
    device.heater_on().unwrap();

    for _ in 0..3 {
        device.tick();
    }

    let current = f(device.get_current_temperature().unwrap());
    let initial = 22.0;
    assert!(current > initial, "Temperature should increase when heating");
}

#[test]
fn test_dummy_device_settings() {
    let device = DummyDevice::new();
    let settings = device.get_settings().unwrap();
    assert!(settings.is_celsius);
    assert_eq!(settings.battery_level, Some(85));
}

#[test]
fn test_dummy_device_temperature_unit() {
    let mut device = DummyDevice::new();

    device.set_temperature_unit(false).unwrap();
    let settings = device.get_settings().unwrap();
    assert!(!settings.is_celsius);

    device.set_temperature_unit(true).unwrap();
    let settings = device.get_settings().unwrap();
    assert!(settings.is_celsius);
}

#[test]
fn test_dummy_device_brightness() {
    let mut device = DummyDevice::new();
    device.set_brightness(75).unwrap();
    assert_eq!(device.brightness, 75);
}

#[test]
fn test_dummy_device_vibration() {
    let mut device = DummyDevice::new();

    device.set_vibration(false).unwrap();
    let settings = device.get_settings().unwrap();
    assert!(!settings.vibration);

    device.set_vibration(true).unwrap();
    let settings = device.get_settings().unwrap();
    assert!(settings.vibration);
}

#[test]
fn test_dummy_device_heater_mode() {
    let mut device = DummyDevice::new();

    device.set_heater_mode(HeaterMode::Normal).unwrap();
    let state = device.get_state().unwrap();
    assert_eq!(state.heater_mode, Some(HeaterMode::Normal));
    assert!(state.heater_on);

    device.set_heater_mode(HeaterMode::Boost).unwrap();
    let state = device.get_state().unwrap();
    assert_eq!(state.heater_mode, Some(HeaterMode::Boost));

    device.set_heater_mode(HeaterMode::Off).unwrap();
    let state = device.get_state().unwrap();
    assert_eq!(state.heater_mode, Some(HeaterMode::Off));
    assert!(!state.heater_on);
}

#[test]
fn test_dummy_device_shutoff_time() {
    let mut device = DummyDevice::new();

    device.set_shutoff_time(600).unwrap();
    let settings = device.get_settings().unwrap();
    assert_eq!(settings.auto_shutdown_seconds, Some(600));
}

#[test]
fn test_dummy_device_boost_temperature() {
    let mut device = DummyDevice::new();

    device.set_boost_temperature(s(8.0)).unwrap();
    let state = device.get_state().unwrap();
    assert_eq!(state.boost_temp, Some(s(8.0)));

    device.set_super_boost_temperature(s(15.0)).unwrap();
    let state = device.get_state().unwrap();
    assert_eq!(state.super_boost_temp, Some(s(15.0)));
}

#[test]
fn test_dummy_device_model() {
    let device = DummyDevice::new();
    assert_eq!(device.device_model(), DeviceModel::Venty);
}

#[test]
fn test_dummy_device_subscribe_state() {
    let mut device = DummyDevice::new();
    // Every second there is a state for whoever listens.
    let state = device.tick();
    assert!(state.current_temp.is_some());
}

#[test]
fn test_dummy_device_battery_level() {
    let device = DummyDevice::new();
    let battery = device.get_state().unwrap().get_battery_level();
    assert_eq!(battery, Some(85));
}

#[test]
fn test_dummy_device_is_charging() {
    let device = DummyDevice::new();
    let charging = device.get_state().unwrap().get_is_charging();
    assert_eq!(charging, Some(false));
}

/// Does what a run asks for on a dummy device; a second of sleep is a tick.
fn perform(device: &mut DummyDevice, action: Action) -> Result<Event, Result<(), StorzError>> {
    let done = |r: Result<(), StorzError>| match r {
        Ok(()) => Event::Done,
        Err(e) => Event::Failed(e),
    };
    Ok(match action {
        Action::SetTarget(t) => done(device.set_target_temperature(t)),
        Action::HeaterOn => done(device.heater_on()),
        Action::HeaterOff => done(device.heater_off()),
        Action::PumpOn => done(device.pump_on()),
        Action::PumpOff => done(device.pump_off()),
        Action::ReadTemperature => match device.get_current_temperature() {
            Ok(t) => Event::Temperature(t),
            Err(e) => Event::Failed(e),
        },
        Action::Sleep { millis } => {
            for _ in 0..millis.div_ceil(1000) {
                device.tick();
            }
            Event::Done
        }
        Action::Finish(r) => return Err(r),
    })
}

#[test]
fn test_workflow_with_dummy_device() {
    let mut device = DummyDevice::new();

    // Use low target temp so DummyDevice reaches it quickly
    let workflow = Workflow::new("Quick Test").add_step(WorkflowStep {
        temperature: s(25.0),
        hold_time_seconds: 0,
        pump_time_seconds: 0,
    });

    let mut runner = WorkflowRunner::new();
    let mut run = runner.start(&workflow).unwrap();
    let mut event = Event::Done;
    let result = loop {
        let action = runner.advance(&mut run, event);
        match perform(&mut device, action) {
            Ok(next) => event = next,
            Err(result) => break result,
        }
    };
    assert!(result.is_ok(), "Workflow should complete successfully");

    // Heater should be off after workflow completes
    let state = device.get_state().unwrap();
    assert!(!state.heater_on);
    assert!(!state.pump_on);
}

#[test]
fn test_workflow_stop() {
    let mut device = DummyDevice::new();

    // High temp so it takes a while
    let workflow = Workflow::new("Long Running").add_step(WorkflowStep {
        temperature: s(230.0),
        hold_time_seconds: 0,
        pump_time_seconds: 0,
    });

    let mut runner = WorkflowRunner::new();
    let runner_clone = WorkflowRunner::new();

    // Let it run for a moment
    let mut run = runner.start(&workflow).unwrap();
    let mut event = Event::Done;
    for _ in 0..5 {
        let action = runner.advance(&mut run, event);
        event = perform(&mut device, action).unwrap();
    }

    // Another runner is not affected.
    assert_eq!(runner_clone.state(), WorkflowState::Idle);
    assert_eq!(runner.state(), WorkflowState::Running);
}

#[test]
fn simulation_is_that_of_single_precision() {
    let mut device = DummyDevice::new();
    let (mut current, mut target, mut heating) = (22.0f32, 180.0f32, false);
    for second in 0..2000 {
        match second % 400 {
            10 => {
                device.heater_on().unwrap();
                heating = true;
            }
            200 => {
                device.heater_off().unwrap();
                heating = false;
            }
            300 => {
                let asked = 40.0 + (second as f32) * 0.1;
                device.set_target_temperature(s(asked)).unwrap();
                target = ((asked / 2.0).round() * 2.0).clamp(40.0, 230.0);
            }
            _ => {}
        }
        current = if heating {
            let step = ((target - current) * 0.02).clamp(0.3, 2.0);
            (current + step).min(target)
        } else {
            let step = ((current - 20.0) * 0.01).clamp(0.1, 1.0);
            (current - step).max(20.0)
        };
        let state = device.tick();
        assert_eq!(state.current_temp, Some(s(current)));
        assert_eq!(state.target_temp, Some(s(target)));
        assert_eq!(state.setpoint_reached, (current - target).abs() <= 2.0);
        assert_eq!(state.heater_on, heating);
    }
}

#[test]
fn targets_are_even_and_in_range() {
    let mut device = DummyDevice::new();
    for (asked, set) in [
        (200.0, 200.0),
        (201.0, 202.0),
        (200.9, 200.0),
        (3.0, 40.0),
        (999.0, 230.0),
        (f32::INFINITY, 230.0),
        (f32::NEG_INFINITY, 40.0),
        (-0.0, 40.0),
    ] {
        device.set_target_temperature(s(asked)).unwrap();
        assert_eq!(f(device.get_target_temperature().unwrap()), set);
    }
    // A target in range is met within one degree.
    for tenth in 400..=2300 {
        let asked = tenth as f32 / 10.0;
        device.set_target_temperature(s(asked)).unwrap();
        let set = f(device.get_target_temperature().unwrap());
        assert!(set % 2.0 == 0.0 && (set - asked).abs() <= 1.0);
    }
}

#[test]
fn heating_reaches_the_target_in_time_and_cooling_the_room() {
    let mut device = DummyDevice::new();
    device.set_target_temperature(s(230.0)).unwrap();
    device.heater_on().unwrap();
    let mut last = 22.0;
    for _ in 0..(4 * 208) {
        let now = f(device.tick().current_temp.unwrap());
        assert!(now >= last && now <= 230.0);
        last = now;
    }
    assert_eq!(last, 230.0);
    device.heater_off().unwrap();
    for _ in 0..(16 * 210) {
        let now = f(device.tick().current_temp.unwrap());
        assert!(now <= last && now >= 20.0);
        last = now;
    }
    assert_eq!(last, 20.0);
}

#[test]
fn one_second_gains_two_degrees_up_to_a_rounding() {
    let second = |current: f32, target: f32, heating: bool, pumping: bool| {
        let mut device = DummyDevice::new();
        device.set_target_temperature(s(target)).unwrap();
        if heating {
            device.heater_on().unwrap();
        }
        if pumping {
            device.pump_on().unwrap();
        }
        device.state.current_temp = Some(s(current));
        let state = device.tick();
        assert_eq!(state, device.state);
        assert_eq!(state.target_temp, Some(s(target)));
        assert_eq!((state.heater_on, state.pump_on), (heating, pumping));
        let next = f(state.current_temp.unwrap());
        assert_eq!(state.setpoint_reached, (next - target).abs() <= 2.0);
        next
    };
    assert_eq!(second(22.0, 180.0, true, false), 24.0);
    // Half the last digit more, because the sum is not a single.
    let edge = f32::from_bits(32.0f32.to_bits() - 1);
    assert_eq!(second(edge, 132.0, true, true), 34.0);
    assert!(f64::from(34.0f32) - f64::from(edge) <= 2.0 + 2.0f64.powi(-17));
    assert_eq!(second(179.9, 180.0, true, false), 180.0);
    assert_eq!(second(20.05, 180.0, false, true), 20.0);
    assert_eq!(second(120.0, 40.0, false, false), 119.0);
    // Two degrees below the target are near enough.
    assert_eq!(second(177.7, 180.0, true, false), 178.0);
}

#[test]
fn heating_falls_back_to_normal_mode() {
    let mut device = DummyDevice::new();
    device.set_heater_mode(HeaterMode::Boost).unwrap();
    assert_eq!(device.tick().heater_mode, Some(HeaterMode::Normal));
    device.set_auto_shutdown_timer(77).unwrap();
    assert_eq!(device.get_settings().unwrap().auto_shutdown_seconds, Some(77));
    assert_eq!(device.shutoff_time, 300);
}

#[test]
fn missing_values_are_errors() {
    let mut device = DummyDevice::new();
    device.state.current_temp = None;
    device.state.target_temp = None;
    device.state.settings = None;
    assert_eq!(
        device.get_current_temperature().unwrap_err().message(""),
        "Parse error: Current temperature not available"
    );
    assert_eq!(
        device.get_target_temperature().unwrap_err().message(""),
        "Parse error: Target temperature not available"
    );
    assert_eq!(device.get_settings().unwrap_err().message(""), "Parse error: Settings not available");
    device.set_vibration(false).unwrap();
    assert_eq!(device.state.settings, None);
    assert_eq!(device.tick().current_temp, None);
}
