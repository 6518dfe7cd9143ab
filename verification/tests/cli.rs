use storz_rs::cli::{config_change, plan, Call, Command, Fill, FillAction, Plan};
use storz_rs::cli_output::{
    config_lines, info_lines, progress_line, reached_line, status_lines, temperatures_line,
    warm_enough, workflow_line, DisplaySettings,
};
use storz_rs::cli_workflow::{parse_workflow, temperature_texts};
use storz_rs::device::{DeviceInfo, DeviceModel, DeviceSettings, DeviceState};
use storz_rs::manager::ManagerPhase;
use storz_rs::mcp::{
    brightness_answer, connect_problem, heater_answer, pump_answer, target_answer,
    wait_seconds, wait_timeout_text, workflow_answer, workflow_of,
};
use storz_rs::single::Single;
use storz_rs::workflow::{Workflow, WorkflowStep};

fn s(x: f32) -> Single {
    Single::from_bits(x.to_bits())
}

fn some(text: &str) -> Option<String> {
    Some(text.to_string())
}

fn tells(command: Command, call: Call, report: &str) {
    match plan(&command) {
        Plan::Tell { call: got, report: said } => {
            assert_eq!(got, call);
            assert_eq!(said, report);
        }
        other => panic!("{other:?}"),
    }
}

#[test]
fn commands_and_what_they_tell_the_device() {
    tells(Command::SetTemp(s(185.0)), Call::SetTarget(s(185.0)), "target set to 185.0°C");
    tells(Command::Heat { on: true }, Call::Heater(true), "heater on");
    tells(Command::Heat { on: false }, Call::Heater(false), "heater off");
    tells(Command::Pump { on: true }, Call::Pump(true), "pump on");
    tells(Command::Brightness(70), Call::Brightness(70), "brightness 70");
    tells(Command::Vibration { on: false }, Call::Vibration(false), "vibration off");
    tells(Command::Shutoff(1800), Call::Shutoff(1800), "shutoff 1800s");
    for unit in ["c", "celsius"] {
        let command = Command::Unit { unit: unit.to_string() };
        tells(command, Call::Unit { celsius: true }, "unit celsius");
    }
    for unit in ["f", "fahrenheit"] {
        let command = Command::Unit { unit: unit.to_string() };
        tells(command, Call::Unit { celsius: false }, "unit fahrenheit");
    }
    assert!(matches!(plan(&Command::Status), Plan::ShowStatus));
    assert!(matches!(plan(&Command::ShowTemp), Plan::ShowTemperatures));
    assert!(matches!(plan(&Command::Watch), Plan::Watch));
    assert!(matches!(plan(&Command::Info), Plan::ShowInfo));
    assert!(matches!(plan(&Command::WaitTemp { celsius: None }), Plan::Wait { celsius: None }));
    match plan(&Command::Workflow { steps: "1:2:3".to_string() }) {
        Plan::RunWorkflow { steps } => assert_eq!(steps, "1:2:3"),
        other => panic!("{other:?}"),
    }
}

#[test]
fn settings_by_key_and_value() {
    assert_eq!(config_change("brightness", "70"), Ok(Call::Brightness(70)));
    for on in ["on", "true", "yes"] {
        assert_eq!(config_change("setpoint-alert", on), Ok(Call::Vibration(true)));
    }
    for off in ["off", "false", "no"] {
        assert_eq!(config_change("vibration", off), Ok(Call::Vibration(false)));
    }
    assert_eq!(config_change("display-on-cooling", "on"), Ok(Call::DisplayOnCooling(true)));
    assert_eq!(config_change("shutoff", "600"), Ok(Call::Shutoff(600)));
    for c in ["c", "C", "celsius"] {
        assert_eq!(config_change("unit", c), Ok(Call::Unit { celsius: true }));
    }
    assert_eq!(config_change("unit", "K"), Ok(Call::Unit { celsius: false }));
    let refused = |k: &str, v: &str, text: &str| {
        assert_eq!(config_change(k, v), Err(text.to_string()));
    };
    refused("brightness", "bright", "brightness takes 0-100");
    refused("brightness", "65536", "brightness takes 0-100");
    refused("shutoff", "1m", "shutoff takes seconds");
    refused("vibration", "maybe", "vibration takes on|off, got maybe");
    refused("setpoint-alert", "", "setpoint-alert takes on|off, got ");
    refused("display-on-cooling", "ON", "display-on-cooling takes on|off, got ON");
    refused("volume", "11", "unknown setting volume");
}

#[test]
fn config_commands() {
    let config = |key: Option<String>, value: Option<String>| plan(&Command::Config { key, value });
    assert!(matches!(config(None, None), Plan::ShowConfig));
    assert!(matches!(config(None, some("x")), Plan::ShowConfig));
    match config(some("unit"), None) {
        Plan::Refuse { reason } => assert_eq!(reason, "unit needs a value"),
        other => panic!("{other:?}"),
    }
    match config(some("unit"), some("f")) {
        Plan::Tell { call, report } => {
            assert_eq!(call, Call::Unit { celsius: false });
            assert_eq!(report, "unit set to f");
        }
        other => panic!("{other:?}"),
    }
    match config(some("volume"), some("11")) {
        Plan::Refuse { reason } => assert_eq!(reason, "unknown setting volume"),
        other => panic!("{other:?}"),
    }
}

fn pumping(seconds: u64, pulse: Option<u64>, rest: u64) -> Vec<String> {
    let mut fill = match plan(&Command::Fill { seconds, pulse, rest }) {
        Plan::Pump(fill) => fill,
        other => panic!("{other:?}"),
    };
    let mut words = Vec::new();
    loop {
        words.push(match fill.advance() {
            FillAction::PumpOn => "on".to_string(),
            FillAction::PumpOff => "off".to_string(),
            FillAction::Sleep { seconds } => format!("sleep {seconds}"),
            FillAction::Say(text) => text,
            FillAction::Finish => return words,
        });
    }
}

#[test]
fn filling_in_one_go_and_in_bursts() {
    assert_eq!(pumping(8, None, 10), ["on", "sleep 8", "off", "pumped for 8s"]);
    assert_eq!(pumping(0, None, 10), ["on", "sleep 0", "off", "pumped for 0s"]);
    assert_eq!(
        pumping(8, Some(3), 10),
        [
            "on", "sleep 3", "off", "3/8s", "sleep 10", "on", "sleep 3", "off", "6/8s", "sleep 10",
            "on", "sleep 2", "off", "8/8s",
        ]
    );
    assert_eq!(pumping(2, Some(0), 1), ["on", "sleep 1", "off", "1/2s", "sleep 1", "on", "sleep 1", "off", "2/2s"]);
    assert!(pumping(0, Some(3), 10).is_empty());
    assert_eq!(pumping(3, Some(u64::MAX), 10), ["on", "sleep 3", "off", "3/3s"]);
    let fill = Fill::new(5, Some(2), 1);
    assert_eq!((fill.seconds, fill.pumped), (5, 0));
}

#[test]
fn status_and_temperatures() {
    let state = DeviceState {
        current_temp: Some(s(184.94)),
        heater_on: true,
        ..DeviceState::default()
    };
    assert_eq!(
        status_lines(DeviceModel::VolcanoHybrid, &state),
        ["model:   Volcano Hybrid", "current: 184.9°C", "target:  ?", "heater:  on", "pump:    off"]
    );
    assert_eq!(temperatures_line(s(20.1), s(185.0)), "current 20.1°C → target 185.0°C");
    assert_eq!(reached_line(s(184.2)), "reached 184.2°C");
    assert_eq!(progress_line(s(100.0), s(185.0)), "100.0°C / 185.0°C");
    assert_eq!(workflow_line(2), "running workflow: 2 step(s)");
}

#[test]
fn information_that_is_known() {
    let mut info = DeviceInfo::default();
    assert_eq!(info_lines(DeviceModel::Crafty, &info), ["model:    Crafty"]);
    info.firmware_version = some("1.2");
    info.hours_of_heating = Some(12);
    assert_eq!(info_lines(DeviceModel::Crafty, &info), ["model:    Crafty", "firmware: 1.2"]);
    info.serial_number = some("S1");
    info.firmware_ble_version = some("9");
    info.minutes_of_heating = Some(3);
    assert_eq!(
        info_lines(DeviceModel::Crafty, &info),
        ["model:    Crafty", "serial:   S1", "firmware: 1.2", "ble fw:   9", "heating:  12h 3m"]
    );
}

#[test]
fn settings_shown() {
    let mut settings = DeviceSettings::default();
    let mut display =
        DisplaySettings { brightness: None, display_on_cooling: false, shutoff_seconds: None };
    assert_eq!(
        config_lines(&settings, &display),
        [
            "brightness:         ?", "setpoint-alert:     off", "display-on-cooling: off",
            "shutoff:            ?", "unit:               F",
        ]
    );
    settings.vibration = true;
    settings.is_celsius = true;
    display = DisplaySettings { brightness: Some(70), display_on_cooling: true, shutoff_seconds: Some(1800) };
    assert_eq!(
        config_lines(&settings, &display),
        [
            "brightness:         70", "setpoint-alert:     on", "display-on-cooling: on",
            "shutoff:            1800s", "unit:               C",
        ]
    );
}

/// The temperatures of a workflow as the number parser of the front end reads them.
fn workflow(spec: &str) -> Result<Workflow, String> {
    let temperatures: Vec<Option<Single>> =
        temperature_texts(spec).iter().map(|t| t.parse::<f32>().ok().map(s)).collect();
    parse_workflow(spec, &temperatures)
}

#[test]
fn workflows_from_text() {
    let read = workflow("185:60:8, 195.5:45:+8").unwrap();
    assert_eq!(read.name, "cli");
    assert_eq!(
        read.steps,
        [
            WorkflowStep { temperature: s(185.0), hold_time_seconds: 60, pump_time_seconds: 8 },
            WorkflowStep { temperature: s(195.5), hold_time_seconds: 45, pump_time_seconds: 8 },
        ]
    );
    let refused = |spec: &str, text: &str| assert_eq!(workflow(spec).unwrap_err(), text);
    refused("", r#"bad step "": expected TEMP:HOLD_SECS:PUMP_SECS"#);
    refused("185:60", r#"bad step "185:60": expected TEMP:HOLD_SECS:PUMP_SECS"#);
    refused("185:60:8,", r#"bad step "": expected TEMP:HOLD_SECS:PUMP_SECS"#);
    refused("185:60:8, 1:2:3:4", r#"bad step " 1:2:3:4": expected TEMP:HOLD_SECS:PUMP_SECS"#);
    refused("hot:60:8", "bad temperature");
    refused("hot:x:8,1", "bad temperature");
    refused("185:x:8", "bad hold time");
    refused("185:60: 8", "bad pump time");
    refused("185:60:4294967296", "bad pump time");
    refused("185:-1:8", "bad hold time");
    assert!(parse_workflow("185:60:8", &[]).is_err());
    assert_eq!(temperature_texts(" 1 :2:3,x"), ["1 ", "x"]);
}

#[test]
fn waiting_for_a_temperature() {
    assert!(warm_enough(s(184.0), s(185.0)));
    assert!(warm_enough(s(300.0), s(185.0)));
    assert!(!warm_enough(s(183.9), s(185.0)));
    assert!(!warm_enough(s(f32::NAN), s(185.0)));
    assert_eq!(wait_seconds(None), 300);
    assert_eq!(wait_seconds(Some(5)), 5);
}

#[test]
fn answers_of_the_tools() {
    assert_eq!(target_answer(s(185.0)), "target set to 185.0°C");
    assert_eq!(heater_answer(true), "heater on");
    assert_eq!(pump_answer(false), "pump off");
    assert_eq!(brightness_answer(70), "brightness 70");
    assert_eq!(workflow_answer(3), "workflow complete (3 steps)");
    assert_eq!(wait_timeout_text(s(185.0)), "timed out waiting for 185.0°C");
    assert_eq!(connect_problem(ManagerPhase::FindingAdapter, "x"), "no BLE adapter: x");
    assert_eq!(
        connect_problem(ManagerPhase::Scanning, "x"),
        "no Storz & Bickel device found (is it powered on?): x"
    );
    assert_eq!(connect_problem(ManagerPhase::Connecting, "x"), "connect failed: x");
    let step = WorkflowStep { temperature: s(185.0), hold_time_seconds: 1, pump_time_seconds: 2 };
    let made = workflow_of(&[step, step]);
    assert_eq!(made.name, "mcp");
    assert_eq!(made.steps, [step, step]);
}

#[test]
fn written_workflows_are_read_back() {
    for (temperature, hold, pump) in [(185.0f32, 0u32, 0u32), (40.5, 60, 8), (230.0, u32::MAX, 1)] {
        let read = workflow(&format!("{temperature}:{hold}:{pump}")).unwrap();
        let step = WorkflowStep {
            temperature: s(temperature),
            hold_time_seconds: hold,
            pump_time_seconds: pump,
        };
        assert_eq!(read.steps, [step]);
    }
}
