use storz_rs::error::StorzError;
use storz_rs::single::Single;
use storz_rs::workflow::{
    within_tolerance, Action, Event, Run, Workflow, WorkflowRunner, WorkflowState, WorkflowStep,
};

fn s(x: f32) -> Single {
    Single::from_bits(x.to_bits())
}

fn step(temperature: f32, hold: u32, pump: u32) -> WorkflowStep {
    WorkflowStep { temperature: s(temperature), hold_time_seconds: hold, pump_time_seconds: pump }
}

#[test]
fn test_workflow_builder() {
    let workflow = Workflow::new("Test")
        .add_step(WorkflowStep {
            temperature: s(180.0),
            hold_time_seconds: 10,
            pump_time_seconds: 5,
        })
        .add_step(WorkflowStep {
            temperature: s(200.0),
            hold_time_seconds: 5,
            pump_time_seconds: 10,
        });

    assert_eq!(workflow.name, "Test");
    assert_eq!(workflow.steps.len(), 2);
    assert_eq!(workflow.steps[0].temperature, s(180.0));
    assert_eq!(workflow.steps[1].pump_time_seconds, 10);
}

#[test]
fn test_workflow_step_equality() {
    let a = WorkflowStep {
        temperature: s(185.0),
        hold_time_seconds: 0,
        pump_time_seconds: 5,
    };
    let b = WorkflowStep {
        temperature: s(185.0),
        hold_time_seconds: 0,
        pump_time_seconds: 5,
    };
    assert_eq!(a, b);
}

#[test]
fn test_default_workflows() {
    let mut balloon = Workflow::new("Balloon");
    for temperature in [
        170.0, 175.0, 180.0, 185.0, 190.0, 195.0, 200.0, 205.0, 210.0, 215.0, 220.0,
    ] {
        balloon = balloon.add_step(step(temperature, 0, 5));
    }

    assert_eq!(balloon.steps.len(), 11);
    assert_eq!(balloon.steps[0].temperature, s(170.0));
    assert_eq!(balloon.steps[10].temperature, s(220.0));
}

#[test]
fn test_workflow_state_transitions() {
    let runner = WorkflowRunner::new();
    assert_eq!(runner.state(), WorkflowState::Idle);
    assert_eq!(runner.current_step(), 0);
}

/// One action as a short text, for comparing traces.
fn word(action: &Action) -> String {
    match action {
        Action::SetTarget(t) => format!("target {}", f32::from_bits(t.to_bits())),
        Action::HeaterOn => "heater on".to_string(),
        Action::HeaterOff => "heater off".to_string(),
        Action::PumpOn => "pump on".to_string(),
        Action::PumpOff => "pump off".to_string(),
        Action::ReadTemperature => "read".to_string(),
        Action::Sleep { millis } => format!("sleep {millis}"),
        Action::Finish(Ok(())) => "finish".to_string(),
        Action::Finish(Err(e)) => format!("finish: {}", e.message("")),
    }
}

/// Runs on until the end, with a device whose temperature is always `temperature`.
fn finish(runner: &mut WorkflowRunner, run: &mut Run, mut event: Event, temperature: f32) -> Vec<String> {
    let mut words = Vec::new();
    loop {
        let action = runner.advance(run, event);
        words.push(word(&action));
        event = match action {
            Action::ReadTemperature => Event::Temperature(s(temperature)),
            Action::Finish(_) => return words,
            _ => Event::Done,
        };
    }
}

#[test]
fn run_follows_its_script() {
    let workflow = Workflow::new("w").add_step(step(185.0, 60, 8)).add_step(step(185.5, 0, 0));
    let mut runner = WorkflowRunner::new();
    let mut run = runner.start(&workflow).unwrap();
    assert_eq!(runner.state(), WorkflowState::Running);
    let words = finish(&mut runner, &mut run, Event::Done, 185.0);
    assert_eq!(
        words,
        [
            "target 185", "heater on", "sleep 750", "read", "sleep 60000", "pump on", "sleep 8000",
            "pump off", "target 185.5", "heater on", "sleep 750", "read", "pump off", "heater off",
            "finish",
        ]
    );
    assert_eq!(runner.state(), WorkflowState::Completed);
    assert_eq!(runner.current_step(), 2);
    assert!(!runner.active);
}

#[test]
fn empty_workflow_completes() {
    let mut runner = WorkflowRunner::default();
    let mut run = runner.start(&Workflow::new("none")).unwrap();
    assert_eq!(
        finish(&mut runner, &mut run, Event::Done, 0.0),
        ["pump off", "heater off", "finish"]
    );
    assert_eq!(runner.state(), WorkflowState::Completed);
}

#[test]
fn heated_run_completes() {
    // Each step warms up through readings that fail or are too far off.
    let workflow = Workflow::new("w").add_step(step(50.0, 0, 2)).add_step(step(60.0, 1, 0));
    let mut runner = WorkflowRunner::new();
    let mut run = runner.start(&workflow).unwrap();
    let mut readings = vec![
        Event::Temperature(s(22.0)),
        Event::Failed(StorzError::Timeout),
        Event::Temperature(s(48.9)),
        Event::Temperature(s(49.0)),
        Event::Failed(StorzError::NotConnected),
        Event::Temperature(s(60.5)),
    ]
    .into_iter();
    let mut event = Event::Done;
    let mut words = Vec::new();
    loop {
        let action = runner.advance(&mut run, event);
        words.push(word(&action));
        event = match action {
            Action::ReadTemperature => readings.next().unwrap(),
            Action::Finish(_) => break,
            _ => Event::Done,
        };
    }
    assert_eq!(
        words,
        [
            "target 50", "heater on", "sleep 750", "read", "sleep 1500", "read", "sleep 1500",
            "read", "sleep 1500", "read", "pump on", "sleep 2000", "pump off", "target 60",
            "heater on", "sleep 750", "read", "sleep 1500", "read", "sleep 1000", "pump off",
            "heater off", "finish",
        ]
    );
    assert_eq!(runner.state(), WorkflowState::Completed);
    assert_eq!(runner.current_step(), 2);
}

#[test]
fn temperature_reached_at_the_last_reading_is_in_time() {
    let mut runner = WorkflowRunner::new();
    let mut run = runner.start(&Workflow::new("slow").add_step(step(200.0, 0, 0))).unwrap();
    let mut event = Event::Done;
    let mut reads = 0;
    loop {
        event = match runner.advance(&mut run, event) {
            Action::ReadTemperature => {
                reads += 1;
                Event::Temperature(s(if reads == 200 { 199.0 } else { 100.0 }))
            }
            Action::Finish(r) => {
                assert!(r.is_ok());
                break;
            }
            _ => Event::Done,
        };
    }
    assert_eq!(reads, 200);
    assert_eq!(runner.state(), WorkflowState::Completed);
}

#[test]
fn cold_step_times_out_with_failed_and_distant_readings() {
    let mut runner = WorkflowRunner::new();
    let mut run = runner.start(&Workflow::new("cold").add_step(step(200.0, 5, 5))).unwrap();
    let mut event = Event::Done;
    let mut reads = 0;
    let mut waited = 0;
    let end = loop {
        event = match runner.advance(&mut run, event) {
            Action::ReadTemperature => {
                reads += 1;
                if reads % 3 == 0 {
                    Event::Failed(StorzError::NotConnected)
                } else {
                    Event::Temperature(s(reads as f32 / 2.0))
                }
            }
            Action::Sleep { millis: 1500 } => {
                waited += 1500;
                Event::Done
            }
            Action::Finish(r) => break r,
            _ => Event::Done,
        };
    };
    assert_eq!((reads, waited), (200, 300_000));
    assert_eq!(end.unwrap_err().message(""), "Operation timed out");
    assert_eq!(runner.state(), WorkflowState::Error);
}

#[test]
fn cold_step_waits_five_minutes() {
    let mut runner = WorkflowRunner::new();
    let mut run = runner.start(&Workflow::new("cold").add_step(step(200.0, 5, 5))).unwrap();
    let words = finish(&mut runner, &mut run, Event::Done, 22.0);
    assert_eq!(words.iter().filter(|w| *w == "read").count(), 200);
    assert_eq!(words.iter().filter(|w| *w == "sleep 1500").count() * 1500, 300_000);
    assert_eq!(words[words.len() - 3..], ["pump off", "heater off", "finish: Operation timed out"]);
    assert_eq!(runner.state(), WorkflowState::Error);
    assert_eq!(runner.current_step(), 0);
    assert!(!words.contains(&"pump on".to_string()));
}

#[test]
fn failure_switches_off_and_is_returned() {
    let mut runner = WorkflowRunner::new();
    let mut run = runner.start(&Workflow::new("w").add_step(step(200.0, 0, 5))).unwrap();
    runner.advance(&mut run, Event::Done);
    let words = finish(&mut runner, &mut run, Event::Failed(StorzError::NotConnected), 200.0);
    assert_eq!(words, ["pump off", "heater off", "finish: Not connected to device"]);
    assert_eq!(runner.state(), WorkflowState::Error);
    // After that another run can start.
    assert!(runner.start(&Workflow::new("next")).is_ok());
}

#[test]
fn failed_reading_is_retried() {
    let mut runner = WorkflowRunner::new();
    let mut run = runner.start(&Workflow::new("w").add_step(step(200.0, 0, 0))).unwrap();
    for _ in 0..4 {
        runner.advance(&mut run, Event::Done);
    }
    let action = runner.advance(&mut run, Event::Failed(StorzError::Timeout));
    assert_eq!(word(&action), "sleep 1500");
    assert_eq!(runner.state(), WorkflowState::Running);
}

#[test]
fn stopped_run_ends_without_heating_or_pumping() {
    for steps_before in 0..9 {
        let mut runner = WorkflowRunner::new();
        let workflow = Workflow::new("w").add_step(step(200.0, 3, 3)).add_step(step(210.0, 3, 3));
        let mut run = runner.start(&workflow).unwrap();
        let mut event = Event::Done;
        for _ in 0..steps_before {
            event = match runner.advance(&mut run, event) {
                Action::ReadTemperature => Event::Temperature(s(200.0)),
                _ => Event::Done,
            };
        }
        let switched_off: Vec<String> = runner.stop().iter().map(word).collect();
        assert_eq!(switched_off, ["pump off", "heater off"]);
        let words = finish(&mut runner, &mut run, event, 200.0);
        assert!(words.iter().all(|w| w == "pump off" || w == "finish"), "{words:?}");
        assert_eq!(runner.state(), WorkflowState::Stopped);
        assert!(!runner.active);
    }
}

/// Advances a run so many times on a device at `temperature`, and gives the event to go on with.
fn ahead(runner: &mut WorkflowRunner, run: &mut Run, turns: usize, temperature: f32) -> Event {
    let mut event = Event::Done;
    for _ in 0..turns {
        event = match runner.advance(run, event) {
            Action::ReadTemperature => Event::Temperature(s(temperature)),
            _ => Event::Done,
        };
    }
    event
}

#[test]
fn pause_and_resume() {
    let mut runner = WorkflowRunner::new();
    runner.pause();
    assert_eq!(runner.state(), WorkflowState::Idle);
    let workflow = Workflow::new("w").add_step(step(200.0, 5, 3)).add_step(step(210.0, 0, 0));
    let mut run = runner.start(&workflow).unwrap();
    assert_eq!(
        runner.start(&workflow).unwrap_err().message(""),
        "Parse error: Workflow already running"
    );
    let event = ahead(&mut runner, &mut run, 1, 200.0);
    runner.pause();
    assert_eq!(runner.state(), WorkflowState::Paused);
    // The step in progress is finished without waiting, and no other is started.
    assert_eq!(
        finish(&mut runner, &mut run, event, 22.0),
        ["heater on", "sleep 750", "sleep 5000", "pump on", "sleep 3000", "pump off", "finish"]
    );
    assert_eq!((runner.state(), runner.current_step()), (WorkflowState::Paused, 0));
    runner.resume();
    assert_eq!(runner.state(), WorkflowState::Running);
    // A resumed workflow is run again with what remains.
    assert!(runner.start(&workflow).is_ok());
    runner.resume();
    assert_eq!(runner.state(), WorkflowState::Running);
}

#[test]
fn pause_while_waiting_or_holding_lets_the_step_pump() {
    let workflow = Workflow::new("w").add_step(step(200.0, 5, 3)).add_step(step(210.0, 0, 0));
    // Five turns: the pause after a reading that is too far off. The same turns on a warm device
    // lead to the hold.
    let mut runner = WorkflowRunner::new();
    let mut run = runner.start(&workflow).unwrap();
    let event = ahead(&mut runner, &mut run, 5, 100.0);
    runner.pause();
    assert_eq!(
        finish(&mut runner, &mut run, event, 100.0),
        ["sleep 5000", "pump on", "sleep 3000", "pump off", "finish"]
    );
    let mut runner = WorkflowRunner::new();
    let mut run = runner.start(&workflow).unwrap();
    let event = ahead(&mut runner, &mut run, 5, 200.0);
    runner.pause();
    assert_eq!(
        finish(&mut runner, &mut run, event, 200.0),
        ["pump on", "sleep 3000", "pump off", "finish"]
    );
    assert_eq!(runner.state(), WorkflowState::Paused);
    assert!(!runner.active);
}

#[test]
fn pause_in_the_last_step_completes() {
    let mut runner = WorkflowRunner::new();
    let mut run = runner.start(&Workflow::new("w").add_step(step(200.0, 0, 3))).unwrap();
    let event = ahead(&mut runner, &mut run, 3, 100.0);
    runner.pause();
    assert_eq!(
        finish(&mut runner, &mut run, event, 100.0),
        ["pump on", "sleep 3000", "pump off", "pump off", "heater off", "finish"]
    );
    assert_eq!((runner.state(), runner.current_step()), (WorkflowState::Completed, 1));
}

#[test]
fn pause_before_the_first_step_ends_the_run() {
    let mut runner = WorkflowRunner::new();
    let mut run = runner.start(&Workflow::new("w").add_step(step(200.0, 0, 3))).unwrap();
    runner.pause();
    assert_eq!(finish(&mut runner, &mut run, Event::Done, 200.0), ["finish"]);
    assert_eq!(runner.state(), WorkflowState::Paused);
}

#[test]
fn resume_in_time_goes_on_with_the_same_run() {
    let workflow = Workflow::new("w").add_step(step(200.0, 0, 0)).add_step(step(200.5, 0, 0));
    let mut runner = WorkflowRunner::new();
    let mut run = runner.start(&workflow).unwrap();
    let event = ahead(&mut runner, &mut run, 3, 200.0);
    runner.pause();
    runner.resume();
    let words = finish(&mut runner, &mut run, event, 200.0);
    assert_eq!(words[..2], ["read", "target 200.5"]);
    assert_eq!(runner.state(), WorkflowState::Completed);
}

#[test]
fn run_that_was_dropped_can_be_stopped_and_followed() {
    let workflow = Workflow::new("w").add_step(step(200.0, 0, 0));
    let mut runner = WorkflowRunner::new();
    let mut dropped = runner.start(&workflow).unwrap();
    ahead(&mut runner, &mut dropped, 2, 200.0);
    drop(dropped);
    assert!(runner.start(&workflow).is_err());
    runner.stop();
    assert_eq!(runner.state(), WorkflowState::Stopped);
    let mut run = runner.start(&workflow).unwrap();
    finish(&mut runner, &mut run, Event::Done, 200.0);
    assert_eq!((runner.state(), runner.current_step()), (WorkflowState::Completed, 1));
    // The same after a pause.
    let dropped = runner.start(&workflow).unwrap();
    drop(dropped);
    runner.pause();
    assert!(runner.start(&workflow).is_ok());
}

#[test]
fn superseded_run_gives_way() {
    let workflow = Workflow::new("w").add_step(step(200.0, 2, 3)).add_step(step(210.0, 2, 3));
    for turns in 0..12 {
        let mut runner = WorkflowRunner::new();
        let mut old = runner.start(&workflow).unwrap();
        let event = ahead(&mut runner, &mut old, turns, 200.0);
        runner.stop();
        let mut new = runner.start(&workflow).unwrap();
        let next = ahead(&mut runner, &mut new, 2, 200.0);
        let words = finish(&mut runner, &mut old, event, 200.0);
        assert!(words == ["finish"] || words == ["pump off", "finish"], "{words:?}");
        // The runner is the new run's alone.
        assert_eq!((runner.state(), runner.current_step()), (WorkflowState::Running, 0));
        assert!(runner.active);
        assert!(runner.start(&workflow).is_err());
        assert_eq!(word(&runner.advance(&mut new, next)), "sleep 750");
    }
}

#[test]
fn superseded_run_still_returns_its_error() {
    let workflow = Workflow::new("w").add_step(step(200.0, 0, 3));
    let mut runner = WorkflowRunner::new();
    let mut old = runner.start(&workflow).unwrap();
    ahead(&mut runner, &mut old, 2, 200.0);
    runner.advance(&mut old, Event::Failed(StorzError::NotConnected));
    assert_eq!(runner.state(), WorkflowState::Error);
    let _new = runner.start(&workflow).unwrap();
    assert_eq!(
        finish(&mut runner, &mut old, Event::Done, 200.0),
        ["finish: Not connected to device"]
    );
    assert_eq!(runner.state(), WorkflowState::Running);
}

#[test]
fn tolerance_is_one_degree() {
    assert!(within_tolerance(s(199.0), s(200.0)));
    assert!(within_tolerance(s(201.0), s(200.0)));
    assert!(!within_tolerance(s(198.9), s(200.0)));
    assert!(!within_tolerance(s(201.1), s(200.0)));
    assert!(!within_tolerance(s(f32::NAN), s(200.0)));
}
