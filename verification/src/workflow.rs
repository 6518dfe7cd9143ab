//! Automated workflow execution for Volcano Hybrid.
//!
//! A workflow is a sequence of steps, each specifying a target temperature,
//! a hold time, and a pump duration. The runner decides what the device is told
//! next; whoever owns the device does it and reports back what came of it.
use crate::error::Detail;
use crate::error::StorzError;
use crate::single::Single;
use vstd::prelude::*;
use vstd::string::*;

verus! {

/// A single step in a workflow.
#[derive(Debug, Clone, Copy, PartialEq, Eq, Structural)]
pub struct WorkflowStep {
    /// Target temperature in Celsius.
    pub temperature: Single,
    /// Seconds to hold at target temperature before pumping.
    pub hold_time_seconds: u32,
    /// Seconds to run the pump.
    pub pump_time_seconds: u32,
}

/// A named workflow consisting of multiple steps.
#[derive(Debug, PartialEq, Eq)]
pub struct Workflow {
    /// Human-readable name.
    pub name: String,
    /// Ordered list of steps.
    pub steps: Vec<WorkflowStep>,
}

/// The same steps once more.
fn copied_steps(steps: &Vec<WorkflowStep>) -> (r: Vec<WorkflowStep>)
    ensures
        r@ == steps@,
{
    let mut out: Vec<WorkflowStep> = Vec::new();
    let mut i: usize = 0;
    while i < steps.len()
        invariant
            i <= steps@.len(),
            out@ == steps@.take(i as int),
        decreases steps@.len() - i,
    {
        out.push(steps[i]);
        i = i + 1;
    }
    assert(steps@.take(steps@.len() as int) == steps@);
    out
}

impl Clone for Workflow {
    fn clone(&self) -> (r: Self)
        ensures
            r.name@ == self.name@,
            r.steps@ == self.steps@,
    {
        Workflow { name: self.name.clone(), steps: copied_steps(&self.steps) }
    }
}

impl Workflow {
    /// Create a new workflow with the given name.
    pub fn new(name: &str) -> (r: Self)
        ensures
            r.name@ == name@,
            r.steps@ == Seq::<WorkflowStep>::empty(),
    {
        Workflow { name: name.to_owned(), steps: Vec::new() }
    }

    /// Add a step to the workflow.
    pub fn add_step(self, step: WorkflowStep) -> (r: Self)
        ensures
            r.name@ == self.name@,
            r.steps@ == self.steps@.push(step),
    {
        let mut steps = self.steps;
        steps.push(step);
        Workflow { name: self.name, steps }
    }
}

/// State of a running workflow.
#[derive(Debug, Clone, Copy, PartialEq, Eq, Structural)]
pub enum WorkflowState {
    /// Workflow is not running.
    Idle,
    /// Workflow is executing a step.
    Running,
    /// Workflow is paused.
    Paused,
    /// Workflow completed successfully.
    Completed,
    /// Workflow was stopped.
    Stopped,
    /// Workflow encountered an error.
    Error,
}

/// Time that the heater is given before the temperature is first read.
pub const SETTLE_MILLIS: u64 = 750;

/// Time between two readings of the temperature.
pub const POLL_INTERVAL_MILLIS: u64 = 1500;

/// Readings after which a step gives up.
pub const MAX_POLLS: u64 = 200;

/// How near to the target counts as reached: 1 degree, as the bits of a single.
pub const TOLERANCE: u32 = 0x3f80_0000;

/// What the device is told, or what else happens next.
#[derive(Debug)]
pub enum Action {
    SetTarget(Single),
    HeaterOn,
    HeaterOff,
    PumpOn,
    PumpOff,
    ReadTemperature,
    Sleep { millis: u64 },
    /// The run is over.
    Finish(Result<(), StorzError>),
}

/// What came of the last action.
#[derive(Debug)]
pub enum Event {
    Done,
    Temperature(Single),
    Failed(StorzError),
}

/// Where a run stands: what it waits for.
#[derive(Debug, Clone, Copy, PartialEq, Eq, Structural)]
pub enum Phase {
    /// Before a step.
    Ready,
    Targeting,
    Heating,
    Settling,
    Reading,
    Polling,
    Holding,
    PumpStarting,
    Pumping,
    PumpStopping,
    FailingPump,
    FailingHeater,
    CompletingPump,
    CompletingHeater,
    Finished,
}

/// Executes workflows on a vaporizer device, one at a time.
#[derive(Debug)]
pub struct WorkflowRunner {
    pub state: WorkflowState,
    pub current_step: usize,
    /// The latest run is not over.
    pub active: bool,
    /// The number of the latest run.
    pub number: u64,
}

/// A run of a workflow.
#[derive(Debug)]
pub struct Run {
    /// By this number its runner tells it from later runs.
    pub number: u64,
    pub steps: Vec<WorkflowStep>,
    pub index: usize,
    pub phase: Phase,
    /// Readings that the current step has waited.
    pub polls: u64,
    pub failure: Option<StorzError>,
}

/// An action with its error as a value.
pub enum ActionView {
    SetTarget(Single),
    HeaterOn,
    HeaterOff,
    PumpOn,
    PumpOff,
    ReadTemperature,
    Sleep { millis: u64 },
    Finish(Option<crate::error::Failure>),
}

impl View for Action {
    type V = ActionView;

    open spec fn view(&self) -> ActionView {
        match *self {
            Action::SetTarget(t) => ActionView::SetTarget(t),
            Action::HeaterOn => ActionView::HeaterOn,
            Action::HeaterOff => ActionView::HeaterOff,
            Action::PumpOn => ActionView::PumpOn,
            Action::PumpOff => ActionView::PumpOff,
            Action::ReadTemperature => ActionView::ReadTemperature,
            Action::Sleep { millis } => ActionView::Sleep { millis },
            Action::Finish(r) => match r {
                Ok(_) => ActionView::Finish(None),
                Err(e) => ActionView::Finish(Some(e@)),
            },
        }
    }
}

/// An event with its error as a value.
pub enum EventView {
    Done,
    Temperature(Single),
    Failed(crate::error::Failure),
}

impl View for Event {
    type V = EventView;

    open spec fn view(&self) -> EventView {
        match *self {
            Event::Done => EventView::Done,
            Event::Temperature(t) => EventView::Temperature(t),
            Event::Failed(e) => EventView::Failed(e@),
        }
    }
}

/// A runner and its run, as values.
pub struct Machine {
    pub state: WorkflowState,
    pub current_step: nat,
    pub active: bool,
    /// The number of the runner's latest run.
    pub latest: u64,
    /// The number of this run.
    pub number: u64,
    pub steps: Seq<WorkflowStep>,
    pub index: nat,
    pub phase: Phase,
    pub polls: nat,
    pub failure: Option<crate::error::Failure>,
}

/// The machine that a runner and a run are.
pub open spec fn machine(runner: WorkflowRunner, run: Run) -> Machine {
    Machine {
        state: runner.state,
        current_step: runner.current_step as nat,
        active: runner.active,
        latest: runner.number,
        number: run.number,
        steps: run.steps@,
        index: run.index as nat,
        phase: run.phase,
        polls: run.polls as nat,
        failure: match run.failure {
            Some(e) => Some(e@),
            None => None,
        },
    }
}

/// The temperature is within a degree of the target.
pub open spec fn reached(current: Single, target: Single) -> bool {
    current.difference(target).absolute().le(Single { bits: TOLERANCE })
}

impl Machine {
    /// The run stands at one of its steps wherever it deals with one.
    pub open spec fn wf(self) -> bool {
        &&& self.index <= self.steps.len()
        &&& self.polls < MAX_POLLS
        &&& in_step(self.phase) ==> self.index < self.steps.len()
        &&& (self.phase == Phase::FailingPump || self.phase == Phase::FailingHeater) ==> self.failure
            is Some
    }

    /// No other run was started since.
    pub open spec fn is_latest(self) -> bool {
        self.number == self.latest
    }

    /// The machine after another number of readings.
    pub open spec fn at_polls(self, polls: nat) -> Machine {
        Machine { polls, ..self }
    }

    /// The step that the run is at.
    pub open spec fn step(self) -> WorkflowStep {
        self.steps[self.index as int]
    }

    /// The run is over, well or badly.
    pub open spec fn finish(self, failure: Option<crate::error::Failure>) -> (Machine, ActionView) {
        (
            Machine { phase: Phase::Finished, active: false, failure: None, ..self },
            ActionView::Finish(failure),
        )
    }

    /// Something failed: the pump and the heater are switched off first.
    pub open spec fn fail(self, failure: crate::error::Failure) -> (Machine, ActionView) {
        (
            Machine {
                state: WorkflowState::Error,
                phase: Phase::FailingPump,
                failure: Some(failure),
                ..self
            },
            ActionView::PumpOff,
        )
    }

    /// Start of the step at `index`, unless the run is paused, or the end of the workflow.
    pub open spec fn enter(self) -> (Machine, ActionView) {
        if self.index < self.steps.len() && self.state != WorkflowState::Running {
            self.finish(None)
        } else if self.index < self.steps.len() {
            (
                Machine {
                    current_step: self.index,
                    phase: Phase::Targeting,
                    polls: 0,
                    ..self
                },
                ActionView::SetTarget(self.step().temperature),
            )
        } else {
            (Machine { phase: Phase::CompletingPump, ..self }, ActionView::PumpOff)
        }
    }

    /// The pump's turn in a step, if it has one.
    pub open spec fn pump(self) -> (Machine, ActionView) {
        if self.step().pump_time_seconds > 0 {
            (Machine { phase: Phase::PumpStarting, ..self }, ActionView::PumpOn)
        } else {
            (Machine { index: self.index + 1, ..self }).enter()
        }
    }

    /// The waiting for the temperature is over.
    pub open spec fn hold(self) -> (Machine, ActionView) {
        if self.step().hold_time_seconds > 0 {
            (
                Machine { phase: Phase::Holding, ..self },
                ActionView::Sleep { millis: (self.step().hold_time_seconds * 1000) as u64 },
            )
        } else {
            self.pump()
        }
    }

    /// The temperature is read, unless the run is paused: then the step does not wait for it.
    pub open spec fn read(self) -> (Machine, ActionView) {
        if self.state == WorkflowState::Running {
            (Machine { phase: Phase::Reading, ..self }, ActionView::ReadTemperature)
        } else {
            self.hold()
        }
    }

    /// The next action of a run that nobody stopped, once the last one is done.
    pub open spec fn proceed(self, event: EventView) -> (Machine, ActionView) {
        match self.phase {
            Phase::Ready => self.enter(),
            Phase::Targeting => (Machine { phase: Phase::Heating, ..self }, ActionView::HeaterOn),
            Phase::Heating => (
                Machine { phase: Phase::Settling, ..self },
                ActionView::Sleep { millis: SETTLE_MILLIS },
            ),
            Phase::Settling => self.read(),
            Phase::Reading => {
                if event matches EventView::Temperature(t) && reached(t, self.step().temperature) {
                    self.hold()
                } else {
                    (
                        Machine { phase: Phase::Polling, ..self },
                        ActionView::Sleep { millis: POLL_INTERVAL_MILLIS },
                    )
                }
            },
            Phase::Polling => {
                if self.polls + 1 >= MAX_POLLS {
                    self.fail(crate::error::Failure::Timeout)
                } else {
                    self.at_polls(self.polls + 1).read()
                }
            },
            Phase::Holding => self.pump(),
            Phase::PumpStarting => (
                Machine { phase: Phase::Pumping, ..self },
                ActionView::Sleep { millis: (self.step().pump_time_seconds * 1000) as u64 },
            ),
            Phase::Pumping => (
                Machine { phase: Phase::PumpStopping, ..self },
                ActionView::PumpOff,
            ),
            Phase::PumpStopping => (Machine { index: self.index + 1, ..self }).enter(),
            _ => self.clean_up(),
        }
    }

    /// The end of a run that failed or completed, whatever comes of switching off.
    pub open spec fn clean_up(self) -> (Machine, ActionView) {
        match self.phase {
            Phase::FailingPump => (
                Machine { phase: Phase::FailingHeater, ..self },
                ActionView::HeaterOff,
            ),
            Phase::FailingHeater => self.finish(self.failure),
            Phase::CompletingPump => (
                Machine { phase: Phase::CompletingHeater, ..self },
                ActionView::HeaterOff,
            ),
            Phase::CompletingHeater => (Machine {
                state: WorkflowState::Completed,
                current_step: self.steps.len(),
                ..self
            }).finish(None),
            _ => self.finish(None),
        }
    }

    /// What a stopped run does: the pump is switched off if it may be on, then the run is over.
    pub open spec fn wind_down(self) -> (Machine, ActionView) {
        if self.phase == Phase::PumpStarting || self.phase == Phase::Pumping {
            (Machine { phase: Phase::PumpStopping, ..self }, ActionView::PumpOff)
        } else {
            self.finish(None)
        }
    }

    /// What a run does once another one was started: the pump is switched off if it may be on,
    /// then the run is over. The runner belongs to the other run.
    pub open spec fn give_way(self) -> (Machine, ActionView) {
        if self.phase == Phase::PumpStarting || self.phase == Phase::Pumping {
            (Machine { phase: Phase::PumpStopping, ..self }, ActionView::PumpOff)
        } else {
            (
                Machine { phase: Phase::Finished, failure: None, ..self },
                ActionView::Finish(self.failure),
            )
        }
    }

    /// The next action after an event.
    pub open spec fn next(self, event: EventView) -> (Machine, ActionView) {
        if !self.is_latest() {
            self.give_way()
        } else if !in_step(self.phase) && self.phase != Phase::Ready {
            self.clean_up()
        } else if event is Failed && self.phase != Phase::Reading {
            self.fail(event->Failed_0)
        } else if self.state == WorkflowState::Stopped {
            self.wind_down()
        } else {
            self.proceed(event)
        }
    }
}

/// The run deals with a step.
pub open spec fn in_step(phase: Phase) -> bool {
    match phase {
        Phase::Targeting
        | Phase::Heating
        | Phase::Settling
        | Phase::Reading
        | Phase::Polling
        | Phase::Holding
        | Phase::PumpStarting
        | Phase::Pumping
        | Phase::PumpStopping => true,
        _ => false,
    }
}

impl WorkflowRunner {
    /// Create a new workflow runner.
    pub fn new() -> (r: Self)
        ensures
            r.state == WorkflowState::Idle,
            r.current_step == 0,
            !r.active,
            r.number == 0,
    {
        WorkflowRunner { state: WorkflowState::Idle, current_step: 0, active: false, number: 0 }
    }

    /// Get the current workflow state.
    pub fn state(&self) -> (r: WorkflowState)
        ensures
            r == self.state,
    {
        self.state
    }

    /// Get the current step index (0-based).
    pub fn current_step(&self) -> (r: usize)
        ensures
            r == self.current_step,
    {
        self.current_step
    }

    /// Start a run of a workflow, unless one is running. A run that was paused or stopped and is
    /// not over yet gives way to the new one.
    ///
    /// The run then goes through all steps in their order. Each step:
    /// 1. Sets the target temperature
    /// 2. Turns on the heater if needed
    /// 3. Waits until temperature is reached (within ±1°C)
    /// 4. Holds at temperature for the hold duration
    /// 5. Activates the pump for the pump duration
    ///
    /// The run can be stopped at any time by calling [`stop`](Self::stop).
    pub fn start(&mut self, workflow: &Workflow) -> (r: Result<Run, StorzError>)
        ensures
            r is Err <==> old(self).active && old(self).state == WorkflowState::Running,
            r matches Err(e) ==> e@ == crate::error::unparsed(
                "Workflow already running"@,
            ) && *final(self) == *old(self),
            r matches Ok(run) ==> machine(*final(self), run) == (Machine {
                state: WorkflowState::Running,
                current_step: 0,
                active: true,
                latest: old(self).number.wrapping_add(1),
                number: old(self).number.wrapping_add(1),
                steps: workflow.steps@,
                index: 0,
                phase: Phase::Ready,
                polls: 0,
                failure: None,
            }),
            r matches Ok(run) ==> machine(*final(self), run).wf(),
    {
        if self.active && self.state == WorkflowState::Running {
            return Err(StorzError::ParseError(Detail::Text("Workflow already running".to_owned())));
        }
        self.state = WorkflowState::Running;
        self.current_step = 0;
        self.active = true;
        self.number = self.number.wrapping_add(1);
        let number = self.number;
        let steps = copied_steps(&workflow.steps);
        Ok(Run { number, steps, index: 0, phase: Phase::Ready, polls: 0, failure: None })
    }

    fn finish(&mut self, run: &mut Run) -> (r: Action)
        requires
            machine(*old(self), *old(run)).wf(),
        ensures
            (machine(*final(self), *final(run)), r@) ==
                machine(*old(self), *old(run)).finish(machine(*old(self), *old(run)).failure),
    {
        run.phase = Phase::Finished;
        self.active = false;
        match run.failure.take() {
            Some(e) => Action::Finish(Err(e)),
            None => Action::Finish(Ok(())),
        }
    }

    fn give_up(&mut self, run: &mut Run) -> (r: Action)
        requires
            machine(*old(self), *old(run)).wf(),
        ensures
            (machine(*final(self), *final(run)), r@) == machine(*old(self), *old(run)).finish(None),
    {
        run.phase = Phase::Finished;
        run.failure = None;
        self.active = false;
        Action::Finish(Ok(()))
    }

    fn fail(&mut self, run: &mut Run, e: StorzError) -> (r: Action)
        requires
            machine(*old(self), *old(run)).wf(),
        ensures
            (machine(*final(self), *final(run)), r@) == machine(*old(self), *old(run)).fail(e@),
    {
        self.state = WorkflowState::Error;
        run.phase = Phase::FailingPump;
        run.failure = Some(e);
        Action::PumpOff
    }

    fn enter(&mut self, run: &mut Run) -> (r: Action)
        requires
            machine(*old(self), *old(run)).wf(),
        ensures
            (machine(*final(self), *final(run)), r@) == machine(*old(self), *old(run)).enter(),
    {
        if run.index < run.steps.len() {
            if self.state != WorkflowState::Running {
                return self.give_up(run);
            }
            let step = run.steps[run.index];
            self.current_step = run.index;
            run.phase = Phase::Targeting;
            run.polls = 0;
            Action::SetTarget(step.temperature)
        } else {
            run.phase = Phase::CompletingPump;
            Action::PumpOff
        }
    }

    fn next_step(&mut self, run: &mut Run) -> (r: Action)
        requires
            machine(*old(self), *old(run)).wf(),
            old(run).index < old(run).steps@.len(),
        ensures
            (machine(*final(self), *final(run)), r@) == (Machine {
                    index: (old(run).index + 1) as nat,
                    ..machine(*old(self), *old(run))
                }).enter(),
    {
        let count: usize = run.steps.len();
        assert(run.index < count);
        run.index = run.index + 1;
        // Between two steps the run is at neither.
        run.phase = Phase::Ready;
        self.enter(run)
    }

    fn pump(&mut self, run: &mut Run) -> (r: Action)
        requires
            machine(*old(self), *old(run)).wf(),
            old(run).index < old(run).steps@.len(),
        ensures
            (machine(*final(self), *final(run)), r@) == machine(*old(self), *old(run)).pump(),
    {
        let step = run.steps[run.index];
        if step.pump_time_seconds > 0 {
            run.phase = Phase::PumpStarting;
            Action::PumpOn
        } else {
            self.next_step(run)
        }
    }

    fn hold(&mut self, run: &mut Run) -> (r: Action)
        requires
            machine(*old(self), *old(run)).wf(),
            old(run).index < old(run).steps@.len(),
        ensures
            (machine(*final(self), *final(run)), r@) == machine(*old(self), *old(run)).hold(),
    {
        let step = run.steps[run.index];
        if step.hold_time_seconds > 0 {
            run.phase = Phase::Holding;
            Action::Sleep { millis: step.hold_time_seconds as u64 * 1000 }
        } else {
            self.pump(run)
        }
    }

    fn read(&mut self, run: &mut Run) -> (r: Action)
        requires
            machine(*old(self), *old(run)).wf(),
            old(run).index < old(run).steps@.len(),
        ensures
            (machine(*final(self), *final(run)), r@) == machine(*old(self), *old(run)).read(),
    {
        if self.state == WorkflowState::Running {
            run.phase = Phase::Reading;
            Action::ReadTemperature
        } else {
            self.hold(run)
        }
    }

    fn clean_up(&mut self, run: &mut Run) -> (r: Action)
        requires
            machine(*old(self), *old(run)).wf(),
        ensures
            (machine(*final(self), *final(run)), r@) == machine(*old(self), *old(run)).clean_up(),
    {
        match run.phase {
            Phase::FailingPump => {
                run.phase = Phase::FailingHeater;
                Action::HeaterOff
            },
            Phase::FailingHeater => self.finish(run),
            Phase::CompletingPump => {
                run.phase = Phase::CompletingHeater;
                Action::HeaterOff
            },
            Phase::CompletingHeater => {
                self.state = WorkflowState::Completed;
                self.current_step = run.steps.len();
                self.give_up(run)
            },
            _ => self.give_up(run),
        }
    }

    fn proceed(&mut self, run: &mut Run, reading: Option<Single>) -> (r: Action)
        requires
            machine(*old(self), *old(run)).wf(),
            in_step(old(run).phase) || old(run).phase == Phase::Ready,
        ensures
            (machine(*final(self), *final(run)), r@) == machine(*old(self), *old(run)).proceed(
                    match reading {
                        Some(t) => EventView::Temperature(t),
                        None => EventView::Done,
                    },
                ),
    {
        match run.phase {
            Phase::Ready => self.enter(run),
            Phase::Targeting => {
                run.phase = Phase::Heating;
                Action::HeaterOn
            },
            Phase::Heating => {
                run.phase = Phase::Settling;
                Action::Sleep { millis: SETTLE_MILLIS }
            },
            Phase::Settling => self.read(run),
            Phase::Reading => {
                let step = run.steps[run.index];
                let there = match reading {
                    Some(t) => within_tolerance(t, step.temperature),
                    None => false,
                };
                if there {
                    self.hold(run)
                } else {
                    run.phase = Phase::Polling;
                    Action::Sleep { millis: POLL_INTERVAL_MILLIS }
                }
            },
            Phase::Polling => {
                if run.polls + 1 >= MAX_POLLS {
                    self.fail(run, StorzError::Timeout)
                } else {
                    run.polls = run.polls + 1;
                    self.read(run)
                }
            },
            Phase::Holding => self.pump(run),
            Phase::PumpStarting => {
                let step = run.steps[run.index];
                run.phase = Phase::Pumping;
                Action::Sleep { millis: step.pump_time_seconds as u64 * 1000 }
            },
            Phase::Pumping => {
                run.phase = Phase::PumpStopping;
                Action::PumpOff
            },
            Phase::PumpStopping => self.next_step(run),
            _ => self.clean_up(run),
        }
    }

    fn give_way(&self, run: &mut Run) -> (r: Action)
        ensures
            (machine(*self, *final(run)), r@) == machine(*self, *old(run)).give_way(),
    {
        if run.phase == Phase::PumpStarting || run.phase == Phase::Pumping {
            run.phase = Phase::PumpStopping;
            return Action::PumpOff;
        }
        run.phase = Phase::Finished;
        match run.failure.take() {
            Some(e) => Action::Finish(Err(e)),
            None => Action::Finish(Ok(())),
        }
    }

    /// Takes in what came of the last action of a run and says what to do next. A fresh run
    /// starts with [`Event::Done`]. A run that is not the latest one only switches its pump off,
    /// and changes nothing in the runner.
    pub fn advance(&mut self, run: &mut Run, event: Event) -> (r: Action)
        requires
            machine(*old(self), *old(run)).wf(),
        ensures
            machine(*final(self), *final(run)) == machine(*old(self), *old(run)).next(event@).0,
            r@ == machine(*old(self), *old(run)).next(event@).1,
            machine(*final(self), *final(run)).wf(),
    {
        if run.number != self.number {
            return self.give_way(run);
        }
        match run.phase {
            Phase::FailingPump
            | Phase::FailingHeater
            | Phase::CompletingPump
            | Phase::CompletingHeater
            | Phase::Finished => {
                return self.clean_up(run);
            },
            _ => {},
        }
        let reading: Option<Single> = match event {
            Event::Done => None,
            Event::Temperature(t) => Some(t),
            Event::Failed(e) => {
                if run.phase != Phase::Reading {
                    return self.fail(run, e);
                }
                None
            },
        };
        if self.state == WorkflowState::Stopped {
            if run.phase == Phase::PumpStarting || run.phase == Phase::Pumping {
                run.phase = Phase::PumpStopping;
                return Action::PumpOff;
            }
            return self.give_up(run);
        }
        self.proceed(run, reading)
    }

    /// Pause the currently running workflow. The step in progress is finished, without waiting
    /// for its temperature any longer, and no other step is started.
    pub fn pause(&mut self)
        ensures
            final(self).state == if old(self).state == WorkflowState::Running {
                WorkflowState::Paused
            } else {
                old(self).state
            },
            final(self).current_step == old(self).current_step,
            final(self).active == old(self).active,
            final(self).number == old(self).number,
    {
        if self.state == WorkflowState::Running {
            self.state = WorkflowState::Paused;
        }
    }

    /// Resume a paused workflow.
    ///
    /// Note: This resets the state to Running. The caller should start a run
    /// again with the remaining steps.
    pub fn resume(&mut self)
        ensures
            final(self).state == if old(self).state == WorkflowState::Paused {
                WorkflowState::Running
            } else {
                old(self).state
            },
            final(self).current_step == old(self).current_step,
            final(self).active == old(self).active,
            final(self).number == old(self).number,
    {
        if self.state == WorkflowState::Paused {
            self.state = WorkflowState::Running;
        }
    }

    /// Stop the currently running workflow; the actions are to be taken whatever comes of
    /// them.
    pub fn stop(&mut self) -> (r: Vec<Action>)
        ensures
            final(self).state == WorkflowState::Stopped,
            final(self).current_step == old(self).current_step,
            final(self).active == old(self).active,
            final(self).number == old(self).number,
            r@.len() == 2,
            r@[0]@ == ActionView::PumpOff,
            r@[1]@ == ActionView::HeaterOff,
    {
        self.state = WorkflowState::Stopped;
        let mut out: Vec<Action> = Vec::new();
        out.push(Action::PumpOff);
        out.push(Action::HeaterOff);
        out
    }
}

impl Default for WorkflowRunner {
    fn default() -> (r: Self)
        ensures
            r.state == WorkflowState::Idle,
            r.current_step == 0,
            !r.active,
            r.number == 0,
    {
        WorkflowRunner::new()
    }
}

/// Whether a temperature is within a degree of the target.
pub fn within_tolerance(current: Single, target: Single) -> (r: bool)
    ensures
        r == reached(current, target),
{
    current.minus(target).abs().at_most(Single::from_bits(TOLERANCE))
}

} // verus!
