//! The `volcano` command line: what each command asks of the device, and what it reports.
use crate::shown::one_decimal_text;
use crate::single::Single;
use crate::text::decimal_text;
use crate::text::joined;
use crate::text::joined3;
use crate::text::parse_unsigned;
use crate::text::same_text;
use vstd::prelude::*;
use vstd::string::*;

verus! {

/// A command of the user.
#[derive(Debug)]
pub enum Command {
    /// Show a state snapshot (temperatures, heater, pump)
    Status,
    /// Show the temperatures
    ShowTemp,
    /// Set the target temperature in °C
    SetTemp(Single),
    /// Heater control
    Heat { on: bool },
    /// Pump control (Volcano only)
    Pump { on: bool },
    /// Run the pump for a fixed duration, e.g. to fill a bag
    Fill { seconds: u64, pulse: Option<u64>, rest: u64 },
    /// Stream live state updates until interrupted
    Watch,
    /// Show device info (serial, firmware, heating hours)
    Info,
    /// Set display brightness (0-100)
    Brightness(u16),
    /// Vibration on touch
    Vibration { on: bool },
    /// Set the auto-shutoff time in seconds
    Shutoff(u16),
    /// Set the displayed temperature unit
    Unit { unit: String },
    /// Show the device's settings, or set one
    Config { key: Option<String>, value: Option<String> },
    /// Run a workflow
    Workflow { steps: String },
    /// Wait until the current temperature reaches the target (or a given temperature)
    WaitTemp { celsius: Option<Single> },
}

/// Something that the device is told.
#[derive(Debug, Clone, Copy, PartialEq, Eq, Structural)]
pub enum Call {
    SetTarget(Single),
    Heater(bool),
    Pump(bool),
    Brightness(u16),
    Vibration(bool),
    Shutoff(u16),
    Unit { celsius: bool },
    DisplayOnCooling(bool),
}

/// What a command comes to.
#[derive(Debug)]
pub enum Plan {
    ShowStatus,
    ShowTemperatures,
    /// Tell the device something, then report it.
    Tell { call: Call, report: String },
    Pump(Fill),
    Watch,
    ShowInfo,
    ShowConfig,
    RunWorkflow { steps: String },
    Wait { celsius: Option<Single> },
    /// The command makes no sense.
    Refuse { reason: String },
}

/// A plan as a value.
pub enum PlanView {
    ShowStatus,
    ShowTemperatures,
    Tell { call: Call, report: Seq<char> },
    Pump(Fill),
    Watch,
    ShowInfo,
    ShowConfig,
    RunWorkflow { steps: Seq<char> },
    Wait { celsius: Option<Single> },
    Refuse { reason: Seq<char> },
}

impl View for Plan {
    type V = PlanView;

    open spec fn view(&self) -> PlanView {
        match *self {
            Plan::ShowStatus => PlanView::ShowStatus,
            Plan::ShowTemperatures => PlanView::ShowTemperatures,
            Plan::Tell { call, report } => PlanView::Tell { call, report: report@ },
            Plan::Pump(fill) => PlanView::Pump(fill),
            Plan::Watch => PlanView::Watch,
            Plan::ShowInfo => PlanView::ShowInfo,
            Plan::ShowConfig => PlanView::ShowConfig,
            Plan::RunWorkflow { steps } => PlanView::RunWorkflow { steps: steps@ },
            Plan::Wait { celsius } => PlanView::Wait { celsius },
            Plan::Refuse { reason } => PlanView::Refuse { reason: reason@ },
        }
    }
}

/// On or off.
pub open spec fn on_off(on: bool) -> Seq<char> {
    if on {
        "on"@
    } else {
        "off"@
    }
}

/// Writes on or off.
pub fn on_off_text(on: bool) -> (r: &'static str)
    ensures
        r@ == on_off(on),
{
    if on {
        "on"
    } else {
        "off"
    }
}

/// The truth value that a setting's value stands for.
pub open spec fn flag_of(value: Seq<char>) -> Option<bool> {
    if value == "on"@ || value == "true"@ || value == "yes"@ {
        Some(true)
    } else if value == "off"@ || value == "false"@ || value == "no"@ {
        Some(false)
    } else {
        None
    }
}

/// The words for a value that is neither on nor off.
pub open spec fn no_flag(key: Seq<char>, value: Seq<char>) -> Seq<char> {
    key + " takes on|off, got "@ + value
}

/// What setting a value comes to: something to tell the device, or the reason why not.
pub open spec fn change_of(key: Seq<char>, value: Seq<char>) -> Result<Call, Seq<char>> {
    if key == "brightness"@ {
        match crate::text::unsigned_value(value, u16::MAX as nat) {
            Some(n) => Ok(Call::Brightness(n as u16)),
            None => Err("brightness takes 0-100"@),
        }
    } else if key == "setpoint-alert"@ || key == "vibration"@ {
        match flag_of(value) {
            Some(on) => Ok(Call::Vibration(on)),
            None => Err(no_flag(key, value)),
        }
    } else if key == "display-on-cooling"@ {
        match flag_of(value) {
            Some(on) => Ok(Call::DisplayOnCooling(on)),
            None => Err(no_flag(key, value)),
        }
    } else if key == "shutoff"@ {
        match crate::text::unsigned_value(value, u16::MAX as nat) {
            Some(n) => Ok(Call::Shutoff(n as u16)),
            None => Err("shutoff takes seconds"@),
        }
    } else if key == "unit"@ {
        Ok(Call::Unit { celsius: value == "c"@ || value == "C"@ || value == "celsius"@ })
    } else {
        Err("unknown setting "@ + key)
    }
}

/// The plan for a setting.
pub open spec fn config_plan(key: Option<Seq<char>>, value: Option<Seq<char>>) -> PlanView {
    match key {
        None => PlanView::ShowConfig,
        Some(k) => match value {
            None => PlanView::Refuse { reason: k + " needs a value"@ },
            Some(v) => match change_of(k, v) {
                Ok(call) => PlanView::Tell { call, report: k + " set to "@ + v },
                Err(reason) => PlanView::Refuse { reason },
            },
        },
    }
}

/// A unit that means Celsius.
pub open spec fn means_celsius(unit: Seq<char>) -> bool {
    unit.len() > 0 && unit[0] == 'c'
}

/// The plan for a command.
pub open spec fn plan_for(command: Command) -> PlanView {
    match command {
        Command::Status => PlanView::ShowStatus,
        Command::ShowTemp => PlanView::ShowTemperatures,
        Command::SetTemp(t) => PlanView::Tell {
            call: Call::SetTarget(t),
            report: "target set to "@ + crate::shown::one_decimal(t) + "°C"@,
        },
        Command::Heat { on } => PlanView::Tell {
            call: Call::Heater(on),
            report: "heater "@ + on_off(on),
        },
        Command::Pump { on } => PlanView::Tell {
            call: Call::Pump(on),
            report: "pump "@ + on_off(on),
        },
        Command::Fill { seconds, pulse, rest } => PlanView::Pump(
            Fill::fresh(seconds, pulse, rest),
        ),
        Command::Watch => PlanView::Watch,
        Command::Info => PlanView::ShowInfo,
        Command::Brightness(value) => PlanView::Tell {
            call: Call::Brightness(value),
            report: "brightness "@ + crate::text::decimal(value as nat),
        },
        Command::Vibration { on } => PlanView::Tell {
            call: Call::Vibration(on),
            report: "vibration "@ + on_off(on),
        },
        Command::Shutoff(seconds) => PlanView::Tell {
            call: Call::Shutoff(seconds),
            report: "shutoff "@ + crate::text::decimal(seconds as nat) + "s"@,
        },
        Command::Unit { unit } => {
            let celsius = means_celsius(unit@);
            PlanView::Tell {
                call: Call::Unit { celsius },
                report: "unit "@ + if celsius {
                    "celsius"@
                } else {
                    "fahrenheit"@
                },
            }
        },
        Command::Config { key, value } => config_plan(
            crate::text::text_of(key),
            crate::text::text_of(value),
        ),
        Command::Workflow { steps } => PlanView::RunWorkflow { steps: steps@ },
        Command::WaitTemp { celsius } => PlanView::Wait { celsius },
    }
}

fn parse_flag(value: &str) -> (r: Option<bool>)
    ensures
        r == flag_of(value@),
{
    if same_text(value, "on") || same_text(value, "true") || same_text(value, "yes") {
        Some(true)
    } else if same_text(value, "off") || same_text(value, "false") || same_text(value, "no") {
        Some(false)
    } else {
        None
    }
}

/// What setting a value comes to.
///
/// The Volcano has no vibration motor: the protocol's vibration flag is the setpoint-reached
/// alert, which the device sounds by pulsing the pump.
pub fn config_change(key: &str, value: &str) -> (r: Result<Call, String>)
    ensures
        match change_of(key@, value@) {
            Ok(call) => r matches Ok(got) && got == call,
            Err(reason) => r matches Err(text) && text@ == reason,
        },
{
    if same_text(key, "brightness") {
        match parse_unsigned(value, 0xffff) {
            Some(n) => Ok(Call::Brightness(n as u16)),
            None => Err("brightness takes 0-100".to_owned()),
        }
    } else if same_text(key, "setpoint-alert") || same_text(key, "vibration") {
        match parse_flag(value) {
            Some(on) => Ok(Call::Vibration(on)),
            None => Err(joined3(key, " takes on|off, got ", value)),
        }
    } else if same_text(key, "display-on-cooling") {
        match parse_flag(value) {
            Some(on) => Ok(Call::DisplayOnCooling(on)),
            None => Err(joined3(key, " takes on|off, got ", value)),
        }
    } else if same_text(key, "shutoff") {
        match parse_unsigned(value, 0xffff) {
            Some(n) => Ok(Call::Shutoff(n as u16)),
            None => Err("shutoff takes seconds".to_owned()),
        }
    } else if same_text(key, "unit") {
        Ok(
            Call::Unit {
                celsius: same_text(value, "c") || same_text(value, "C") || same_text(
                    value,
                    "celsius",
                ),
            },
        )
    } else {
        Err(joined("unknown setting ", key))
    }
}

fn plan_config(key: &Option<String>, value: &Option<String>) -> (r: Plan)
    ensures
        r@ == config_plan(crate::text::text_of(*key), crate::text::text_of(*value)),
{
    match key {
        None => Plan::ShowConfig,
        Some(k) => match value {
            None => Plan::Refuse { reason: joined(k.as_str(), " needs a value") },
            Some(v) => match config_change(k.as_str(), v.as_str()) {
                Ok(call) => Plan::Tell {
                    call,
                    report: joined3(k.as_str(), " set to ", v.as_str()),
                },
                Err(reason) => Plan::Refuse { reason },
            },
        },
    }
}

fn starts_with_c(unit: &str) -> (r: bool)
    ensures
        r == means_celsius(unit@),
{
    let chars = crate::text::chars_of(unit);
    chars.len() > 0 && chars[0] == 'c'
}

/// What a command comes to.
pub fn plan(command: &Command) -> (r: Plan)
    ensures
        r@ == plan_for(*command),
{
    match command {
        Command::Status => Plan::ShowStatus,
        Command::ShowTemp => Plan::ShowTemperatures,
        Command::SetTemp(t) => {
            let number = one_decimal_text(*t);
            Plan::Tell {
                call: Call::SetTarget(*t),
                report: joined3("target set to ", number.as_str(), "°C"),
            }
        },
        Command::Heat { on } => Plan::Tell {
            call: Call::Heater(*on),
            report: joined("heater ", on_off_text(*on)),
        },
        Command::Pump { on } => Plan::Tell {
            call: Call::Pump(*on),
            report: joined("pump ", on_off_text(*on)),
        },
        Command::Fill { seconds, pulse, rest } => Plan::Pump(Fill::new(*seconds, *pulse, *rest)),
        Command::Watch => Plan::Watch,
        Command::Info => Plan::ShowInfo,
        Command::Brightness(value) => {
            let digits = decimal_text(*value as u64);
            Plan::Tell {
                call: Call::Brightness(*value),
                report: joined("brightness ", digits.as_str()),
            }
        },
        Command::Vibration { on } => Plan::Tell {
            call: Call::Vibration(*on),
            report: joined("vibration ", on_off_text(*on)),
        },
        Command::Shutoff(seconds) => {
            let digits = decimal_text(*seconds as u64);
            Plan::Tell {
                call: Call::Shutoff(*seconds),
                report: joined3("shutoff ", digits.as_str(), "s"),
            }
        },
        Command::Unit { unit } => {
            let celsius = starts_with_c(unit.as_str());
            Plan::Tell {
                call: Call::Unit { celsius },
                report: joined(
                    "unit ",
                    if celsius {
                        "celsius"
                    } else {
                        "fahrenheit"
                    },
                ),
            }
        },
        Command::Config { key, value } => plan_config(key, value),
        Command::Workflow { steps } => Plan::RunWorkflow { steps: steps.clone() },
        Command::WaitTemp { celsius } => Plan::Wait { celsius: *celsius },
    }
}

/// What pumping needs to have done next.
#[derive(Debug)]
pub enum FillAction {
    PumpOn,
    PumpOff,
    Sleep { seconds: u64 },
    Say(String),
    Finish,
}

/// A fill action with its text as a value.
pub enum FillActionView {
    PumpOn,
    PumpOff,
    Sleep { seconds: u64 },
    Say(Seq<char>),
    Finish,
}

impl View for FillAction {
    type V = FillActionView;

    open spec fn view(&self) -> FillActionView {
        match *self {
            FillAction::PumpOn => FillActionView::PumpOn,
            FillAction::PumpOff => FillActionView::PumpOff,
            FillAction::Sleep { seconds } => FillActionView::Sleep { seconds },
            FillAction::Say(s) => FillActionView::Say(s@),
            FillAction::Finish => FillActionView::Finish,
        }
    }
}

/// Where pumping stands.
#[derive(Debug, Clone, Copy, PartialEq, Eq, Structural)]
pub enum FillPhase {
    Between,
    Rested,
    On,
    Pumping,
    Off,
    Over,
}

/// Pumping for a fixed duration, in one go or in bursts with pauses between them so that the
/// chamber reheats.
#[derive(Debug, Clone, Copy)]
pub struct Fill {
    pub seconds: u64,
    /// Length of a burst; at least one second.
    pub pulse: Option<u64>,
    pub rest: u64,
    pub pumped: u64,
    pub phase: FillPhase,
}

impl Fill {
    /// Pumping that has not started.
    pub open spec fn fresh(seconds: u64, pulse: Option<u64>, rest: u64) -> Fill {
        Fill { seconds, pulse, rest, pumped: 0, phase: FillPhase::Between }
    }

    /// No more is pumped than asked for.
    pub open spec fn wf(self) -> bool {
        &&& self.pumped <= self.seconds
        &&& self.phase == FillPhase::Over ==> self.pumped == self.seconds
    }

    /// The length of the next burst.
    pub open spec fn burst(self) -> u64 {
        match self.pulse {
            None => (self.seconds - self.pumped) as u64,
            Some(p) => {
                let length = if p < 1 {
                    1
                } else {
                    p
                };
                if length < self.seconds - self.pumped {
                    length
                } else {
                    (self.seconds - self.pumped) as u64
                }
            },
        }
    }

    /// What is reported after a burst, with this much pumped.
    pub open spec fn report(self, pumped: nat) -> Seq<char> {
        match self.pulse {
            None => "pumped for "@ + crate::text::decimal(self.seconds as nat) + "s"@,
            Some(_) => crate::text::decimal(pumped) + "/"@ + crate::text::decimal(
                self.seconds as nat,
            ) + "s"@,
        }
    }

    /// The next action, once the last one is done.
    pub open spec fn step(self) -> (Fill, FillActionView) {
        match self.phase {
            FillPhase::Between => if self.pulse is Some && self.pumped >= self.seconds {
                (Fill { phase: FillPhase::Over, ..self }, FillActionView::Finish)
            } else if self.pulse is Some && self.pumped > 0 {
                (
                    Fill { phase: FillPhase::Rested, ..self },
                    FillActionView::Sleep { seconds: self.rest },
                )
            } else {
                (Fill { phase: FillPhase::On, ..self }, FillActionView::PumpOn)
            },
            FillPhase::Rested => (Fill { phase: FillPhase::On, ..self }, FillActionView::PumpOn),
            FillPhase::On => (
                Fill { phase: FillPhase::Pumping, ..self },
                FillActionView::Sleep { seconds: self.burst() },
            ),
            FillPhase::Pumping => (Fill { phase: FillPhase::Off, ..self }, FillActionView::PumpOff),
            FillPhase::Off => {
                let pumped = self.pumped + self.burst();
                (
                    Fill {
                        pumped: pumped as u64,
                        phase: if self.pulse is Some {
                            FillPhase::Between
                        } else {
                            FillPhase::Over
                        },
                        ..self
                    },
                    FillActionView::Say(self.report(pumped as nat)),
                )
            },
            FillPhase::Over => (self, FillActionView::Finish),
        }
    }

    /// Pumping that has not started.
    pub fn new(seconds: u64, pulse: Option<u64>, rest: u64) -> (r: Fill)
        ensures
            r == Fill::fresh(seconds, pulse, rest),
            r.wf(),
    {
        Fill { seconds, pulse, rest, pumped: 0, phase: FillPhase::Between }
    }

    fn next_burst(&self) -> (r: u64)
        requires
            self.pumped <= self.seconds,
        ensures
            r == self.burst(),
            self.pumped + r <= self.seconds,
    {
        let left: u64 = self.seconds - self.pumped;
        match self.pulse {
            None => left,
            Some(p) => {
                let length: u64 = if p < 1 {
                    1
                } else {
                    p
                };
                if length < left {
                    length
                } else {
                    left
                }
            },
        }
    }

    fn say(&self, pumped: u64) -> (r: String)
        ensures
            r@ == self.report(pumped as nat),
    {
        let total = decimal_text(self.seconds);
        match self.pulse {
            None => joined3("pumped for ", total.as_str(), "s"),
            Some(_) => {
                let mut out = decimal_text(pumped);
                out.append("/");
                out.append(total.as_str());
                out.append("s");
                out
            },
        }
    }

    /// The next action, once the last one is done.
    pub fn advance(&mut self) -> (r: FillAction)
        requires
            old(self).wf(),
        ensures
            (*final(self), r@) == old(self).step(),
            final(self).wf(),
    {
        match self.phase {
            FillPhase::Between => {
                if self.pulse.is_some() && self.pumped >= self.seconds {
                    self.phase = FillPhase::Over;
                    FillAction::Finish
                } else if self.pulse.is_some() && self.pumped > 0 {
                    self.phase = FillPhase::Rested;
                    FillAction::Sleep { seconds: self.rest }
                } else {
                    self.phase = FillPhase::On;
                    FillAction::PumpOn
                }
            },
            FillPhase::Rested => {
                self.phase = FillPhase::On;
                FillAction::PumpOn
            },
            FillPhase::On => {
                self.phase = FillPhase::Pumping;
                FillAction::Sleep { seconds: self.next_burst() }
            },
            FillPhase::Pumping => {
                self.phase = FillPhase::Off;
                FillAction::PumpOff
            },
            FillPhase::Off => {
                let pumped: u64 = self.pumped + self.next_burst();
                let text = self.say(pumped);
                self.pumped = pumped;
                self.phase = if self.pulse.is_some() {
                    FillPhase::Between
                } else {
                    FillPhase::Over
                };
                FillAction::Say(text)
            },
            FillPhase::Over => FillAction::Finish,
        }
    }
}

/// Pumping ends when exactly the seconds asked for were pumped.
pub proof fn law_fill_pumps_exactly(f: Fill)
    requires
        f.wf(),
    ensures
        f.step().0.wf(),
        f.step().1 == FillActionView::Finish ==> f.pumped == f.seconds && f.step().0.phase
            == FillPhase::Over,
{
}

/// A burst is no longer than the pulse, and in a pulsed fill that is not over it takes time.
pub proof fn law_bursts_are_bounded(f: Fill)
    requires
        f.wf(),
    ensures
        f.pulse matches Some(p) ==> f.burst() <= p || f.burst() <= 1,
        f.pulse is Some && f.pumped < f.seconds ==> f.burst() > 0,
        f.pumped + f.burst() <= f.seconds,
{
}

/// How many more actions pumping takes, at most.
pub open spec fn fill_remaining(f: Fill) -> int {
    let left = f.seconds - f.pumped;
    match f.phase {
        FillPhase::Between => 6 * left + 6,
        FillPhase::Rested => 6 * left + 5,
        FillPhase::On => 6 * left + 4,
        FillPhase::Pumping => 6 * left + 3,
        FillPhase::Off => 6 * left + 2,
        FillPhase::Over => 0,
    }
}

/// Inside a burst there is something to pump, unless all is to be pumped in one go.
pub open spec fn has_work(f: Fill) -> bool {
    f.pulse is Some && f.phase != FillPhase::Between && f.phase != FillPhase::Over ==> f.pumped
        < f.seconds
}

/// Pumping ends: every action brings it nearer to its end.
pub proof fn law_fill_ends(f: Fill)
    requires
        f.wf(),
        has_work(f),
        f.phase != FillPhase::Over,
    ensures
        has_work(f.step().0),
        0 <= fill_remaining(f.step().0) < fill_remaining(f),
{
}

/// The pump is switched off after every burst.
pub proof fn law_fill_switches_off(f: Fill)
    requires
        f.wf(),
    ensures
        f.step().1 == FillActionView::PumpOn ==> ({
            let f1 = f.step().0;
            let f2 = f1.step().0;
            &&& f1.step().1 == (FillActionView::Sleep { seconds: f.burst() })
            &&& f2.step().1 == FillActionView::PumpOff
            &&& f2.step().0.step().0.pumped == f.pumped + f.burst()
        }),
{
}

} // verus!
