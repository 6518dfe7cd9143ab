//! What the command line prints.
use crate::cli::on_off_text;
use crate::device::DeviceInfo;
use crate::device::DeviceModel;
use crate::device::DeviceSettings;
use crate::device::DeviceState;
use crate::shown::one_decimal_text;
use crate::single::Single;
use crate::text::add_line;
use crate::text::decimal_text;
use crate::text::joined;
use crate::text::joined3;
use vstd::prelude::*;
use vstd::string::*;

verus! {

/// How near below the target counts as reached: 1 degree, as the bits of a single.
pub const WAIT_MARGIN: u32 = 0x3f80_0000;

/// A temperature with its unit, or a question mark.
pub open spec fn shown_temperature(temperature: Option<Single>) -> Seq<char> {
    match temperature {
        Some(t) => crate::shown::one_decimal(t) + "°C"@,
        None => "?"@,
    }
}

/// The lines of a status.
pub open spec fn status(model: DeviceModel, state: DeviceState) -> Seq<Seq<char>> {
    seq![
        "model:   "@ + model.label(),
        "current: "@ + shown_temperature(state.current_temp),
        "target:  "@ + shown_temperature(state.target_temp),
        "heater:  "@ + crate::cli::on_off(state.heater_on),
        "pump:    "@ + crate::cli::on_off(state.pump_on),
    ]
}

fn temperature_text(temperature: Option<Single>) -> (r: String)
    ensures
        r@ == shown_temperature(temperature),
{
    match temperature {
        Some(t) => {
            let number = one_decimal_text(t);
            joined(number.as_str(), "°C")
        },
        None => "?".to_owned(),
    }
}

/// The lines of a status.
pub fn status_lines(model: DeviceModel, state: &DeviceState) -> (r: Vec<String>)
    ensures
        crate::text::texts(r@) == status(model, *state),
{
    let mut lines: Vec<String> = Vec::new();
    assert(crate::text::texts(lines@) == Seq::<Seq<char>>::empty());
    let name = model.name();
    add_line(&mut lines, joined("model:   ", name.as_str()));
    let now = temperature_text(state.current_temp);
    add_line(&mut lines, joined("current: ", now.as_str()));
    let goal = temperature_text(state.target_temp);
    add_line(&mut lines, joined("target:  ", goal.as_str()));
    add_line(&mut lines, joined("heater:  ", on_off_text(state.heater_on)));
    add_line(&mut lines, joined("pump:    ", on_off_text(state.pump_on)));
    lines
}

/// The line about the two temperatures.
pub fn temperatures_line(current: Single, target: Single) -> (r: String)
    ensures
        r@ == "current "@ + crate::shown::one_decimal(current) + "°C → target "@
            + crate::shown::one_decimal(target) + "°C"@,
{
    let mut out = "current ".to_owned();
    let now = one_decimal_text(current);
    out.append(now.as_str());
    out.append("°C → target ");
    let goal = one_decimal_text(target);
    out.append(goal.as_str());
    out.append("°C");
    out
}

/// A line with a label, where there is something to show.
pub open spec fn optional_line(
    lines: Seq<Seq<char>>,
    label: Seq<char>,
    text: Option<Seq<char>>,
) -> Seq<Seq<char>> {
    match text {
        Some(t) => lines.push(label + t),
        None => lines,
    }
}

/// The line about the time of heating.
pub open spec fn heating_line(hours: u16, minutes: u16) -> Seq<char> {
    "heating:  "@ + crate::text::decimal(hours as nat) + "h "@ + crate::text::decimal(
        minutes as nat,
    ) + "m"@
}

/// The lines of a device information: the model, and what else is known.
pub open spec fn info(model: DeviceModel, info: crate::device::InfoView) -> Seq<Seq<char>> {
    let l0 = seq!["model:    "@ + model.label()];
    let l1 = optional_line(l0, "serial:   "@, info.serial_number);
    let l2 = optional_line(l1, "firmware: "@, info.firmware_version);
    let l3 = optional_line(l2, "ble fw:   "@, info.firmware_ble_version);
    if info.hours_of_heating is Some && info.minutes_of_heating is Some {
        l3.push(heating_line(info.hours_of_heating->0, info.minutes_of_heating->0))
    } else {
        l3
    }
}

fn add_optional(lines: &mut Vec<String>, label: &str, text: &Option<String>)
    ensures
        crate::text::texts(final(lines)@) == optional_line(
            crate::text::texts(old(lines)@),
            label@,
            crate::text::text_of(*text),
        ),
{
    match text {
        Some(t) => add_line(lines, joined(label, t.as_str())),
        None => {},
    }
}

/// The lines of a device information.
pub fn info_lines(model: DeviceModel, known: &DeviceInfo) -> (r: Vec<String>)
    ensures
        crate::text::texts(r@) == info(model, known@),
{
    let mut lines: Vec<String> = Vec::new();
    assert(crate::text::texts(lines@) == Seq::<Seq<char>>::empty());
    let name = model.name();
    add_line(&mut lines, joined("model:    ", name.as_str()));
    assert(crate::text::texts(lines@) == seq!["model:    "@ + model.label()]);
    add_optional(&mut lines, "serial:   ", &known.serial_number);
    add_optional(&mut lines, "firmware: ", &known.firmware_version);
    add_optional(&mut lines, "ble fw:   ", &known.firmware_ble_version);
    if let Some(h) = known.hours_of_heating {
        if let Some(m) = known.minutes_of_heating {
            let mut line = "heating:  ".to_owned();
            let hours = decimal_text(h as u64);
            line.append(hours.as_str());
            line.append("h ");
            let minutes = decimal_text(m as u64);
            line.append(minutes.as_str());
            line.append("m");
            add_line(&mut lines, line);
        }
    }
    lines
}

/// Settings that only some sources tell.
#[derive(Debug, Clone, Copy, PartialEq, Eq)]
pub struct DisplaySettings {
    pub brightness: Option<u16>,
    pub display_on_cooling: bool,
    pub shutoff_seconds: Option<u16>,
}

/// A number with a unit, or a question mark.
pub open spec fn shown_number(n: Option<u16>, unit: Seq<char>) -> Seq<char> {
    match n {
        Some(v) => crate::text::decimal(v as nat) + unit,
        None => "?"@,
    }
}

/// The lines of the settings.
pub open spec fn config(settings: DeviceSettings, display: DisplaySettings) -> Seq<Seq<char>> {
    seq![
        "brightness:         "@ + shown_number(display.brightness, ""@),
        "setpoint-alert:     "@ + crate::cli::on_off(settings.vibration),
        "display-on-cooling: "@ + crate::cli::on_off(display.display_on_cooling),
        "shutoff:            "@ + shown_number(display.shutoff_seconds, "s"@),
        "unit:               "@ + if settings.is_celsius {
            "C"@
        } else {
            "F"@
        },
    ]
}

fn number_text(n: Option<u16>, unit: &str) -> (r: String)
    ensures
        r@ == shown_number(n, unit@),
{
    match n {
        Some(v) => {
            let mut out = decimal_text(v as u64);
            out.append(unit);
            out
        },
        None => "?".to_owned(),
    }
}

/// The lines of the settings.
pub fn config_lines(settings: &DeviceSettings, display: &DisplaySettings) -> (r: Vec<String>)
    ensures
        crate::text::texts(r@) == config(*settings, *display),
{
    let mut lines: Vec<String> = Vec::new();
    assert(crate::text::texts(lines@) == Seq::<Seq<char>>::empty());
    let brightness = number_text(display.brightness, "");
    add_line(&mut lines, joined("brightness:         ", brightness.as_str()));
    add_line(&mut lines, joined("setpoint-alert:     ", on_off_text(settings.vibration)));
    add_line(&mut lines, joined("display-on-cooling: ", on_off_text(display.display_on_cooling)));
    let shutoff = number_text(display.shutoff_seconds, "s");
    add_line(&mut lines, joined("shutoff:            ", shutoff.as_str()));
    add_line(
        &mut lines,
        joined(
            "unit:               ",
            if settings.is_celsius {
                "C"
            } else {
                "F"
            },
        ),
    );
    lines
}

/// The line at the start of a workflow.
pub fn workflow_line(count: usize) -> (r: String)
    ensures
        r@ == "running workflow: "@ + crate::text::decimal(count as nat) + " step(s)"@,
{
    let digits = decimal_text(count as u64);
    joined3("running workflow: ", digits.as_str(), " step(s)")
}

/// The temperature is at most a degree below the target.
pub open spec fn is_warm(current: Single, target: Single) -> bool {
    target.difference(Single { bits: WAIT_MARGIN }).le(current)
}

/// Whether waiting for a temperature is over.
pub fn warm_enough(current: Single, target: Single) -> (r: bool)
    ensures
        r == is_warm(current, target),
{
    target.minus(Single::from_bits(WAIT_MARGIN)).at_most(current)
}

/// The line at the end of waiting.
pub fn reached_line(current: Single) -> (r: String)
    ensures
        r@ == "reached "@ + crate::shown::one_decimal(current) + "°C"@,
{
    let now = one_decimal_text(current);
    joined3("reached ", now.as_str(), "°C")
}

/// The line while waiting.
pub fn progress_line(current: Single, target: Single) -> (r: String)
    ensures
        r@ == crate::shown::one_decimal(current) + "°C / "@ + crate::shown::one_decimal(target)
            + "°C"@,
{
    let mut out = one_decimal_text(current);
    out.append("°C / ");
    let goal = one_decimal_text(target);
    out.append(goal.as_str());
    out.append("°C");
    out
}

} // verus!
