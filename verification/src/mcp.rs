//! Answers of the `volcano-mcp` tools.
use crate::cli::on_off_text;
use crate::manager::ManagerPhase;
use crate::shown::one_decimal_text;
use crate::single::Single;
use crate::text::decimal_text;
use crate::text::joined;
use crate::text::joined3;
use crate::workflow::Workflow;
use crate::workflow::WorkflowStep;
use vstd::prelude::*;
use vstd::string::*;

verus! {

/// Seconds after which waiting for a temperature gives up, where nothing else is asked for.
pub const DEFAULT_WAIT_SECONDS: u64 = 300;

/// How long to wait for a temperature.
pub fn wait_seconds(asked: Option<u64>) -> (r: u64)
    ensures
        r == match asked {
            Some(s) => s,
            None => DEFAULT_WAIT_SECONDS,
        },
{
    match asked {
        Some(s) => s,
        None => DEFAULT_WAIT_SECONDS,
    }
}

/// A workflow of the given steps.
pub fn workflow_of(steps: &[WorkflowStep]) -> (r: Workflow)
    ensures
        r.name@ == "mcp"@,
        r.steps@ == steps@,
{
    let mut workflow = Workflow::new("mcp");
    let mut i: usize = 0;
    while i < steps.len()
        invariant
            i <= steps@.len(),
            workflow.name@ == "mcp"@,
            workflow.steps@ == steps@.take(i as int),
        decreases steps@.len() - i,
    {
        workflow = workflow.add_step(steps[i]);
        i = i + 1;
    }
    assert(steps@.take(steps@.len() as int) == steps@);
    workflow
}

/// The target was set.
pub fn target_answer(celsius: Single) -> (r: String)
    ensures
        r@ == "target set to "@ + crate::shown::one_decimal(celsius) + "°C"@,
{
    let number = one_decimal_text(celsius);
    joined3("target set to ", number.as_str(), "°C")
}

/// The heater was switched.
pub fn heater_answer(on: bool) -> (r: String)
    ensures
        r@ == "heater "@ + crate::cli::on_off(on),
{
    joined("heater ", on_off_text(on))
}

/// The pump was switched.
pub fn pump_answer(on: bool) -> (r: String)
    ensures
        r@ == "pump "@ + crate::cli::on_off(on),
{
    joined("pump ", on_off_text(on))
}

/// The brightness was set.
pub fn brightness_answer(value: u16) -> (r: String)
    ensures
        r@ == "brightness "@ + crate::text::decimal(value as nat),
{
    let digits = decimal_text(value as u64);
    joined("brightness ", digits.as_str())
}

/// All steps of a workflow were taken.
pub fn workflow_answer(count: usize) -> (r: String)
    ensures
        r@ == "workflow complete ("@ + crate::text::decimal(count as nat) + " steps)"@,
{
    let digits = decimal_text(count as u64);
    joined3("workflow complete (", digits.as_str(), " steps)")
}

/// The temperature was not reached in time.
pub fn wait_timeout_text(target: Single) -> (r: String)
    ensures
        r@ == "timed out waiting for "@ + crate::shown::one_decimal(target) + "°C"@,
{
    let number = one_decimal_text(target);
    joined3("timed out waiting for ", number.as_str(), "°C")
}

/// What to say of a connection that failed while waiting for this.
pub open spec fn connect_words(phase: ManagerPhase) -> Seq<char> {
    match phase {
        ManagerPhase::FindingAdapter => "no BLE adapter: "@,
        ManagerPhase::Scanning => "no Storz & Bickel device found (is it powered on?): "@,
        _ => "connect failed: "@,
    }
}

/// The words for a connection that failed, with the reason.
pub fn connect_problem(phase: ManagerPhase, reason: &str) -> (r: String)
    ensures
        r@ == connect_words(phase) + reason@,
{
    match phase {
        ManagerPhase::FindingAdapter => joined("no BLE adapter: ", reason),
        ManagerPhase::Scanning => joined(
            "no Storz & Bickel device found (is it powered on?): ",
            reason,
        ),
        _ => joined("connect failed: ", reason),
    }
}

} // verus!
