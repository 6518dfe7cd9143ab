//! Workflows as the command line writes them: comma-separated steps of
//! TEMP:HOLD_SECS:PUMP_SECS, such as "185:60:8,195:45:8".
use crate::single::Single;
use crate::text::parse_unsigned;
use crate::text::quoted_text;
use crate::text::split;
use crate::text::trim;
use crate::workflow::Workflow;
use crate::workflow::WorkflowStep;
use vstd::prelude::*;
use vstd::string::*;

verus! {

/// What can be wrong with a step.
#[derive(Debug, Clone, Copy, PartialEq, Eq, Structural)]
pub enum StepProblem {
    /// Not three fields.
    Shape,
    Temperature,
    Hold,
    Pump,
}

/// The fields of a step.
pub open spec fn fields_of(part: Seq<char>) -> Seq<Seq<char>> {
    crate::text::split_on(crate::text::trimmed(part), ':')
}

/// The step in a part, where `temperature` is the number in its first field, if it is one.
pub open spec fn step_of(part: Seq<char>, temperature: Option<Single>) -> Result<
    WorkflowStep,
    StepProblem,
> {
    let fields = fields_of(part);
    if fields.len() != 3 {
        Err(StepProblem::Shape)
    } else if temperature is None {
        Err(StepProblem::Temperature)
    } else {
        let hold = crate::text::unsigned_value(fields[1], u32::MAX as nat);
        let pump = crate::text::unsigned_value(fields[2], u32::MAX as nat);
        if hold is None {
            Err(StepProblem::Hold)
        } else if pump is None {
            Err(StepProblem::Pump)
        } else {
            Ok(
                WorkflowStep {
                    temperature: temperature->0,
                    hold_time_seconds: hold->0 as u32,
                    pump_time_seconds: pump->0 as u32,
                },
            )
        }
    }
}

/// The words for what is wrong with a step, where `quoted` is the step in quotes.
pub open spec fn problem_words(problem: StepProblem, quoted: Seq<char>) -> Seq<char> {
    match problem {
        StepProblem::Shape => "bad step "@ + quoted + ": expected TEMP:HOLD_SECS:PUMP_SECS"@,
        StepProblem::Temperature => "bad temperature"@,
        StepProblem::Hold => "bad hold time"@,
        StepProblem::Pump => "bad pump time"@,
    }
}

/// The steps in the first `n` parts, or what is wrong with the first bad one.
pub open spec fn steps_of(
    parts: Seq<Seq<char>>,
    temperatures: Seq<Option<Single>>,
    n: nat,
) -> Result<Seq<WorkflowStep>, Seq<char>>
    decreases n,
{
    if n == 0 {
        Ok(seq![])
    } else {
        match steps_of(parts, temperatures, (n - 1) as nat) {
            Err(words) => Err(words),
            Ok(before) => {
                let part = parts[n - 1];
                match step_of(part, temperature_at(temperatures, n - 1)) {
                    Ok(step) => Ok(before.push(step)),
                    Err(problem) => Err(problem_words(problem, crate::text::quoted(part))),
                }
            },
        }
    }
}

/// The temperature of a step, where there is one.
pub open spec fn temperature_at(temperatures: Seq<Option<Single>>, i: int) -> Option<Single> {
    if i < temperatures.len() {
        temperatures[i]
    } else {
        None
    }
}

/// Reads a step, given the number in its first field.
pub fn parse_step(part: &str, temperature: Option<Single>) -> (r: Result<WorkflowStep, StepProblem>)
    ensures
        r == step_of(part@, temperature),
{
    let trimmed = trim(part);
    let fields = split(trimmed.as_str(), ':');
    let ghost seen = fields_of(part@);
    assert(seen.len() == fields@.len());
    if fields.len() != 3 {
        return Err(StepProblem::Shape);
    }
    assert(seen[1] == fields@[1]@ && seen[2] == fields@[2]@);
    let celsius = match temperature {
        Some(t) => t,
        None => return Err(StepProblem::Temperature),
    };
    let hold = match parse_unsigned(fields[1].as_str(), 0xffff_ffff) {
        Some(n) => n,
        None => return Err(StepProblem::Hold),
    };
    let pump = match parse_unsigned(fields[2].as_str(), 0xffff_ffff) {
        Some(n) => n,
        None => return Err(StepProblem::Pump),
    };
    Ok(
        WorkflowStep {
            temperature: celsius,
            hold_time_seconds: hold as u32,
            pump_time_seconds: pump as u32,
        },
    )
}

/// The words for what is wrong with a step, given the step in quotes.
pub fn problem_text(problem: StepProblem, quoted: &str) -> (r: String)
    ensures
        r@ == problem_words(problem, quoted@),
{
    match problem {
        StepProblem::Shape => {
            let mut text = "bad step ".to_owned();
            text.append(quoted);
            text.append(": expected TEMP:HOLD_SECS:PUMP_SECS");
            text
        },
        StepProblem::Temperature => "bad temperature".to_owned(),
        StepProblem::Hold => "bad hold time".to_owned(),
        StepProblem::Pump => "bad pump time".to_owned(),
    }
}

/// The first field of each step, which is to be read as a temperature.
pub fn temperature_texts(spec: &str) -> (r: Vec<String>)
    ensures
        crate::text::texts(r@) == crate::text::split_on(spec@, ',').map_values(
            |part: Seq<char>| fields_of(part)[0],
        ),
{
    let parts = split(spec, ',');
    let ghost seen = crate::text::split_on(spec@, ',');
    let mut out: Vec<String> = Vec::new();
    let mut i: usize = 0;
    while i < parts.len()
        invariant
            i <= parts@.len(),
            seen == crate::text::texts(parts@),
            out@.len() == i,
            forall|k: int| 0 <= k < i ==> (#[trigger] out@[k])@ == fields_of(seen[k])[0],
        decreases parts@.len() - i,
    {
        let trimmed = trim(parts[i].as_str());
        let fields = split(trimmed.as_str(), ':');
        assert(seen[i as int] == parts@[i as int]@);
        assert(fields_of(seen[i as int])[0] == fields@[0]@);
        let first = fields[0].clone();
        out.push(first);
        i = i + 1;
    }
    assert(crate::text::texts(out@) == seen.map_values(|part: Seq<char>| fields_of(part)[0]));
    out
}

/// Reads a workflow. `temperatures` holds the number in the first field of each step, where
/// that field is one.
pub fn parse_workflow(spec: &str, temperatures: &[Option<Single>]) -> (r: Result<Workflow, String>)
    ensures
        ({
            let parts = crate::text::split_on(spec@, ',');
            match steps_of(parts, temperatures@, parts.len()) {
                Ok(steps) => r matches Ok(w) && w.name@ == "cli"@ && w.steps@ == steps,
                Err(words) => r matches Err(text) && text@ == words,
            }
        }),
{
    let parts = split(spec, ',');
    let ghost seen = crate::text::split_on(spec@, ',');
    let mut workflow = Workflow::new("cli");
    let mut i: usize = 0;
    while i < parts.len()
        invariant
            i <= parts@.len(),
            seen == crate::text::texts(parts@),
            workflow.name@ == "cli"@,
            steps_of(seen, temperatures@, i as nat) == Ok::<_, Seq<char>>(workflow.steps@),
            seen == crate::text::split_on(spec@, ','),
        decreases parts@.len() - i,
    {
        let part = parts[i].as_str();
        assert(seen[i as int] == parts@[i as int]@);
        let temperature = if i < temperatures.len() {
            temperatures[i]
        } else {
            None
        };
        assert(steps_of(seen, temperatures@, (i + 1) as nat) == match step_of(
            part@,
            temperature,
        ) {
            Ok(step) => Ok::<Seq<WorkflowStep>, Seq<char>>(workflow.steps@.push(step)),
            Err(problem) => Err(problem_words(problem, crate::text::quoted(part@))),
        });
        match parse_step(part, temperature) {
            Ok(step) => {
                workflow = workflow.add_step(step);
            },
            Err(problem) => {
                proof {
                    lemma_first_problem(seen, temperatures@, (i + 1) as nat, seen.len());
                }
                let quoted = quoted_text(part);
                return Err(problem_text(problem, quoted.as_str()));
            },
        }
        i = i + 1;
    }
    Ok(workflow)
}

/// What is wrong with the first bad step is what is wrong with the workflow.
proof fn lemma_first_problem(
    parts: Seq<Seq<char>>,
    temperatures: Seq<Option<Single>>,
    i: nat,
    n: nat,
)
    requires
        i <= n,
        steps_of(parts, temperatures, i) is Err,
    ensures
        steps_of(parts, temperatures, n) == steps_of(parts, temperatures, i),
    decreases n,
{
    if i < n {
        lemma_first_problem(parts, temperatures, i, (n - 1) as nat);
    }
}

/// A workflow that is read has one step for each part, in their order.
pub proof fn law_steps_match_parts(
    parts: Seq<Seq<char>>,
    temperatures: Seq<Option<Single>>,
    n: nat,
    i: int,
)
    requires
        n <= parts.len(),
        0 <= i < n,
        steps_of(parts, temperatures, n) is Ok,
    ensures
        steps_of(parts, temperatures, n)->Ok_0.len() == n,
        step_of(parts[i], temperature_at(temperatures, i)) == Ok::<_, StepProblem>(
            steps_of(parts, temperatures, n)->Ok_0[i],
        ),
    decreases n,
{
    let before = steps_of(parts, temperatures, (n - 1) as nat);
    assert(before is Ok);
    if n > 1 {
        if i < n - 1 {
            law_steps_match_parts(parts, temperatures, (n - 1) as nat, i);
        } else {
            law_steps_match_parts(parts, temperatures, (n - 1) as nat, 0);
        }
    }
}

/// A step as the command line writes it, with the temperature as a text.
pub open spec fn written_step(temperature: Seq<char>, hold: u32, pump: u32) -> Seq<char> {
    crate::text::join_with(
        seq![
            temperature,
            crate::text::decimal(hold as nat),
            crate::text::decimal(pump as nat),
        ],
        ':',
    )
}

/// A step that is written down is read back.
pub proof fn law_written_step_is_read(
    text: Seq<char>,
    temperature: Single,
    hold: u32,
    pump: u32,
)
    requires
        text.len() > 0,
        !crate::text::is_space(text[0]),
        !text.contains(':'),
    ensures
        step_of(written_step(text, hold, pump), Some(temperature)) == Ok::<_, StepProblem>(
            WorkflowStep { temperature, hold_time_seconds: hold, pump_time_seconds: pump },
        ),
{
    let h = crate::text::decimal(hold as nat);
    let p = crate::text::decimal(pump as nat);
    let fields = seq![text, h, p];
    crate::text::lemma_decimal_is_digits(hold as nat);
    crate::text::lemma_decimal_is_digits(pump as nat);
    assert forall|i: int| 0 <= i < fields.len() implies !(#[trigger] fields[i]).contains(':') by {
    }
    crate::text::law_split_undoes_join(fields, ':');
    let all = written_step(text, hold, pump);
    reveal_with_fuel(crate::text::join_with, 4);
    assert(fields.drop_last() == seq![text, h]);
    assert(seq![text, h].drop_last() == seq![text]);
    assert(all == (text.push(':') + h).push(':') + p);
    assert(all[0] == text[0]);
    assert(all.last() == p.last());
    assert(crate::text::is_digit(p[p.len() - 1]));
    crate::text::lemma_nothing_to_trim(all);
    crate::text::law_decimal_round_trip(hold as nat, u32::MAX as nat);
    crate::text::law_decimal_round_trip(pump as nat, u32::MAX as nat);
}

/// A part of three fields is a step where a temperature is known and the other two fields are
/// numbers of up to 4294967295. The first thing that is wrong is what is reported: the number of
/// fields, the temperature, the time to hold, the time to pump.
pub proof fn law_step(part: &str, temperature: Option<Single>, r: Result<WorkflowStep, StepProblem>)
    requires
        call_ensures(parse_step, (part, temperature), r),
    ensures
        ({
            let fields = crate::text::split_on(crate::text::trimmed(part@), ':');
            let hold = crate::text::unsigned_value(fields[1], 4294967295);
            let pump = crate::text::unsigned_value(fields[2], 4294967295);
            &&& r is Ok <==> fields.len() == 3 && temperature is Some && hold is Some && pump is Some
            &&& r is Ok ==> Some(r->Ok_0.temperature) == temperature
            &&& r is Ok ==> Some(r->Ok_0.hold_time_seconds as nat) == hold
            &&& r is Ok ==> Some(r->Ok_0.pump_time_seconds as nat) == pump
            &&& fields.len() != 3 <==> r == Err::<WorkflowStep, _>(StepProblem::Shape)
            &&& fields.len() == 3 && temperature is None <==> r == Err::<WorkflowStep, _>(
                StepProblem::Temperature,
            )
            &&& r == Err::<WorkflowStep, _>(StepProblem::Hold) ==> hold is None
            &&& r == Err::<WorkflowStep, _>(StepProblem::Pump) ==> hold is Some && pump is None
        }),
{
}

/// A workflow is refused in the words of its first bad step.
pub proof fn law_problem_words(problem: StepProblem, quoted: &str, r: String)
    requires
        call_ensures(problem_text, (problem, quoted), r),
    ensures
        problem is Shape ==> r@ == "bad step "@ + quoted@ + ": expected TEMP:HOLD_SECS:PUMP_SECS"@,
        problem is Temperature ==> r@ == "bad temperature"@,
        problem is Hold ==> r@ == "bad hold time"@,
        problem is Pump ==> r@ == "bad pump time"@,
{
}

/// Steps that are written with commas between them are read back as a workflow of these steps, in
/// their order.
pub proof fn law_written_workflow_is_read(
    spec: &str,
    names: Seq<Seq<char>>,
    steps: Seq<WorkflowStep>,
    temperatures: &[Option<Single>],
    r: Result<Workflow, String>,
)
    requires
        call_ensures(parse_workflow, (spec, temperatures), r),
        steps.len() > 0,
        names.len() == steps.len(),
        temperatures@.len() == steps.len(),
        forall|i: int| 0 <= i < steps.len() ==> #[trigger] temperatures@[i] == Some(steps[i].temperature),
        forall|i: int|
            0 <= i < names.len() ==> (#[trigger] names[i]).len() > 0 && !crate::text::is_space(
                names[i][0],
            ) && !names[i].contains(':') && !names[i].contains(','),
        spec@ == crate::text::join_with(
            Seq::new(
                steps.len(),
                |i: int|
                    written_step(names[i], steps[i].hold_time_seconds, steps[i].pump_time_seconds),
            ),
            ',',
        ),
    ensures
        r is Ok,
        r->Ok_0.steps@ == steps,
{
    let parts = Seq::new(
        steps.len(),
        |i: int| written_step(names[i], steps[i].hold_time_seconds, steps[i].pump_time_seconds),
    );
    assert forall|i: int| 0 <= i < parts.len() implies !(#[trigger] parts[i]).contains(',') by {
        lemma_no_comma(names[i], steps[i].hold_time_seconds, steps[i].pump_time_seconds);
    }
    crate::text::law_split_undoes_join(parts, ',');
    lemma_all_read(names, steps, temperatures@, parts, steps.len());
    assert(steps.take(steps.len() as int) == steps);
}

proof fn lemma_no_comma(text: Seq<char>, hold: u32, pump: u32)
    requires
        !text.contains(','),
    ensures
        !written_step(text, hold, pump).contains(','),
{
    let h = crate::text::decimal(hold as nat);
    let p = crate::text::decimal(pump as nat);
    let fields = seq![text, h, p];
    crate::text::lemma_decimal_is_digits(hold as nat);
    crate::text::lemma_decimal_is_digits(pump as nat);
    let all = written_step(text, hold, pump);
    reveal_with_fuel(crate::text::join_with, 4);
    assert(fields.drop_last() == seq![text, h]);
    assert(seq![text, h].drop_last() == seq![text]);
    assert(all == (text.push(':') + h).push(':') + p);
    assert forall|i: int| 0 <= i < all.len() implies all[i] != ',' by {
        if i < text.len() {
            assert(all[i] == text[i]);
        } else if text.len() < i < text.len() + 1 + h.len() {
            assert(all[i] == h[i - text.len() - 1]);
        } else if i > text.len() + 1 + h.len() {
            assert(all[i] == p[i - text.len() - h.len() - 2]);
        }
    }
}

proof fn lemma_all_read(
    names: Seq<Seq<char>>,
    steps: Seq<WorkflowStep>,
    temperatures: Seq<Option<Single>>,
    parts: Seq<Seq<char>>,
    n: nat,
)
    requires
        n <= steps.len(),
        names.len() == steps.len(),
        temperatures.len() == steps.len(),
        parts.len() == steps.len(),
        forall|i: int| 0 <= i < steps.len() ==> #[trigger] temperatures[i] == Some(steps[i].temperature),
        forall|i: int|
            0 <= i < names.len() ==> (#[trigger] names[i]).len() > 0 && !crate::text::is_space(
                names[i][0],
            ) && !names[i].contains(':'),
        forall|i: int|
            0 <= i < parts.len() ==> #[trigger] parts[i] == written_step(
                names[i],
                steps[i].hold_time_seconds,
                steps[i].pump_time_seconds,
            ),
    ensures
        steps_of(parts, temperatures, n) == Ok::<_, Seq<char>>(steps.take(n as int)),
    decreases n,
{
    if n > 0 {
        let i = n - 1;
        lemma_all_read(names, steps, temperatures, parts, i as nat);
        assert(names[i].len() > 0);
        assert(temperatures[i] == Some(steps[i].temperature));
        law_written_step_is_read(
            names[i],
            steps[i].temperature,
            steps[i].hold_time_seconds,
            steps[i].pump_time_seconds,
        );
        assert(parts[i] == written_step(
            names[i],
            steps[i].hold_time_seconds,
            steps[i].pump_time_seconds,
        ));
        assert(steps.take(i).push(steps[i]) == steps.take(n as int));
    } else {
        assert(steps.take(0) == Seq::<WorkflowStep>::empty());
    }
}

} // verus!
