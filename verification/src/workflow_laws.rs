//! What holds of every run of a workflow.
use crate::workflow::ActionView;
use crate::workflow::EventView;
use crate::workflow::Machine;
use crate::workflow::Phase;
use crate::workflow::WorkflowState;
use crate::workflow::WorkflowStep;
use crate::workflow::MAX_POLLS;
use crate::workflow::POLL_INTERVAL_MILLIS;
use crate::workflow::SETTLE_MILLIS;
use crate::single::Single;
use vstd::arithmetic::power2::lemma2_to64;
use vstd::arithmetic::power2::lemma_pow2_adds;
use vstd::arithmetic::power2::lemma_pow2_pos;
use vstd::arithmetic::power2::pow2;
use vstd::prelude::*;

verus! {

/// An action that switches something off or ends the run.
pub open spec fn quiet(action: ActionView) -> bool {
    action == ActionView::PumpOff || action == ActionView::HeaterOff || action is Finish
}

/// Once a run is stopped, it only switches things off and ends, whatever happens; nothing but the
/// caller makes it run again.
pub proof fn law_stopped_run_only_winds_down(m: Machine, event: EventView)
    requires
        m.wf(),
        m.state == WorkflowState::Stopped,
    ensures
        quiet(m.next(event).1),
        m.next(event).0.state != WorkflowState::Running,
        m.next(event).0.wf(),
{
}

/// A run that another one followed only switches things off and ends, with two events at most.
/// It leaves the state, the step and everything else of the runner to the other run.
pub proof fn law_superseded_run_gives_way(m: Machine, event: EventView, later: EventView)
    requires
        m.wf(),
        !m.is_latest(),
    ensures
        ({
            let n = m.next(event).0;
            &&& quiet(m.next(event).1)
            &&& n.state == m.state
            &&& n.current_step == m.current_step
            &&& n.active == m.active
            &&& n.latest == m.latest
            &&& n.wf() && !n.is_latest()
            &&& m.next(event).1 is Finish || n.next(later).1 is Finish
        }),
{
}

/// A paused run neither starts a step nor reads a temperature. It stays paused, unless its last
/// step is done or something fails.
pub proof fn law_paused_run_starts_no_step(m: Machine, event: EventView)
    requires
        m.wf(),
        m.state == WorkflowState::Paused,
    ensures
        !(m.next(event).1 is SetTarget),
        m.next(event).1 != ActionView::ReadTemperature,
        m.next(event).0.state != WorkflowState::Running,
        m.next(event).0.state != WorkflowState::Stopped,
        m.next(event).0.wf(),
{
}

/// How many more events a run can take, at most.
pub open spec fn remaining(m: Machine) -> int {
    let at_phase: int = match m.phase {
        Phase::Ready => 2000,
        Phase::Targeting => 1000,
        Phase::Heating => 999,
        Phase::Settling => 998,
        Phase::Reading => 2 * (MAX_POLLS - m.polls) + 101,
        Phase::Polling => 2 * (MAX_POLLS - m.polls) + 100,
        Phase::Holding => 50,
        Phase::PumpStarting => 40,
        Phase::Pumping => 30,
        Phase::PumpStopping => 20,
        Phase::FailingPump | Phase::CompletingPump => 2,
        Phase::FailingHeater | Phase::CompletingHeater => 1,
        Phase::Finished => 0,
    };
    if m.phase == Phase::Finished {
        0
    } else {
        (m.steps.len() - m.index) * 1000 + at_phase
    }
}

/// Every event brings a run nearer to its end, so that every run ends; it is over exactly
/// when the action says so.
pub proof fn law_run_ends(m: Machine, event: EventView)
    requires
        m.wf(),
        m.phase != Phase::Finished,
    ensures
        0 <= remaining(m.next(event).0) < remaining(m),
        m.next(event).1 is Finish <==> m.next(event).0.phase == Phase::Finished,
        m.next(event).1 is Finish && m.is_latest() ==> !m.next(event).0.active,
{
    let n = m.next(event).0;
    assert((m.steps.len() - m.index) * 1000 >= 0);
    if n.index == m.index + 1 {
        assert((n.steps.len() - n.index) * 1000 == (m.steps.len() - m.index) * 1000 - 1000);
    }
}

/// An action of a step that fails ends the run with that error: the pump and the heater are
/// switched off first, whatever comes of it, and the state says that there was an error.
pub proof fn law_failure_switches_off(
    m: Machine,
    failure: crate::error::Failure,
    first: EventView,
    second: EventView,
)
    requires
        m.wf(),
        m.is_latest(),
        crate::workflow::in_step(m.phase),
        m.phase != Phase::Reading,
    ensures
        ({
            let (m1, a1) = m.next(EventView::Failed(failure));
            let (m2, a2) = m1.next(first);
            let (m3, a3) = m2.next(second);
            &&& a1 == ActionView::PumpOff
            &&& a2 == ActionView::HeaterOff
            &&& a3 == ActionView::Finish(Some(failure))
            &&& m1.state == WorkflowState::Error
            &&& m3.state == WorkflowState::Error
            &&& m3.phase == Phase::Finished
            &&& !m3.active
        }),
{
}

/// A temperature that cannot be read does not end a run.
pub proof fn law_failed_reading_is_retried(m: Machine, failure: crate::error::Failure)
    requires
        m.wf(),
        m.is_latest(),
        m.phase == Phase::Reading,
        m.state != WorkflowState::Stopped,
    ensures
        m.next(EventView::Failed(failure)).0 == (Machine { phase: Phase::Polling, ..m }),
        m.next(EventView::Failed(failure)).1 == (ActionView::Sleep {
            millis: POLL_INTERVAL_MILLIS,
        }),
{
}

/// The pump runs or may run.
pub open spec fn pump_may_run(phase: Phase) -> bool {
    phase == Phase::PumpStarting || phase == Phase::Pumping || phase == Phase::PumpStopping
}

/// A run switches the pump on only in its turn, and does not go on before it has asked to
/// switch it off.
pub proof fn law_pump_is_switched_off(m: Machine, event: EventView)
    requires
        m.wf(),
    ensures
        m.next(event).1 == ActionView::PumpOn ==> m.next(event).0.phase == Phase::PumpStarting,
        pump_may_run(m.phase) && m.phase != Phase::PumpStopping ==> m.next(event).1
            == ActionView::PumpOff || m.next(event).0.phase == Phase::Pumping,
        m.next(event).0.phase == Phase::PumpStopping ==> m.next(event).1 == ActionView::PumpOff,
{
}

/// The actions that events lead to, one after another.
pub open spec fn trace(m: Machine, events: Seq<EventView>) -> Seq<ActionView>
    decreases events.len(),
{
    if events.len() == 0 {
        seq![]
    } else {
        let (n, action) = m.next(events[0]);
        seq![action] + trace(n, events.skip(1))
    }
}

/// Where events lead.
pub open spec fn after(m: Machine, events: Seq<EventView>) -> Machine
    decreases events.len(),
{
    if events.len() == 0 {
        m
    } else {
        after(m.next(events[0]).0, events.skip(1))
    }
}

/// Events one by one and in a row lead to the same.
proof fn lemma_trace_joins(m: Machine, a: Seq<EventView>, b: Seq<EventView>)
    ensures
        trace(m, a + b) == trace(m, a) + trace(after(m, a), b),
        after(m, a + b) == after(after(m, a), b),
    decreases a.len(),
{
    if a.len() == 0 {
        assert(a + b == b);
        assert(trace(m, a) + trace(m, b) == trace(m, b));
    } else {
        let (n, action) = m.next(a[0]);
        assert((a + b)[0] == a[0]);
        assert((a + b).skip(1) == a.skip(1) + b);
        lemma_trace_joins(n, a.skip(1), b);
        assert(seq![action] + (trace(n, a.skip(1)) + trace(after(n, a.skip(1)), b)) == (seq![action]
            + trace(n, a.skip(1))) + trace(after(n, a.skip(1)), b));
    }
}

/// One more event in front.
proof fn lemma_trace_first(m: Machine, event: EventView, rest: Seq<EventView>)
    ensures
        trace(m, seq![event] + rest) == seq![m.next(event).1] + trace(m.next(event).0, rest),
        after(m, seq![event] + rest) == after(m.next(event).0, rest),
{
    assert((seq![event] + rest).skip(1) == rest);
}

/// A reading that does not end the waiting: one that failed, or one too far from the target.
pub open spec fn is_miss(event: EventView, target: Single) -> bool {
    match event {
        EventView::Failed(_) => true,
        EventView::Temperature(t) => !crate::workflow::reached(t, target),
        EventView::Done => false,
    }
}

/// Every reading is a miss.
pub open spec fn all_miss(misses: Seq<EventView>, target: Single) -> bool {
    forall|j: int| 0 <= j < misses.len() ==> is_miss(#[trigger] misses[j], target)
}

/// The events of waiting in vain: a miss, then the end of the pause, again and again.
pub open spec fn miss_events(misses: Seq<EventView>) -> Seq<EventView>
    decreases misses.len(),
{
    if misses.len() == 0 {
        seq![]
    } else {
        seq![misses[0]] + (seq![EventView::Done] + miss_events(misses.skip(1)))
    }
}

/// The events of a step that goes well: some readings are misses, and then one is near enough.
pub open spec fn step_events(
    step: WorkflowStep,
    misses: Seq<EventView>,
    reading: Single,
) -> Seq<EventView> {
    seq![EventView::Done] + (seq![EventView::Done] + (seq![EventView::Done] + (miss_events(misses)
        + (seq![EventView::Temperature(reading)] + (hold_events(step) + pump_events(step))))))
}

pub open spec fn hold_events(step: WorkflowStep) -> Seq<EventView> {
    if step.hold_time_seconds > 0 {
        seq![EventView::Done]
    } else {
        seq![]
    }
}

pub open spec fn pump_events(step: WorkflowStep) -> Seq<EventView> {
    if step.pump_time_seconds > 0 {
        seq![EventView::Done] + (seq![EventView::Done] + seq![EventView::Done])
    } else {
        seq![]
    }
}

/// What a step does after its target is set, where `misses` readings are not near enough: heat,
/// wait until the temperature is reached, hold, pump.
pub open spec fn script(step: WorkflowStep, misses: nat) -> Seq<ActionView> {
    seq![ActionView::HeaterOn, ActionView::Sleep { millis: SETTLE_MILLIS }] + wait_script(misses)
        + hold_script(step) + pump_script(step)
}

/// A reading and a pause for every miss, and the reading that is near enough.
pub open spec fn wait_script(misses: nat) -> Seq<ActionView>
    decreases misses,
{
    if misses == 0 {
        seq![ActionView::ReadTemperature]
    } else {
        seq![ActionView::ReadTemperature, ActionView::Sleep { millis: POLL_INTERVAL_MILLIS }]
            + wait_script((misses - 1) as nat)
    }
}

pub open spec fn hold_script(step: WorkflowStep) -> Seq<ActionView> {
    if step.hold_time_seconds > 0 {
        seq![ActionView::Sleep { millis: (step.hold_time_seconds * 1000) as u64 }]
    } else {
        seq![]
    }
}

pub open spec fn pump_script(step: WorkflowStep) -> Seq<ActionView> {
    if step.pump_time_seconds > 0 {
        seq![
            ActionView::PumpOn,
            ActionView::Sleep { millis: (step.pump_time_seconds * 1000) as u64 },
            ActionView::PumpOff,
        ]
    } else {
        seq![]
    }
}

/// The machine at the next step.
pub open spec fn at_next(m: Machine) -> Machine {
    Machine { index: m.index + 1, ..m }
}

/// The pump's turn and the way to the next step.
proof fn lemma_pump_turn(m: Machine)
    requires
        m.wf(),
        m.is_latest(),
        m.state != WorkflowState::Stopped,
        m.index < m.steps.len(),
        crate::workflow::in_step(m.phase),
    ensures
        seq![m.pump().1] + trace(m.pump().0, pump_events(m.step())) == pump_script(m.step())
            + seq![at_next(m).enter().1],
        after(m.pump().0, pump_events(m.step())) == at_next(m).enter().0,
{
    let done = EventView::Done;
    let step = m.step();
    if step.pump_time_seconds > 0 {
        let m1 = m.pump().0;
        let m2 = m1.next(done).0;
        let m3 = m2.next(done).0;
        lemma_trace_first(m1, done, seq![done] + seq![done]);
        lemma_trace_first(m2, done, seq![done]);
        lemma_trace_first(m3, done, seq![]);
        assert(seq![done] + Seq::<EventView>::empty() == seq![done]);
        assert(m3.next(done) == at_next(m).enter());
        assert(seq![m.pump().1] + trace(m1, pump_events(step)) == pump_script(step) + seq![
            at_next(m).enter().1,
        ]);
    } else {
        assert(m.pump() == at_next(m).enter());
        assert(seq![m.pump().1] + trace(m.pump().0, Seq::<EventView>::empty()) == pump_script(step)
            + seq![at_next(m).enter().1]);
    }
}

/// Waiting: every miss is followed by a pause and another reading.
proof fn lemma_misses(m: Machine, misses: Seq<EventView>)
    requires
        m.wf(),
        m.is_latest(),
        m.state == WorkflowState::Running,
        m.phase == Phase::Reading,
        m.polls + misses.len() < MAX_POLLS,
        all_miss(misses, m.step().temperature),
    ensures
        seq![ActionView::ReadTemperature] + trace(m, miss_events(misses)) == wait_script(
            misses.len(),
        ),
        after(m, miss_events(misses)) == m.at_polls(m.polls + misses.len()),
    decreases misses.len(),
{
    let read = seq![ActionView::ReadTemperature];
    if misses.len() == 0 {
        assert(read + Seq::<ActionView>::empty() == read);
    } else {
        let done = EventView::Done;
        let rest = misses.skip(1);
        assert(is_miss(misses[0], m.step().temperature));
        lemma_trace_first(m, misses[0], seq![done] + miss_events(rest));
        let (m1, a1) = m.next(misses[0]);
        lemma_trace_first(m1, done, miss_events(rest));
        let (m2, a2) = m1.next(done);
        assert(m2 == m.at_polls(m.polls + 1));
        lemma_misses(m2, rest);
        assert(read + trace(m, miss_events(misses)) == seq![a2, a1] + (read + trace(
            m2,
            miss_events(rest),
        )));
    }
}

/// Hold and pump, once the waiting is over.
proof fn lemma_hold_and_pump(m: Machine)
    requires
        m.wf(),
        m.is_latest(),
        m.state != WorkflowState::Stopped,
        crate::workflow::in_step(m.phase),
    ensures
        ({
            let events = hold_events(m.step()) + pump_events(m.step());
            let (n, action) = m.hold();
            &&& seq![action] + trace(n, events) == hold_script(m.step()) + pump_script(m.step())
                + seq![at_next(m).enter().1]
            &&& after(n, events) == at_next(m).enter().0
        }),
{
    let done = EventView::Done;
    let step = m.step();
    let tail = hold_events(step) + pump_events(step);
    let (n, action) = m.hold();
    if step.hold_time_seconds > 0 {
        lemma_trace_first(n, done, pump_events(step));
        lemma_pump_turn(n);
        assert(at_next(n).enter() == at_next(m).enter());
        assert(seq![action] + trace(n, tail) == hold_script(step) + (seq![n.pump().1] + trace(
            n.pump().0,
            pump_events(step),
        )));
        assert(hold_script(step) + (pump_script(step) + seq![at_next(m).enter().1])
            == hold_script(step) + pump_script(step) + seq![at_next(m).enter().1]);
    } else {
        assert(tail == pump_events(step));
        lemma_pump_turn(m);
        assert(hold_script(step) + pump_script(step) == pump_script(step));
    }
}

/// A step whose temperature is reached in time, after however many readings that failed or were
/// too far off, does what its script says, and then the next one starts.
pub proof fn law_step_follows_script(m: Machine, misses: Seq<EventView>, reading: Single)
    requires
        m.wf(),
        m.is_latest(),
        m.state == WorkflowState::Running,
        m.phase == Phase::Targeting,
        m.polls == 0,
        misses.len() < MAX_POLLS,
        all_miss(misses, m.step().temperature),
        crate::workflow::reached(reading, m.step().temperature),
    ensures
        trace(m, step_events(m.step(), misses, reading)) == script(m.step(), misses.len()) + seq![
            at_next(m).enter().1,
        ],
        after(m, step_events(m.step(), misses, reading)) == at_next(
            m.at_polls(misses.len()),
        ).enter().0,
{
    let done = EventView::Done;
    let step = m.step();
    let m1 = m.next(done).0;
    let m2 = m1.next(done).0;
    let m3 = m2.next(done).0;
    let tail = seq![EventView::Temperature(reading)] + (hold_events(step) + pump_events(step));
    let waiting = miss_events(misses);
    lemma_trace_first(m, done, seq![done] + (seq![done] + (waiting + tail)));
    lemma_trace_first(m1, done, seq![done] + (waiting + tail));
    lemma_trace_first(m2, done, waiting + tail);
    lemma_trace_joins(m3, waiting, tail);
    lemma_misses(m3, misses);
    let m4 = m3.at_polls(misses.len());
    lemma_trace_first(
        m4,
        EventView::Temperature(reading),
        hold_events(step) + pump_events(step),
    );
    lemma_hold_and_pump(m4);
    assert(at_next(m4).enter().1 == at_next(m).enter().1);
    assert(at_next(m4).enter().0 == at_next(m.at_polls(misses.len())).enter().0);
    let end = seq![at_next(m).enter().1];
    let read = seq![ActionView::ReadTemperature];
    let heat = seq![ActionView::HeaterOn, ActionView::Sleep { millis: SETTLE_MILLIS }];
    assert(trace(m, step_events(step, misses, reading)) == heat + (read + trace(m3, waiting))
        + trace(m4, tail));
    assert(heat + wait_script(misses.len()) + (hold_script(step) + pump_script(step) + end)
        == script(step, misses.len()) + end);
}

/// A run that is paused while it waits for a temperature waits no longer: it holds, pumps and is
/// then over. After its last step it switches off and is completed; after any other it remains
/// paused at that step.
pub proof fn law_paused_run_finishes_its_step(m: Machine)
    requires
        m.wf(),
        m.is_latest(),
        m.state == WorkflowState::Paused,
        m.phase == Phase::Settling || (m.phase == Phase::Polling && m.polls + 1 < MAX_POLLS),
    ensures
        ({
            let last = m.index + 1 == m.steps.len();
            let events = seq![EventView::Done] + (hold_events(m.step()) + pump_events(m.step()))
                + if last {
                seq![EventView::Done, EventView::Done]
            } else {
                seq![]
            };
            let end = after(m, events);
            &&& trace(m, events) == hold_script(m.step()) + pump_script(m.step()) + if last {
                seq![ActionView::PumpOff, ActionView::HeaterOff, ActionView::Finish(None)]
            } else {
                seq![ActionView::Finish(None)]
            }
            &&& end.phase == Phase::Finished
            &&& !end.active
            &&& end.state == if last {
                WorkflowState::Completed
            } else {
                WorkflowState::Paused
            }
            &&& end.current_step == if last {
                m.steps.len()
            } else {
                m.current_step
            }
        }),
{
    let done = EventView::Done;
    let step = m.step();
    let last = m.index + 1 == m.steps.len();
    let waiting = if m.phase == Phase::Polling {
        m.at_polls(m.polls + 1)
    } else {
        m
    };
    let own = seq![done] + (hold_events(step) + pump_events(step));
    lemma_trace_first(m, done, hold_events(step) + pump_events(step));
    assert(m.next(done) == waiting.hold());
    lemma_hold_and_pump(waiting);
    let (e, action) = at_next(waiting).enter();
    let scripts = hold_script(step) + pump_script(step);
    if last {
        let off = seq![done, done];
        lemma_trace_joins(m, own, off);
        assert(off == seq![done] + (seq![done] + Seq::<EventView>::empty()));
        lemma_trace_first(e, done, seq![done] + Seq::<EventView>::empty());
        lemma_trace_first(e.next(done).0, done, Seq::<EventView>::empty());
        assert(trace(m, own + off) == scripts + seq![
            ActionView::PumpOff,
            ActionView::HeaterOff,
            ActionView::Finish(None),
        ]);
    } else {
        assert(own + Seq::<EventView>::empty() == own);
    }
}

/// The events of a run from step `i` on that goes well, the end included.
pub open spec fn all_events(
    steps: Seq<WorkflowStep>,
    misses: Seq<Seq<EventView>>,
    readings: Seq<Single>,
    i: nat,
) -> Seq<EventView>
    decreases steps.len() - i,
{
    if i >= steps.len() {
        seq![EventView::Done] + seq![EventView::Done]
    } else {
        step_events(steps[i as int], misses[i as int], readings[i as int]) + all_events(
            steps,
            misses,
            readings,
            i + 1,
        )
    }
}

/// What a workflow does from step `i` on: for each step the target and its script, and at the
/// end the pump and the heater off.
pub open spec fn all_actions(
    steps: Seq<WorkflowStep>,
    misses: Seq<Seq<EventView>>,
    i: nat,
) -> Seq<ActionView>
    decreases steps.len() - i,
{
    if i >= steps.len() {
        seq![ActionView::PumpOff, ActionView::HeaterOff, ActionView::Finish(None)]
    } else {
        seq![ActionView::SetTarget(steps[i as int].temperature)] + script(
            steps[i as int],
            misses[i as int].len(),
        ) + all_actions(steps, misses, i + 1)
    }
}

/// In every step the temperature is reached in time: fewer readings than the limit are misses,
/// and the one after them is near enough.
pub open spec fn all_reached(
    steps: Seq<WorkflowStep>,
    misses: Seq<Seq<EventView>>,
    readings: Seq<Single>,
) -> bool {
    &&& misses.len() == steps.len()
    &&& readings.len() == steps.len()
    &&& forall|i: int| 0 <= i < steps.len() ==> (#[trigger] misses[i]).len() < MAX_POLLS
    &&& forall|i: int|
        0 <= i < steps.len() ==> all_miss(#[trigger] misses[i], steps[i].temperature)
    &&& forall|i: int|
        0 <= i < steps.len() ==> crate::workflow::reached(
            #[trigger] readings[i],
            steps[i].temperature,
        )
}

/// The rest of a run that goes well.
proof fn lemma_rest_of_run(m: Machine, misses: Seq<Seq<EventView>>, readings: Seq<Single>)
    requires
        m.wf(),
        m.is_latest(),
        m.state == WorkflowState::Running,
        all_reached(m.steps, misses, readings),
    ensures
        seq![m.enter().1] + trace(m.enter().0, all_events(m.steps, misses, readings, m.index))
            == all_actions(m.steps, misses, m.index),
        ({
            let end = after(m.enter().0, all_events(m.steps, misses, readings, m.index));
            &&& end.state == WorkflowState::Completed
            &&& end.current_step == m.steps.len()
            &&& end.phase == Phase::Finished
            &&& !end.active
        }),
    decreases m.steps.len() - m.index,
{
    let done = EventView::Done;
    let e = m.enter().0;
    if m.index >= m.steps.len() {
        let e1 = e.next(done).0;
        lemma_trace_first(e, done, seq![done]);
        lemma_trace_first(e1, done, seq![]);
        assert(seq![done] + Seq::<EventView>::empty() == seq![done]);
        assert(seq![m.enter().1] + trace(e, seq![done] + seq![done]) == all_actions(
            m.steps,
            misses,
            m.index,
        ));
    } else {
        let step = m.step();
        let missed = misses[m.index as int];
        let reading = readings[m.index as int];
        let first = step_events(step, missed, reading);
        let rest = all_events(m.steps, misses, readings, m.index + 1);
        law_step_follows_script(e, missed, reading);
        lemma_trace_joins(e, first, rest);
        let n = at_next(e.at_polls(missed.len()));
        // At the next step, and not yet in it.
        let ready = Machine { phase: Phase::Ready, ..n };
        assert(ready.enter() == n.enter());
        assert(n.enter().1 == at_next(e).enter().1);
        lemma_rest_of_run(ready, misses, readings);
        let own = script(step, missed.len());
        assert(seq![m.enter().1] + (own + seq![n.enter().1] + trace(n.enter().0, rest)) == seq![
            ActionView::SetTarget(step.temperature),
        ] + own + (seq![n.enter().1] + trace(n.enter().0, rest)));
    }
}

/// A run in which every temperature is reached in time takes every step in its order, however
/// many readings fail or are too far off before that, switches the pump and the heater off at the
/// end, and is completed.
pub proof fn law_heated_run_completes(
    m: Machine,
    misses: Seq<Seq<EventView>>,
    readings: Seq<Single>,
)
    requires
        m.wf(),
        m.is_latest(),
        m.state == WorkflowState::Running,
        m.phase == Phase::Ready,
        m.index == 0,
        all_reached(m.steps, misses, readings),
    ensures
        ({
            let events = seq![EventView::Done] + all_events(m.steps, misses, readings, 0);
            let end = after(m, events);
            &&& trace(m, events) == all_actions(m.steps, misses, 0)
            &&& end.state == WorkflowState::Completed
            &&& end.current_step == m.steps.len()
            &&& end.phase == Phase::Finished
            &&& !end.active
        }),
{
    lemma_trace_first(m, EventView::Done, all_events(m.steps, misses, readings, 0));
    lemma_rest_of_run(m, misses, readings);
}

/// A step whose temperature is never reached fails with a timeout once it has taken as many
/// readings as the limit says, whichever of them failed and whichever were too far off. The
/// pump and the heater are switched off after the last pause, whatever comes of it.
pub proof fn law_cold_step_times_out(
    m: Machine,
    misses: Seq<EventView>,
    first: EventView,
    second: EventView,
)
    requires
        m.wf(),
        m.is_latest(),
        m.state == WorkflowState::Running,
        m.phase == Phase::Reading,
        m.polls + misses.len() == MAX_POLLS,
        all_miss(misses, m.step().temperature),
    ensures
        seq![ActionView::ReadTemperature] + trace(m, miss_events(misses)) == wait_script(
            (misses.len() - 1) as nat,
        ) + seq![ActionView::Sleep { millis: POLL_INTERVAL_MILLIS }, ActionView::PumpOff],
        ({
            let (m1, a1) = after(m, miss_events(misses)).next(first);
            let (m2, a2) = m1.next(second);
            &&& a1 == ActionView::HeaterOff
            &&& a2 == ActionView::Finish(Some(crate::error::Failure::Timeout))
            &&& m2.state == WorkflowState::Error
            &&& m2.phase == Phase::Finished
            &&& !m2.active
        }),
    decreases misses.len(),
{
    let done = EventView::Done;
    let rest = misses.skip(1);
    let read = seq![ActionView::ReadTemperature];
    assert(is_miss(misses[0], m.step().temperature));
    lemma_trace_first(m, misses[0], seq![done] + miss_events(rest));
    let (m1, a1) = m.next(misses[0]);
    lemma_trace_first(m1, done, miss_events(rest));
    let (m2, a2) = m1.next(done);
    if misses.len() > 1 {
        law_cold_step_times_out(m2, rest, first, second);
        assert(read + trace(m, miss_events(misses)) == seq![a2, a1] + (read + trace(
            m2,
            miss_events(rest),
        )));
        let end = seq![ActionView::Sleep { millis: POLL_INTERVAL_MILLIS }, ActionView::PumpOff];
        assert(seq![a2, a1] + (wait_script((rest.len() - 1) as nat) + end) == seq![a2, a1]
            + wait_script((rest.len() - 1) as nat) + end);
    }
}

/// Milliseconds that a step spends on the pauses between its readings while events come in, up
/// to the end of the step.
pub open spec fn waited(m: Machine, events: Seq<EventView>) -> nat
    decreases events.len(),
{
    if events.len() == 0 || m.next(events[0]).0.index != m.index {
        0
    } else {
        let (n, action) = m.next(events[0]);
        let pause: nat = match action {
            ActionView::Sleep { millis } if n.phase == Phase::Polling => millis as nat,
            _ => 0,
        };
        pause + waited(n, events.skip(1))
    }
}

/// How many pauses between readings the step can still ask for, at most.
spec fn pauses_left(m: Machine) -> int {
    match m.phase {
        Phase::Ready | Phase::Targeting | Phase::Heating | Phase::Settling => MAX_POLLS as int,
        Phase::Reading => MAX_POLLS - m.polls,
        Phase::Polling => MAX_POLLS - m.polls - 1,
        _ => 0,
    }
}

proof fn lemma_waited(m: Machine, events: Seq<EventView>)
    requires
        m.wf(),
    ensures
        waited(m, events) <= pauses_left(m) * POLL_INTERVAL_MILLIS,
    decreases events.len(),
{
    if events.len() > 0 {
        lemma_waited(m.next(events[0]).0, events.skip(1));
    }
}

/// The pauses between the readings of one step add up to five minutes at most, whatever happens.
pub proof fn law_step_waits_five_minutes_at_most(m: Machine, events: Seq<EventView>)
    requires
        m.wf(),
        m.phase == Phase::Targeting,
    ensures
        waited(m, events) <= 300_000,
{
    lemma_waited(m, events);
}

/// A distance rounds to one degree at most exactly where it is that small, up to the rounding.
proof fn lemma_within_one(neg: bool, n: nat)
    ensures
        ({
            let near = crate::single::nearest(neg, n, 1).absolute().le(
                Single { bits: crate::workflow::TOLERANCE },
            );
            &&& n <= pow2(149) ==> near
            &&& near ==> n <= pow2(149) + pow2(125)
        }),
{
    let one = Single { bits: crate::workflow::TOLERANCE };
    let x = crate::single::nearest(neg, n, 1);
    lemma2_to64();
    lemma_pow2_pos(125);
    lemma_pow2_adds(23, 126);
    lemma_pow2_adds(24, 126);
    lemma_pow2_adds(1, 149);
    lemma_pow2_adds(1, 125);
    lemma_pow2_adds(24, 125);
    assert(one.significand() == 0x80_0000 && one.shift() == 126);
    assert(one.signed_units() == pow2(149));
    let exact = crate::single::nearest(false, pow2(149), 1);
    let double = crate::single::nearest(false, pow2(150), 1);
    crate::accuracy::lemma_nearest_exact(false, 0x80_0000, 126);
    crate::accuracy::lemma_nearest_exact(false, 0x80_0000, 127);
    lemma_pow2_adds(23, 127);
    crate::accuracy::lemma_nearest_is_number(neg, n, 1);
    crate::accuracy::lemma_nearest_is_number(false, pow2(149), 1);
    crate::accuracy::lemma_nearest_is_number(false, pow2(150), 1);
    crate::single::lemma_rank_orders_values(exact, one);
    crate::single::lemma_rank_orders_values(one, double);
    crate::single::lemma_rank_orders_values(double, one);
    if n <= pow2(149) {
        crate::accuracy::lemma_round_monotonic(n, pow2(149), 1);
    } else if n >= pow2(150) {
        crate::accuracy::lemma_round_monotonic(pow2(150), n, 1);
    } else {
        crate::accuracy::lemma_nearest_error(neg, n, 1, 126);
        let size = x.absolute();
        assert(size.is_finite() && size.signed_units() == x.units());
        crate::single::lemma_rank_orders_values(size, one);
    }
}

proof fn lemma_reached(current: Single, target: Single)
    ensures
        crate::workflow::reached(current, target) ==> current.is_finite() && target.is_finite(),
        current.is_finite() && target.is_finite() ==> {
            let off = current.signed_units() - target.signed_units();
            &&& -pow2(149) <= off <= pow2(149) ==> crate::workflow::reached(current, target)
            &&& crate::workflow::reached(current, target) ==> -pow2(149) - pow2(125) <= off
                <= pow2(149) + pow2(125)
        },
{
    if current.is_finite() && target.is_finite() {
        let off = current.signed_units() - target.signed_units();
        let other = target.opposite();
        assert(other.is_finite() && other.signed_units() == -target.signed_units());
        lemma_pow2_pos(149);
        lemma_pow2_pos(125);
        if off > 0 {
            lemma_within_one(false, off as nat);
        } else if off < 0 {
            lemma_within_one(true, (-off) as nat);
        } else {
            let d = current.difference(target);
            assert(d.magnitude() == 0);
        }
    }
}

/// A temperature counts as reached exactly where it lies from one degree below the target to one
/// degree above it, up to the rounding of one subtraction, which is `2^-24` of a degree. What is no
/// finite number is never reached.
pub proof fn law_tolerance(current: Single, target: Single, r: bool)
    requires
        call_ensures(crate::workflow::within_tolerance, (current, target), r),
    ensures
        r ==> current.is_finite() && target.is_finite(),
        current.is_finite() && target.is_finite() ==> {
            let off = current.signed_units() - target.signed_units();
            &&& -pow2(149) <= off <= pow2(149) ==> r
            &&& r ==> -pow2(149) - pow2(125) <= off <= pow2(149) + pow2(125)
        },
{
    lemma_reached(current, target);
}

/// While a step waits, a reading ends the waiting exactly where it is that near to the step's own
/// target: a reading up to one degree off does, and one further off, by more than the rounding,
/// has the run pause for 1500 milliseconds and read again.
pub proof fn law_reading_decides(
    runner: &mut crate::workflow::WorkflowRunner,
    run: &mut crate::workflow::Run,
    t: Single,
    action: crate::workflow::Action,
)
    requires
        crate::workflow::machine(*old(runner), *old(run)).wf(),
        call_ensures(
            crate::workflow::WorkflowRunner::advance,
            (runner, run, crate::workflow::Event::Temperature(t)),
            action,
        ),
        old(run).number == old(runner).number,
        old(runner).state == WorkflowState::Running,
        old(run).phase == Phase::Reading,
    ensures
        ({
            let target = old(run).steps@[old(run).index as int].temperature;
            let off = t.signed_units() - target.signed_units();
            let finite = t.is_finite() && target.is_finite();
            &&& finite && -pow2(149) <= off <= pow2(149) ==> final(run).phase != Phase::Polling
            &&& !finite || off > pow2(149) + pow2(125) || off < -pow2(149) - pow2(125)
                ==> final(run).phase == Phase::Polling && action@ == (ActionView::Sleep {
                millis: 1500,
            })
            &&& final(run).phase == Phase::Polling ==> final(run).index == old(run).index
                && final(runner).state == WorkflowState::Running
        }),
{
    let m = crate::workflow::machine(*old(runner), *old(run));
    lemma_reached(t, m.step().temperature);
    assert(crate::workflow::machine(*final(runner), *final(run)) == m.next(
        EventView::Temperature(t),
    ).0);
}

/// The times of a run: three quarters of a second for the heater before the first reading, one and
/// a half between readings, and the seconds of the step for holding and pumping.
pub proof fn law_times(m: Machine, event: EventView)
    requires
        m.wf(),
        m.is_latest(),
        m.state == WorkflowState::Running,
        !(event is Failed),
    ensures
        m.next(event).0.phase == Phase::Settling ==> m.next(event).1 == (ActionView::Sleep {
            millis: 750,
        }),
        m.next(event).0.phase == Phase::Polling ==> m.next(event).1 == (ActionView::Sleep {
            millis: 1500,
        }),
        m.next(event).0.phase == Phase::Holding ==> m.next(event).1 is Sleep && m.next(
            event,
        ).1->millis == 1000 * m.step().hold_time_seconds && m.step().hold_time_seconds > 0,
        m.next(event).0.phase == Phase::Pumping ==> m.next(event).1 is Sleep && m.next(
            event,
        ).1->millis == 1000 * m.step().pump_time_seconds,
        m.next(event).1 is SetTarget ==> m.next(event).1->SetTarget_0 == m.next(
            event,
        ).0.step().temperature,
{
}

/// A step is read two hundred times at most: after a pause the temperature is read again, one
/// reading further, and after the two hundredth the run fails with a timeout. Each step counts its
/// readings anew.
pub proof fn law_two_hundred_readings(m: Machine, event: EventView)
    requires
        m.wf(),
        m.is_latest(),
        m.state == WorkflowState::Running,
        !(event is Failed),
    ensures
        m.phase == Phase::Polling && m.polls < 199 ==> m.next(event).1 == ActionView::ReadTemperature
            && m.next(event).0.polls == m.polls + 1 && m.next(event).0.phase == Phase::Reading,
        m.phase == Phase::Polling && m.polls >= 199 ==> m.next(event).1 == ActionView::PumpOff
            && m.next(event).0.failure == Some(crate::error::Failure::Timeout) && m.next(
            event,
        ).0.state == WorkflowState::Error,
        m.next(event).1 is SetTarget ==> m.next(event).0.polls == 0,
        m.polls < 200,
{
}

/// The step that is told is the step that the run is at, and after the last one it is their number.
pub proof fn law_step_is_told(m: Machine, event: EventView)
    requires
        m.wf(),
        m.is_latest(),
    ensures
        m.next(event).1 is SetTarget ==> m.next(event).0.current_step == m.next(event).0.index,
        !(m.next(event).1 is SetTarget) && m.phase != Phase::CompletingHeater ==> m.next(
            event,
        ).0.current_step == m.current_step,
        m.phase == Phase::CompletingHeater ==> m.next(event).0.current_step == m.steps.len()
            && m.next(event).0.state == WorkflowState::Completed && m.next(event).1
            == ActionView::Finish(None),
        m.next(event).0.index == m.index || m.next(event).0.index == m.index + 1,
        m.next(event).0.steps == m.steps,
{
}

/// A run that another one took over from switches its pump off where that may be on. Otherwise it is
/// over, and it tells what it had failed with, if anything. Whatever belongs to the other run stays.
pub proof fn law_giving_way(m: Machine, event: EventView)
    requires
        m.number != m.latest,
    ensures
        m.phase == Phase::PumpStarting || m.phase == Phase::Pumping ==> m.next(event) == (
            Machine { phase: Phase::PumpStopping, ..m },
            ActionView::PumpOff,
        ),
        m.phase != Phase::PumpStarting && m.phase != Phase::Pumping ==> m.next(event) == (
            Machine { phase: Phase::Finished, failure: None, ..m },
            ActionView::Finish(m.failure),
        ),
{
}

/// A stopped run whose last action went well switches its pump off where that may be on. Otherwise
/// it is over without an error.
pub proof fn law_winding_down(m: Machine, event: EventView)
    requires
        m.number == m.latest,
        m.state == WorkflowState::Stopped,
        crate::workflow::in_step(m.phase) || m.phase == Phase::Ready,
        !(event is Failed),
    ensures
        m.phase == Phase::PumpStarting || m.phase == Phase::Pumping ==> m.next(event) == (
            Machine { phase: Phase::PumpStopping, ..m },
            ActionView::PumpOff,
        ),
        m.phase != Phase::PumpStarting && m.phase != Phase::Pumping ==> m.next(event) == (
            Machine { phase: Phase::Finished, active: false, failure: None, ..m },
            ActionView::Finish(None),
        ),
{
}

/// A workflow has the steps that were added to it, in that order, and nothing else.
pub proof fn law_steps_are_added(
    name: &str,
    empty: crate::workflow::Workflow,
    w: crate::workflow::Workflow,
    step: WorkflowStep,
    r: crate::workflow::Workflow,
)
    requires
        call_ensures(crate::workflow::Workflow::new, (name,), empty),
        call_ensures(crate::workflow::Workflow::add_step, (w, step), r),
    ensures
        empty.name@ == name@ && empty.steps@.len() == 0,
        r.name@ == w.name@,
        r.steps@.len() == w.steps@.len() + 1,
        forall|i: int| 0 <= i < w.steps@.len() ==> r.steps@[i] == w.steps@[i],
        r.steps@[w.steps@.len() as int] == step,
{
}

/// A run starts at the first step of the workflow unless another one is running, and a run that is
/// refused changes nothing.
pub proof fn law_start(
    runner: &mut crate::workflow::WorkflowRunner,
    workflow: &crate::workflow::Workflow,
    r: Result<crate::workflow::Run, crate::error::StorzError>,
)
    requires
        call_ensures(crate::workflow::WorkflowRunner::start, (runner, workflow), r),
    ensures
        r is Err <==> old(runner).active && old(runner).state == WorkflowState::Running,
        r is Err ==> *final(runner) == *old(runner),
        r matches Ok(run) ==> {
            &&& final(runner).state == WorkflowState::Running
            &&& final(runner).active
            &&& final(runner).current_step == 0
            &&& final(runner).number == run.number
            &&& run.number != old(runner).number
            &&& run.steps@ == workflow.steps@
            &&& run.index == 0
            &&& run.phase == Phase::Ready
            &&& run.failure is None
        },
{
    if r is Ok {
        let m = crate::workflow::machine(*final(runner), r->Ok_0);
        assert(m.latest == m.number);
        assert(m.failure is None);
    }
}

/// Stopping switches the pump off and then the heater, whatever was going on, and what was running
/// is stopped. Pausing and resuming only turn running into paused and back.
pub proof fn law_stop_pause_resume(
    a: &mut crate::workflow::WorkflowRunner,
    actions: Vec<crate::workflow::Action>,
    b: &mut crate::workflow::WorkflowRunner,
    c: &mut crate::workflow::WorkflowRunner,
)
    requires
        call_ensures(crate::workflow::WorkflowRunner::stop, (a,), actions),
        call_ensures(crate::workflow::WorkflowRunner::pause, (b,), ()),
        call_ensures(crate::workflow::WorkflowRunner::resume, (c,), ()),
    ensures
        final(a).state == WorkflowState::Stopped,
        actions@.len() == 2,
        actions@[0]@ == ActionView::PumpOff,
        actions@[1]@ == ActionView::HeaterOff,
        final(b).state != WorkflowState::Running,
        old(b).state == WorkflowState::Running <==> final(b).state == WorkflowState::Paused
            && final(b).state != old(b).state,
        old(b).state != WorkflowState::Running ==> final(b).state == old(b).state,
        final(c).state != WorkflowState::Paused,
        old(c).state == WorkflowState::Paused ==> final(c).state == WorkflowState::Running,
        old(c).state != WorkflowState::Paused ==> final(c).state == old(c).state,
        final(a).current_step == old(a).current_step && final(a).number == old(a).number
            && final(a).active == old(a).active,
        final(b).current_step == old(b).current_step && final(b).number == old(b).number
            && final(b).active == old(b).active,
        final(c).current_step == old(c).current_step && final(c).number == old(c).number
            && final(c).active == old(c).active,
{
}

/// A new runner has run nothing, and it tells its state and step as they are.
pub proof fn law_new_runner(
    fresh: crate::workflow::WorkflowRunner,
    runner: crate::workflow::WorkflowRunner,
    state: WorkflowState,
    step: usize,
)
    requires
        call_ensures(crate::workflow::WorkflowRunner::new, (), fresh),
        call_ensures(crate::workflow::WorkflowRunner::state, (&runner,), state),
        call_ensures(crate::workflow::WorkflowRunner::current_step, (&runner,), step),
    ensures
        fresh.state == WorkflowState::Idle && fresh.current_step == 0 && !fresh.active,
        state == runner.state,
        step == runner.current_step,
{
}

} // verus!
