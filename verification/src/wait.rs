//! Waiting until a device is warm enough, for the command line and for the tool server.
use crate::cli_output::progress_line;
use crate::cli_output::reached_line;
use crate::cli_output::warm_enough;
use crate::error::StorzError;
use crate::mcp::wait_timeout_text;
use crate::single::Single;
use vstd::arithmetic::power2::lemma2_to64;
use vstd::arithmetic::power2::lemma_pow2_adds;
use vstd::arithmetic::power2::lemma_pow2_pos;
use vstd::arithmetic::power2::pow2;
use vstd::prelude::*;

verus! {

/// Seconds between two readings of the temperature.
pub const PAUSE_SECONDS: u64 = 2;

/// On whose behalf somebody waits.
#[derive(Debug, Clone, Copy, PartialEq, Eq, Structural)]
pub enum WaitKind {
    /// A command: it shows how far the device is, and a reading that fails ends it.
    Command,
    /// A tool: it passes over readings that fail, and gives up after some seconds.
    Tool { seconds: u64 },
}

/// Where waiting stands. Once it is known, the temperature that is waited for goes along.
#[derive(Debug, Clone, Copy, PartialEq, Eq, Structural)]
pub enum WaitPhase {
    Start { celsius: Option<Single> },
    Targeting,
    Preparing { target: Single },
    Reading { target: Single },
    Showing { target: Single },
    Pausing { target: Single },
    Over,
}

/// What waiting needs to have done next.
#[derive(Debug)]
pub enum WaitAction {
    /// Ask the device for its target.
    ReadTarget,
    /// Open the stream of the device's states.
    Subscribe,
    /// From here on, report when this many seconds are over.
    Limit { seconds: u64 },
    ReadTemperature,
    /// Show how far the device is.
    Show(String),
    /// Wait for so long, or until the device tells a state on an open stream.
    Pause { seconds: u64 },
    /// It is warm enough.
    Reached(String),
    /// Something failed.
    Fail(StorzError),
    /// It took too long.
    GiveUp(String),
    /// The waiting is over already.
    Finish,
}

/// An action of waiting with its text as a value.
pub enum WaitActionView {
    ReadTarget,
    Subscribe,
    Limit { seconds: u64 },
    ReadTemperature,
    Show(Seq<char>),
    Pause { seconds: u64 },
    Reached(Seq<char>),
    Fail(crate::error::Failure),
    GiveUp(Seq<char>),
    Finish,
}

impl View for WaitAction {
    type V = WaitActionView;

    open spec fn view(&self) -> WaitActionView {
        match *self {
            WaitAction::ReadTarget => WaitActionView::ReadTarget,
            WaitAction::Subscribe => WaitActionView::Subscribe,
            WaitAction::Limit { seconds } => WaitActionView::Limit { seconds },
            WaitAction::ReadTemperature => WaitActionView::ReadTemperature,
            WaitAction::Show(s) => WaitActionView::Show(s@),
            WaitAction::Pause { seconds } => WaitActionView::Pause { seconds },
            WaitAction::Reached(s) => WaitActionView::Reached(s@),
            WaitAction::Fail(e) => WaitActionView::Fail(e@),
            WaitAction::GiveUp(s) => WaitActionView::GiveUp(s@),
            WaitAction::Finish => WaitActionView::Finish,
        }
    }
}

/// What came of an action of waiting.
#[derive(Debug)]
pub enum WaitEvent {
    Done,
    /// The target or the temperature that was asked for.
    Temperature(Single),
    Failed(StorzError),
    /// The time that was set is over.
    TimedOut,
}

/// An event of waiting with its error as a value.
pub enum WaitEventView {
    Done,
    Temperature(Single),
    Failed(crate::error::Failure),
    TimedOut,
}

impl View for WaitEvent {
    type V = WaitEventView;

    open spec fn view(&self) -> WaitEventView {
        match *self {
            WaitEvent::Done => WaitEventView::Done,
            WaitEvent::Temperature(t) => WaitEventView::Temperature(t),
            WaitEvent::Failed(e) => WaitEventView::Failed(e@),
            WaitEvent::TimedOut => WaitEventView::TimedOut,
        }
    }
}

/// Waiting until the current temperature reaches the target of the device, or a given one.
#[derive(Debug, Clone, Copy)]
pub struct Wait {
    pub kind: WaitKind,
    pub phase: WaitPhase,
}

impl Wait {
    /// The line that tells how far the device is.
    pub open spec fn progress(current: Single, target: Single) -> Seq<char> {
        crate::shown::one_decimal(current) + "°C / "@ + crate::shown::one_decimal(target) + "°C"@
    }

    /// The target is known: a command follows the device's states, a tool sets its limit.
    pub open spec fn prepare(self, target: Single) -> (Wait, WaitActionView) {
        (
            Wait { phase: WaitPhase::Preparing { target }, ..self },
            match self.kind {
                WaitKind::Command => WaitActionView::Subscribe,
                WaitKind::Tool { seconds } => WaitActionView::Limit { seconds },
            },
        )
    }

    pub open spec fn read(self, target: Single) -> (Wait, WaitActionView) {
        (Wait { phase: WaitPhase::Reading { target }, ..self }, WaitActionView::ReadTemperature)
    }

    pub open spec fn pause(self, target: Single) -> (Wait, WaitActionView) {
        (
            Wait { phase: WaitPhase::Pausing { target }, ..self },
            WaitActionView::Pause { seconds: PAUSE_SECONDS },
        )
    }

    /// The waiting is over, with this as the last action.
    pub open spec fn end(self, action: WaitActionView) -> (Wait, WaitActionView) {
        (Wait { phase: WaitPhase::Over, ..self }, action)
    }

    /// The time is over.
    pub open spec fn give_up(self, target: Single) -> (Wait, WaitActionView) {
        self.end(
            WaitActionView::GiveUp(
                "timed out waiting for "@ + crate::shown::one_decimal(target) + "°C"@,
            ),
        )
    }

    /// What a reading leads to.
    pub open spec fn judge(self, current: Single, target: Single) -> (Wait, WaitActionView) {
        if crate::cli_output::is_warm(current, target) {
            self.end(
                WaitActionView::Reached(
                    "reached "@ + crate::shown::one_decimal(current) + "°C"@,
                ),
            )
        } else if self.kind == WaitKind::Command {
            (
                Wait { phase: WaitPhase::Showing { target }, ..self },
                WaitActionView::Show(Wait::progress(current, target)),
            )
        } else {
            self.pause(target)
        }
    }

    /// The next action after an event.
    pub open spec fn next(self, event: WaitEventView) -> (Wait, WaitActionView) {
        match self.phase {
            WaitPhase::Start { celsius } => match celsius {
                Some(target) => self.prepare(target),
                None => (Wait { phase: WaitPhase::Targeting, ..self }, WaitActionView::ReadTarget),
            },
            WaitPhase::Targeting => match event {
                WaitEventView::Temperature(target) => self.prepare(target),
                WaitEventView::Failed(f) => self.end(WaitActionView::Fail(f)),
                _ => (self, WaitActionView::ReadTarget),
            },
            WaitPhase::Preparing { target } => match event {
                WaitEventView::Failed(f) => self.end(WaitActionView::Fail(f)),
                WaitEventView::TimedOut => self.give_up(target),
                _ => self.read(target),
            },
            WaitPhase::Reading { target } => match event {
                WaitEventView::Temperature(current) => self.judge(current, target),
                WaitEventView::Failed(f) => if self.kind == WaitKind::Command {
                    self.end(WaitActionView::Fail(f))
                } else {
                    self.pause(target)
                },
                WaitEventView::TimedOut => self.give_up(target),
                WaitEventView::Done => self.pause(target),
            },
            WaitPhase::Showing { target } => self.pause(target),
            WaitPhase::Pausing { target } => match event {
                WaitEventView::TimedOut => self.give_up(target),
                _ => self.read(target),
            },
            WaitPhase::Over => (self, WaitActionView::Finish),
        }
    }

    /// Waiting that has not started, for the given temperature or for the device's target.
    pub fn new(kind: WaitKind, celsius: Option<Single>) -> (r: Wait)
        ensures
            r.kind == kind,
            r.phase == (WaitPhase::Start { celsius }),
    {
        Wait { kind, phase: WaitPhase::Start { celsius } }
    }

    fn on_target(&mut self, target: Single) -> (r: WaitAction)
        ensures
            (*final(self), r@) == old(self).prepare(target),
    {
        self.phase = WaitPhase::Preparing { target };
        match self.kind {
            WaitKind::Command => WaitAction::Subscribe,
            WaitKind::Tool { seconds } => WaitAction::Limit { seconds },
        }
    }

    fn on_pause(&mut self, target: Single) -> (r: WaitAction)
        ensures
            (*final(self), r@) == old(self).pause(target),
    {
        self.phase = WaitPhase::Pausing { target };
        WaitAction::Pause { seconds: PAUSE_SECONDS }
    }

    fn on_read(&mut self, target: Single) -> (r: WaitAction)
        ensures
            (*final(self), r@) == old(self).read(target),
    {
        self.phase = WaitPhase::Reading { target };
        WaitAction::ReadTemperature
    }

    fn on_limit(&mut self, target: Single) -> (r: WaitAction)
        ensures
            (*final(self), r@) == old(self).give_up(target),
    {
        self.phase = WaitPhase::Over;
        WaitAction::GiveUp(wait_timeout_text(target))
    }

    fn on_reading(&mut self, current: Single, target: Single) -> (r: WaitAction)
        ensures
            (*final(self), r@) == old(self).judge(current, target),
    {
        if warm_enough(current, target) {
            self.phase = WaitPhase::Over;
            WaitAction::Reached(reached_line(current))
        } else if self.kind == WaitKind::Command {
            self.phase = WaitPhase::Showing { target };
            WaitAction::Show(progress_line(current, target))
        } else {
            self.on_pause(target)
        }
    }

    fn on_failure(&mut self, failure: StorzError) -> (r: WaitAction)
        ensures
            (*final(self), r@) == old(self).end(WaitActionView::Fail(failure@)),
    {
        self.phase = WaitPhase::Over;
        WaitAction::Fail(failure)
    }

    /// The next action, once it is known what came of the last one.
    pub fn advance(&mut self, event: WaitEvent) -> (r: WaitAction)
        ensures
            (*final(self), r@) == old(self).next(event@),
    {
        match self.phase {
            WaitPhase::Start { celsius } => match celsius {
                Some(target) => self.on_target(target),
                None => {
                    self.phase = WaitPhase::Targeting;
                    WaitAction::ReadTarget
                },
            },
            WaitPhase::Targeting => match event {
                WaitEvent::Temperature(target) => self.on_target(target),
                WaitEvent::Failed(e) => self.on_failure(e),
                _ => WaitAction::ReadTarget,
            },
            WaitPhase::Preparing { target } => match event {
                WaitEvent::Failed(e) => self.on_failure(e),
                WaitEvent::TimedOut => self.on_limit(target),
                _ => self.on_read(target),
            },
            WaitPhase::Reading { target } => match event {
                WaitEvent::Temperature(current) => self.on_reading(current, target),
                WaitEvent::Failed(e) => if self.kind == WaitKind::Command {
                    self.on_failure(e)
                } else {
                    self.on_pause(target)
                },
                WaitEvent::TimedOut => self.on_limit(target),
                WaitEvent::Done => self.on_pause(target),
            },
            WaitPhase::Showing { target } => self.on_pause(target),
            WaitPhase::Pausing { target } => match event {
                WaitEvent::TimedOut => self.on_limit(target),
                _ => self.on_read(target),
            },
            WaitPhase::Over => WaitAction::Finish,
        }
    }
}

/// Waiting ends well exactly when a reading is warm enough, and tells that reading.
pub proof fn law_reached_means_warm(wait: Wait, event: WaitEventView)
    ensures
        wait.next(event).1 is Reached <==> (wait.phase matches WaitPhase::Reading { target }
            && event matches WaitEventView::Temperature(current)
            && crate::cli_output::is_warm(current, target)),
        wait.next(event).1 is Reached ==> wait.next(event).1->Reached_0 == "reached "@
            + crate::shown::one_decimal(event->Temperature_0) + "°C"@,
{
}

/// Two readings are never made without the pause between them.
pub proof fn law_readings_are_apart(wait: Wait, event: WaitEventView)
    ensures
        wait.phase is Reading ==> !(wait.next(event).1 is ReadTemperature),
        wait.phase is Showing ==> wait.next(event).1 == (WaitActionView::Pause {
            seconds: PAUSE_SECONDS,
        }),
        wait.next(event).0.phase is Reading ==> wait.phase is Preparing || wait.phase is Pausing,
        wait.next(event).0.phase is Pausing ==> wait.next(event).1 == (WaitActionView::Pause {
            seconds: PAUSE_SECONDS,
        }),
{
}

/// A tool that has begun to read goes on until it is warm enough or the time is over, whatever
/// fails meanwhile; it shows nothing.
pub proof fn law_tool_waits_on(wait: Wait, event: WaitEventView)
    requires
        wait.kind is Tool,
        wait.phase is Reading || wait.phase is Pausing,
    ensures
        !(wait.next(event).1 is Fail) && !(wait.next(event).1 is Show),
        wait.next(event).0.phase is Over <==> event is TimedOut || wait.next(event).1 is Reached,
        event is TimedOut ==> wait.next(event).1 is GiveUp,
{
}

/// A device is warm enough from one degree below the target on, however hot it is, up to the
/// rounding of one subtraction, which for targets up to 1000 degrees is `2^-15` of a degree.
pub proof fn law_warm_enough(current: Single, target: Single, r: bool)
    requires
        call_ensures(warm_enough, (current, target), r),
        target.is_finite(),
        -1000 * pow2(149) <= target.signed_units() <= 1000 * pow2(149),
    ensures
        current.is_nan() ==> !r,
        current.is_infinite() ==> r == !current.negative(),
        current.is_finite() && current.signed_units() >= target.signed_units() - pow2(149) + pow2(134)
            ==> r,
        current.is_finite() && r ==> current.signed_units() >= target.signed_units() - pow2(149)
            - pow2(134),
{
    let one = Single { bits: crate::cli_output::WAIT_MARGIN };
    lemma2_to64();
    lemma_pow2_pos(134);
    lemma_pow2_adds(23, 126);
    lemma_pow2_adds(1, 134);
    lemma_pow2_adds(15, 134);
    lemma_pow2_adds(24, 135);
    assert(one.significand() == 0x80_0000 && one.shift() == 126);
    assert(one.signed_units() == pow2(149));
    let other = one.opposite();
    assert(other.is_finite() && other.signed_units() == -one.signed_units());
    let total = target.signed_units() - pow2(149);
    let edge = target.difference(one);
    if total > 0 {
        crate::accuracy::lemma_nearest_error(false, total as nat, 1, 135);
        assert(edge == crate::single::nearest(false, total as nat, 1));
    } else if total < 0 {
        crate::accuracy::lemma_nearest_error(true, (-total) as nat, 1, 135);
        assert(edge == crate::single::nearest(true, (-total) as nat, 1));
    } else {
        assert(edge.magnitude() == 0);
    }
    assert(edge.is_finite());
    if current.is_finite() {
        crate::single::lemma_rank_orders_values(edge, current);
    }
}

/// Waiting begins with the target: the one that was asked for, or else the device's own. Then a
/// command follows the device's states, and a tool sets its limit. Where the target cannot be had,
/// waiting fails.
pub proof fn law_waiting_begins(
    w: &mut Wait,
    event: WaitEvent,
    r: WaitAction,
    fresh: Wait,
    kind: WaitKind,
    celsius: Option<Single>,
)
    requires
        call_ensures(Wait::advance, (w, event), r),
        call_ensures(Wait::new, (kind, celsius), fresh),
    ensures
        fresh.kind == kind && fresh.phase == (WaitPhase::Start { celsius }),
        final(w).kind == old(w).kind,
        old(w).phase == (WaitPhase::Start { celsius: None }) ==> r is ReadTarget && final(w).phase
            is Targeting,
        old(w).phase is Targeting && event is Failed ==> r is Fail && r->Fail_0@ == event->Failed_0@
            && final(w).phase is Over,
        old(w).phase is Start && old(w).phase->celsius is Some ==> final(w).phase == (
        WaitPhase::Preparing { target: old(w).phase->celsius->0 }),
        old(w).phase is Targeting && event is Temperature ==> final(w).phase == (
        WaitPhase::Preparing { target: event->Temperature_0 }),
        final(w).phase is Preparing && !(old(w).phase is Preparing) ==> match old(w).kind {
            WaitKind::Command => r is Subscribe,
            WaitKind::Tool { seconds } => r is Limit && r->Limit_seconds == seconds,
        },
        old(w).phase is Preparing && event is Done ==> r is ReadTemperature && final(w).phase == (
        WaitPhase::Reading { target: old(w).phase->Preparing_target }),
{
    assert((*final(w), r@) == old(w).next(event@));
    assert(r@ is ReadTarget <==> r is ReadTarget);
    assert(r@ is Subscribe <==> r is Subscribe);
    assert(r@ is ReadTemperature <==> r is ReadTemperature);
    assert(r@ is Limit <==> r is Limit);
    assert(r@ is Fail <==> r is Fail);
}

/// After a reading that is too cold there are two seconds before the next one. A command shows the
/// reading and the target first; a tool shows nothing. A reading that fails ends a command with
/// that error. When the time is over, the target is named.
pub proof fn law_waiting_goes_on(w: &mut Wait, event: WaitEvent, r: WaitAction, target: Single)
    requires
        call_ensures(Wait::advance, (w, event), r),
    ensures
        old(w).phase == (WaitPhase::Reading { target }) && event is Temperature
            && !crate::cli_output::is_warm(event->Temperature_0, target) ==> match old(w).kind {
            WaitKind::Command => r is Show && r->Show_0@ == crate::shown::one_decimal(
                event->Temperature_0,
            ) + "°C / "@ + crate::shown::one_decimal(target) + "°C"@ && final(w).phase == (
            WaitPhase::Showing { target }),
            WaitKind::Tool { .. } => r is Pause && r->Pause_seconds == 2 && final(w).phase == (
            WaitPhase::Pausing { target }),
        },
        old(w).phase == (WaitPhase::Showing { target }) ==> r is Pause && r->Pause_seconds == 2
            && final(w).phase == (WaitPhase::Pausing { target }),
        old(w).phase == (WaitPhase::Pausing { target }) && !(event is TimedOut) ==> r
            is ReadTemperature && final(w).phase == (WaitPhase::Reading { target }),
        old(w).phase == (WaitPhase::Reading { target }) && event is Failed && old(w).kind is Command
            ==> r is Fail && r->Fail_0@ == event->Failed_0@ && final(w).phase is Over,
        (old(w).phase == (WaitPhase::Reading { target }) || old(w).phase == (WaitPhase::Pausing {
            target,
        })) && event is TimedOut ==> r is GiveUp && r->GiveUp_0@ == "timed out waiting for "@
            + crate::shown::one_decimal(target) + "°C"@ && final(w).phase is Over,
        old(w).phase is Over ==> r is Finish && final(w).phase is Over,
{
    assert((*final(w), r@) == old(w).next(event@));
    assert(r@ is Show <==> r is Show);
    assert(r@ is Pause <==> r is Pause);
    assert(r@ is ReadTemperature <==> r is ReadTemperature);
    assert(r@ is GiveUp <==> r is GiveUp);
    assert(r@ is Finish <==> r is Finish);
    assert(r@ is Fail <==> r is Fail);
}

/// Waiting that cannot begin fails with the reason, and one whose time is over before the first
/// reading names the target. A target or a reading that was not told is asked for again, the
/// reading after the pause.
pub proof fn law_waiting_without_readings(w: &mut Wait, event: WaitEvent, r: WaitAction, target: Single)
    requires
        call_ensures(Wait::advance, (w, event), r),
    ensures
        old(w).phase == (WaitPhase::Preparing { target }) && event is Failed ==> r is Fail
            && r->Fail_0@ == event->Failed_0@ && final(w).phase is Over,
        old(w).phase == (WaitPhase::Preparing { target }) && event is TimedOut ==> r is GiveUp
            && r->GiveUp_0@ == "timed out waiting for "@ + crate::shown::one_decimal(target) + "°C"@
            && final(w).phase is Over,
        old(w).phase is Targeting && (event is Done || event is TimedOut) ==> r is ReadTarget
            && final(w).phase is Targeting,
        old(w).phase == (WaitPhase::Reading { target }) && event is Done ==> r is Pause
            && r->Pause_seconds == 2 && final(w).phase == (WaitPhase::Pausing { target }),
{
    assert((*final(w), r@) == old(w).next(event@));
    assert(r@ is Fail <==> r is Fail);
    assert(r@ is GiveUp <==> r is GiveUp);
    assert(r@ is ReadTarget <==> r is ReadTarget);
    assert(r@ is Pause <==> r is Pause);
}

} // verus!
