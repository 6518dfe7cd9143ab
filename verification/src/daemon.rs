//! What the daemon decides by itself.
use crate::device::DeviceState;
use crate::single::Single;
use crate::text::parse_unsigned;
use vstd::prelude::*;
use vstd::string::*;

verus! {

/// Time that the display automation waits after a failure.
pub const RETRY_MILLIS: u64 = 2000;

/// What the display automation waits for.
#[derive(Debug, Clone, Copy, PartialEq, Eq, Structural)]
pub enum DisplayPhase {
    Connecting,
    Waiting,
    Subscribing,
    Seeding,
    Following,
    Writing,
}

/// What the display automation needs to have done next.
#[derive(Debug, Clone, Copy, PartialEq, Eq, Structural)]
pub enum DisplayAction {
    GetDevice,
    Sleep { millis: u64 },
    Subscribe,
    ReadState,
    SetBrightness(u16),
    NextState,
}

/// What came of the last action.
#[derive(Debug, Clone, Copy, PartialEq, Eq, Structural)]
pub enum DisplayEvent {
    Done,
    Failed,
    State { heater_on: bool },
    /// The stream of states ended.
    Ended,
}

/// Ties the display to heater activity: lights it at `on_brightness` while the heater runs,
/// dark otherwise. Follows the connection through reconnects without spinning when Bluetooth
/// is unavailable.
#[derive(Debug, Clone, Copy, PartialEq, Eq)]
pub struct DisplayAutomation {
    pub on_brightness: u16,
    /// The heater as it was when the display was last set.
    pub last: Option<bool>,
    pub phase: DisplayPhase,
    /// The heater as it is while the display is being set.
    pub pending: bool,
}

impl DisplayAutomation {
    /// The brightness that goes with the heater.
    pub open spec fn brightness(self, heater_on: bool) -> u16 {
        if heater_on {
            self.on_brightness
        } else {
            0
        }
    }

    /// The display follows the heater, unless it does so already.
    pub open spec fn apply(self, heater_on: bool) -> (DisplayAutomation, DisplayAction) {
        if self.last == Some(heater_on) {
            (
                DisplayAutomation { phase: DisplayPhase::Following, ..self },
                DisplayAction::NextState,
            )
        } else {
            (
                DisplayAutomation { phase: DisplayPhase::Writing, pending: heater_on, ..self },
                DisplayAction::SetBrightness(self.brightness(heater_on)),
            )
        }
    }

    /// The next action after an event.
    pub open spec fn next(self, event: DisplayEvent) -> (DisplayAutomation, DisplayAction) {
        let wait = (
            DisplayAutomation { phase: DisplayPhase::Waiting, ..self },
            DisplayAction::Sleep { millis: RETRY_MILLIS },
        );
        let follow = (
            DisplayAutomation { phase: DisplayPhase::Following, ..self },
            DisplayAction::NextState,
        );
        let connect = (
            DisplayAutomation { phase: DisplayPhase::Connecting, ..self },
            DisplayAction::GetDevice,
        );
        match self.phase {
            DisplayPhase::Connecting => if event == DisplayEvent::Failed {
                wait
            } else {
                (
                    DisplayAutomation { phase: DisplayPhase::Subscribing, ..self },
                    DisplayAction::Subscribe,
                )
            },
            DisplayPhase::Waiting => connect,
            DisplayPhase::Subscribing => if event == DisplayEvent::Failed {
                wait
            } else {
                (
                    DisplayAutomation { phase: DisplayPhase::Seeding, ..self },
                    DisplayAction::ReadState,
                )
            },
            DisplayPhase::Seeding => match event {
                DisplayEvent::State { heater_on } => self.apply(heater_on),
                _ => follow,
            },
            DisplayPhase::Following => match event {
                DisplayEvent::State { heater_on } => self.apply(heater_on),
                DisplayEvent::Ended => connect,
                _ => follow,
            },
            DisplayPhase::Writing => if event == DisplayEvent::Done {
                (
                    DisplayAutomation {
                        last: Some(self.pending),
                        phase: DisplayPhase::Following,
                        ..self
                    },
                    DisplayAction::NextState,
                )
            } else {
                follow
            },
        }
    }

    /// An automation that knows nothing yet; its first action is to get the device.
    pub fn new(on_brightness: u16) -> (r: DisplayAutomation)
        ensures
            r.on_brightness == on_brightness,
            r.last is None,
            r.phase == DisplayPhase::Connecting,
    {
        DisplayAutomation {
            on_brightness,
            last: None,
            phase: DisplayPhase::Connecting,
            pending: false,
        }
    }

    fn follow(&mut self) -> (r: DisplayAction)
        ensures
            *final(self) == (DisplayAutomation { phase: DisplayPhase::Following, ..*old(self) }),
            r == DisplayAction::NextState,
    {
        self.phase = DisplayPhase::Following;
        DisplayAction::NextState
    }

    fn wait(&mut self) -> (r: DisplayAction)
        ensures
            *final(self) == (DisplayAutomation { phase: DisplayPhase::Waiting, ..*old(self) }),
            r == (DisplayAction::Sleep { millis: RETRY_MILLIS }),
    {
        self.phase = DisplayPhase::Waiting;
        DisplayAction::Sleep { millis: RETRY_MILLIS }
    }

    fn connect(&mut self) -> (r: DisplayAction)
        ensures
            *final(self) == (DisplayAutomation { phase: DisplayPhase::Connecting, ..*old(self) }),
            r == DisplayAction::GetDevice,
    {
        self.phase = DisplayPhase::Connecting;
        DisplayAction::GetDevice
    }

    /// The display follows the heater, unless it does so already.
    fn apply_display(&mut self, heater_on: bool) -> (r: DisplayAction)
        ensures
            (*final(self), r) == old(self).apply(heater_on),
    {
        let same = match self.last {
            Some(last) => last == heater_on,
            None => false,
        };
        if same {
            return self.follow();
        }
        self.phase = DisplayPhase::Writing;
        self.pending = heater_on;
        DisplayAction::SetBrightness(
            if heater_on {
                self.on_brightness
            } else {
                0
            },
        )
    }

    /// Takes in what came of the last action and says what to do next.
    pub fn advance(&mut self, event: DisplayEvent) -> (r: DisplayAction)
        ensures
            (*final(self), r) == old(self).next(event),
    {
        match self.phase {
            DisplayPhase::Connecting => if event == DisplayEvent::Failed {
                self.wait()
            } else {
                self.phase = DisplayPhase::Subscribing;
                DisplayAction::Subscribe
            },
            DisplayPhase::Waiting => self.connect(),
            DisplayPhase::Subscribing => if event == DisplayEvent::Failed {
                self.wait()
            } else {
                self.phase = DisplayPhase::Seeding;
                DisplayAction::ReadState
            },
            DisplayPhase::Seeding => match event {
                DisplayEvent::State { heater_on } => self.apply_display(heater_on),
                _ => self.follow(),
            },
            DisplayPhase::Following => match event {
                DisplayEvent::State { heater_on } => self.apply_display(heater_on),
                DisplayEvent::Ended => self.connect(),
                _ => self.follow(),
            },
            DisplayPhase::Writing => {
                if event == DisplayEvent::Done {
                    self.last = Some(self.pending);
                }
                self.follow()
            },
        }
    }
}

/// After a failure to get the device or to subscribe, the automation waits before it tries
/// again.
pub proof fn law_display_does_not_spin(d: DisplayAutomation)
    requires
        d.phase == DisplayPhase::Connecting || d.phase == DisplayPhase::Subscribing,
    ensures
        d.next(DisplayEvent::Failed).1 == (DisplayAction::Sleep { millis: RETRY_MILLIS }),
        d.next(DisplayEvent::Failed).0.phase == DisplayPhase::Waiting,
{
}

/// The display is set exactly when a state differs from the last one that it was set for, to
/// the brightness that goes with the heater.
pub proof fn law_display_follows_heater(d: DisplayAutomation, heater_on: bool)
    requires
        d.phase == DisplayPhase::Seeding || d.phase == DisplayPhase::Following,
    ensures
        ({
            let action = d.next(DisplayEvent::State { heater_on }).1;
            if d.last == Some(heater_on) {
                action == DisplayAction::NextState
            } else {
                action == DisplayAction::SetBrightness(
                    if heater_on {
                        d.on_brightness
                    } else {
                        0
                    },
                )
            }
        }),
{
}

/// A display that was set for a state is left alone while the heater stays the same; one that
/// could not be set is set again at the next state.
pub proof fn law_display_set_once(d: DisplayAutomation, heater_on: bool)
    requires
        d.phase == DisplayPhase::Seeding || d.phase == DisplayPhase::Following,
        d.last != Some(heater_on),
    ensures
        ({
            let seen = DisplayEvent::State { heater_on };
            let writing = d.next(seen).0;
            &&& writing.next(DisplayEvent::Done).0.next(seen).1 == DisplayAction::NextState
            &&& writing.next(DisplayEvent::Failed).0.next(seen).1
                == DisplayAction::SetBrightness(d.brightness(heater_on))
        }),
{
}

/// A snapshot right after connecting, before the first notification landed, lacks a
/// temperature.
pub fn needs_refresh(state: &DeviceState) -> (r: bool)
    ensures
        r == (state.current_temp is None || state.target_temp is None),
{
    state.current_temp.is_none() || state.target_temp.is_none()
}

/// The first of two readings that there is.
pub open spec fn either(first: Option<Single>, second: Option<Single>) -> Option<Single> {
    match first {
        Some(t) => Some(t),
        None => second,
    }
}

/// A snapshot with the temperatures that were read where they could be read.
pub fn with_readings(state: &DeviceState, current: Option<Single>, target: Option<Single>) -> (r:
    DeviceState)
    ensures
        r == (DeviceState {
            current_temp: either(current, state.current_temp),
            target_temp: either(target, state.target_temp),
            ..*state
        }),
{
    let mut out = *state;
    if current.is_some() {
        out.current_temp = current;
    }
    if target.is_some() {
        out.target_temp = target;
    }
    out
}

/// A snapshot with explicit readings, and with heater and pump as a later snapshot has them.
pub fn refreshed(
    state: &DeviceState,
    current: Option<Single>,
    target: Option<Single>,
    later: &DeviceState,
) -> (r: DeviceState)
    ensures
        r == (DeviceState {
            current_temp: either(current, state.current_temp),
            target_temp: either(target, state.target_temp),
            heater_on: later.heater_on,
            pump_on: later.pump_on,
            ..*state
        }),
{
    let mut out = with_readings(state, current, target);
    out.heater_on = later.heater_on;
    out.pump_on = later.pump_on;
    out
}

/// The address that the daemon listens on, where nothing else is asked for.
pub fn listen_address(asked: Option<String>) -> (r: String)
    ensures
        r@ == match asked {
            Some(a) => a@,
            None => "0.0.0.0:8814"@,
        },
{
    match asked {
        Some(a) => a,
        None => "0.0.0.0:8814".to_owned(),
    }
}

/// The path of the socket: the one asked for, else one in the runtime directory.
pub fn socket_path(asked: Option<String>, runtime_dir: Option<String>) -> (r: String)
    ensures
        r@ == match asked {
            Some(path) => path@,
            None => match runtime_dir {
                Some(dir) => dir@ + "/volcano.sock"@,
                None => "/tmp"@ + "/volcano.sock"@,
            },
        },
{
    match asked {
        Some(path) => path,
        None => {
            let mut path = match runtime_dir {
                Some(dir) => dir,
                None => "/tmp".to_owned(),
            };
            path.append("/volcano.sock");
            path
        },
    }
}

/// The brightness for the display automation, which stays off where none is given or it is no
/// number of two bytes.
pub fn automation_brightness(asked: &Option<String>) -> (r: Option<u16>)
    ensures
        match asked {
            Some(text) => match crate::text::unsigned_value(text@, u16::MAX as nat) {
                Some(n) => r == Some(n as u16),
                None => r is None,
            },
            None => r is None,
        },
{
    match asked {
        Some(text) => match parse_unsigned(text.as_str(), 0xffff) {
            Some(n) => Some(n as u16),
            None => None,
        },
        None => None,
    }
}

/// An automation gets the device, subscribes to it, reads its state and follows the states that
/// come. It waits two seconds after a failure to get or to subscribe, and gets the device anew when
/// it has waited or when the states end.
pub proof fn law_display_steps(d: &mut DisplayAutomation, event: DisplayEvent, r: DisplayAction)
    requires
        call_ensures(DisplayAutomation::advance, (d, event), r),
    ensures
        ({
            let p = old(d).phase;
            let next = final(d).phase;
            &&& p is Connecting && !(event is Failed) ==> r is Subscribe && next is Subscribing
            &&& p is Subscribing && !(event is Failed) ==> r is ReadState && next is Seeding
            &&& (p is Connecting || p is Subscribing) && event is Failed ==> r is Sleep && r->millis
                == 2000 && next is Waiting
            &&& p is Waiting ==> r is GetDevice && next is Connecting
            &&& p is Seeding && !(event is State) ==> r is NextState && next is Following
            &&& p is Following && event is Ended ==> r is GetDevice && next is Connecting
            &&& p is Following && (event is Failed || event is Done) ==> r is NextState && next
                is Following
            &&& p is Writing ==> r is NextState && next is Following
        }),
        final(d).on_brightness == old(d).on_brightness,
        final(d).last != old(d).last ==> old(d).phase is Writing && event is Done && final(d).last
            == Some(old(d).pending),
{
}

/// A heater that is switched on lights the display, one that is switched off darkens it, and once
/// that is done the same heater is left alone.
pub proof fn law_display_lights(
    d: &mut DisplayAutomation,
    on: bool,
    r: DisplayAction,
    e: &mut DisplayAutomation,
    q: DisplayAction,
    f: &mut DisplayAutomation,
    again: DisplayAction,
)
    requires
        call_ensures(DisplayAutomation::advance, (d, DisplayEvent::State { heater_on: on }), r),
        old(d).phase is Seeding || old(d).phase is Following,
        old(d).last != Some(on),
        *old(e) == *final(d),
        call_ensures(DisplayAutomation::advance, (e, DisplayEvent::Done), q),
        *old(f) == *final(e),
        call_ensures(DisplayAutomation::advance, (f, DisplayEvent::State { heater_on: on }), again),
    ensures
        r is SetBrightness,
        on ==> r->SetBrightness_0 == old(d).on_brightness,
        !on ==> r->SetBrightness_0 == 0,
        q is NextState,
        again is NextState,
{
}

/// A snapshot is read again where a temperature is missing. A reading takes the place of what was
/// known, no reading leaves it, and heater and pump are as they are later.
pub proof fn law_refreshed(
    state: DeviceState,
    current: Option<Single>,
    target: Option<Single>,
    later: DeviceState,
    needed: bool,
    r: DeviceState,
    only: DeviceState,
)
    requires
        call_ensures(needs_refresh, (&state,), needed),
        call_ensures(refreshed, (&state, current, target, &later), r),
        call_ensures(with_readings, (&state, current, target), only),
    ensures
        needed <==> state.current_temp is None || state.target_temp is None,
        current is Some ==> r.current_temp == current && only.current_temp == current,
        current is None ==> r.current_temp == state.current_temp && only.current_temp
            == state.current_temp,
        target is Some ==> r.target_temp == target && only.target_temp == target,
        target is None ==> r.target_temp == state.target_temp && only.target_temp
            == state.target_temp,
        r.heater_on == later.heater_on && r.pump_on == later.pump_on,
        only.heater_on == state.heater_on && only.pump_on == state.pump_on,
        r == (DeviceState {
            current_temp: r.current_temp,
            target_temp: r.target_temp,
            heater_on: r.heater_on,
            pump_on: r.pump_on,
            ..state
        }),
        only == (DeviceState {
            current_temp: only.current_temp,
            target_temp: only.target_temp,
            ..state
        }),
{
}

/// What is asked for is used as it is. Otherwise the daemon listens on port 8814 of every address,
/// and on a socket in the runtime directory, or in the directory for temporary files where there is
/// none.
pub proof fn law_addresses(
    asked: Option<String>,
    dir: Option<String>,
    address: String,
    path: String,
)
    requires
        call_ensures(listen_address, (asked,), address),
        call_ensures(socket_path, (asked, dir), path),
    ensures
        asked is Some ==> address@ == asked->0@ && path@ == asked->0@,
        asked is None ==> address@ == "0.0.0.0:8814"@,
        asked is None && dir is Some ==> path@ == dir->0@ + "/volcano.sock"@,
        asked is None && dir is None ==> path@ == "/tmp/volcano.sock"@,
{
    reveal_strlit("/tmp");
    reveal_strlit("/volcano.sock");
    reveal_strlit("/tmp/volcano.sock");
    assert("/tmp"@ + "/volcano.sock"@ == "/tmp/volcano.sock"@);
}

/// The brightness of the automation is the number that is asked for, up to 65535; a larger number
/// or none leaves the automation off.
pub proof fn law_brightness(asked: Option<String>, n: nat, r: Option<u16>)
    requires
        call_ensures(automation_brightness, (&asked,), r),
        asked is Some ==> asked->0@ == crate::text::decimal(n),
    ensures
        asked is None ==> r is None,
        asked is Some && n <= 65535 ==> r is Some && r->0 == n,
        asked is Some && n > 65535 ==> r is None,
{
    if asked is Some {
        crate::text::law_decimal_round_trip(n, n);
        if n <= 65535 {
            crate::text::law_decimal_round_trip(n, 65535);
        }
    }
}

} // verus!
