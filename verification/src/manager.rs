//! Auto-reconnecting device handle.
//!
//! [`DeviceManager`] lazily establishes the BLE connection on first use and re-establishes it
//! transparently when it drops, so long-lived processes (daemons, MCP servers) can treat the
//! device as always-available.
use crate::error::StorzError;
use vstd::prelude::*;

verus! {

/// How long a scan lasts where nothing else is asked for.
pub const DEFAULT_SCAN_MILLIS: u64 = 20_000;

/// How long a device may take to show that it still answers.
pub const PROBE_MILLIS: u64 = 5_000;

/// How long a connection may take.
pub const CONNECT_MILLIS: u64 = 20_000;

/// Lazily-connected, auto-reconnecting handle to a vaporizer.
#[derive(Debug)]
pub struct DeviceManager {
    /// A device is held.
    pub connected: bool,
    /// Narrows discovery by device name substring or BLE address.
    pub filter: Option<String>,
    pub scan_millis: u64,
    pub phase: ManagerPhase,
}

/// What a request for the device waits for.
#[derive(Debug, Clone, Copy, PartialEq, Eq, Structural)]
pub enum ManagerPhase {
    Resting,
    Probing,
    FindingAdapter,
    Scanning,
    OpeningEvents,
    Connecting,
}

/// What is to be done next on the way to the device.
#[derive(Debug)]
pub enum ManagerAction {
    /// Read the temperature of the device that is held, to see whether it still answers.
    Probe { millis: u64 },
    GetAdapter,
    Discover { millis: u64 },
    /// Open the adapter's events, before connecting, so that no disconnect slips between.
    OpenEvents,
    Connect { millis: u64 },
    /// Hand out the device that is held.
    Reuse,
    /// Hold the new device, watch for its disconnect, and hand it out.
    Adopt,
    Fail(StorzError),
}

/// What came of the last action.
#[derive(Debug)]
pub enum ManagerEvent {
    Done,
    Failed(StorzError),
    TimedOut,
}

/// An action with its error as a value.
pub enum ManagerActionView {
    Probe { millis: u64 },
    GetAdapter,
    Discover { millis: u64 },
    OpenEvents,
    Connect { millis: u64 },
    Reuse,
    Adopt,
    Fail(crate::error::Failure),
}

impl View for ManagerAction {
    type V = ManagerActionView;

    open spec fn view(&self) -> ManagerActionView {
        match *self {
            ManagerAction::Probe { millis } => ManagerActionView::Probe { millis },
            ManagerAction::GetAdapter => ManagerActionView::GetAdapter,
            ManagerAction::Discover { millis } => ManagerActionView::Discover { millis },
            ManagerAction::OpenEvents => ManagerActionView::OpenEvents,
            ManagerAction::Connect { millis } => ManagerActionView::Connect { millis },
            ManagerAction::Reuse => ManagerActionView::Reuse,
            ManagerAction::Adopt => ManagerActionView::Adopt,
            ManagerAction::Fail(e) => ManagerActionView::Fail(e@),
        }
    }
}

/// The failure of an action that did not work out; one that took too long timed out.
pub open spec fn failure_of(event: ManagerEvent) -> Option<crate::error::Failure> {
    match event {
        ManagerEvent::Done => None,
        ManagerEvent::Failed(e) => Some(e@),
        ManagerEvent::TimedOut => Some(crate::error::Failure::Timeout),
    }
}

/// Where a request for the device starts.
pub open spec fn first(connected: bool) -> (ManagerPhase, ManagerActionView) {
    if connected {
        (ManagerPhase::Probing, ManagerActionView::Probe { millis: PROBE_MILLIS })
    } else {
        (ManagerPhase::FindingAdapter, ManagerActionView::GetAdapter)
    }
}

/// The next phase and action after an event, and whether a device is held then.
pub open spec fn next(
    phase: ManagerPhase,
    connected: bool,
    scan_millis: u64,
    event: ManagerEvent,
) -> (ManagerPhase, bool, ManagerActionView) {
    if phase == ManagerPhase::Probing {
        // A device that fails its probe is let go of.
        if failure_of(event) is None {
            (ManagerPhase::Resting, connected, ManagerActionView::Reuse)
        } else {
            (ManagerPhase::FindingAdapter, false, ManagerActionView::GetAdapter)
        }
    } else if failure_of(event) is Some {
        (ManagerPhase::Resting, connected, ManagerActionView::Fail(failure_of(event)->0))
    } else {
        match phase {
            ManagerPhase::FindingAdapter => (
                ManagerPhase::Scanning,
                connected,
                ManagerActionView::Discover { millis: scan_millis },
            ),
            ManagerPhase::Scanning => (
                ManagerPhase::OpeningEvents,
                connected,
                ManagerActionView::OpenEvents,
            ),
            ManagerPhase::OpeningEvents => (
                ManagerPhase::Connecting,
                connected,
                ManagerActionView::Connect { millis: CONNECT_MILLIS },
            ),
            ManagerPhase::Connecting => (ManagerPhase::Resting, true, ManagerActionView::Adopt),
            _ => (first(connected).0, connected, first(connected).1),
        }
    }
}

impl DeviceManager {
    /// `filter` narrows discovery by device name substring or BLE address.
    pub fn new(filter: Option<String>) -> (r: Self)
        ensures
            !r.connected,
            r.filter == filter,
            r.scan_millis == DEFAULT_SCAN_MILLIS,
            r.phase == ManagerPhase::Resting,
    {
        DeviceManager {
            connected: false,
            filter,
            scan_millis: DEFAULT_SCAN_MILLIS,
            phase: ManagerPhase::Resting,
        }
    }

    /// The same manager with another time for scans.
    pub fn with_scan_timeout(self, millis: u64) -> (r: Self)
        ensures
            r == (DeviceManager { scan_millis: millis, ..self }),
    {
        DeviceManager {
            connected: self.connected,
            filter: self.filter,
            scan_millis: millis,
            phase: self.phase,
        }
    }

    /// Starts a request for the connected device, connecting or reconnecting as needed.
    pub fn get(&mut self) -> (r: ManagerAction)
        ensures
            (final(self).phase, r@) == first(old(self).connected),
            final(self).connected == old(self).connected,
            final(self).filter == old(self).filter,
            final(self).scan_millis == old(self).scan_millis,
    {
        if self.connected {
            self.phase = ManagerPhase::Probing;
            ManagerAction::Probe { millis: PROBE_MILLIS }
        } else {
            self.phase = ManagerPhase::FindingAdapter;
            ManagerAction::GetAdapter
        }
    }

    /// Takes in what came of the last action and says what to do next.
    pub fn advance(&mut self, event: ManagerEvent) -> (r: ManagerAction)
        ensures
            (final(self).phase, final(self).connected, r@) == next(
                old(self).phase,
                old(self).connected,
                old(self).scan_millis,
                event,
            ),
            final(self).filter == old(self).filter,
            final(self).scan_millis == old(self).scan_millis,
    {
        let failure: Option<StorzError> = match event {
            ManagerEvent::Done => None,
            ManagerEvent::Failed(e) => Some(e),
            ManagerEvent::TimedOut => Some(StorzError::Timeout),
        };
        if self.phase == ManagerPhase::Probing {
            return match failure {
                None => {
                    self.phase = ManagerPhase::Resting;
                    ManagerAction::Reuse
                },
                Some(_) => {
                    self.connected = false;
                    self.phase = ManagerPhase::FindingAdapter;
                    ManagerAction::GetAdapter
                },
            };
        }
        if let Some(e) = failure {
            self.phase = ManagerPhase::Resting;
            return ManagerAction::Fail(e);
        }
        match self.phase {
            ManagerPhase::FindingAdapter => {
                self.phase = ManagerPhase::Scanning;
                ManagerAction::Discover { millis: self.scan_millis }
            },
            ManagerPhase::Scanning => {
                self.phase = ManagerPhase::OpeningEvents;
                ManagerAction::OpenEvents
            },
            ManagerPhase::OpeningEvents => {
                self.phase = ManagerPhase::Connecting;
                ManagerAction::Connect { millis: CONNECT_MILLIS }
            },
            ManagerPhase::Connecting => {
                self.phase = ManagerPhase::Resting;
                self.connected = true;
                ManagerAction::Adopt
            },
            _ => self.get(),
        }
    }
}

/// What the adapter tells while a device is held.
#[derive(Debug, Clone, Copy, PartialEq, Eq, Structural)]
pub enum LinkEvent {
    Disconnected { id: u64 },
    Other,
    /// The adapter is gone.
    Ended,
}

/// Whether an event means that the held device is disconnected.
pub fn ends_link(event: LinkEvent, held: u64) -> (r: bool)
    ensures
        r == match event {
            LinkEvent::Disconnected { id } => id == held,
            LinkEvent::Other => false,
            LinkEvent::Ended => true,
        },
{
    match event {
        LinkEvent::Disconnected { id } => id == held,
        LinkEvent::Other => false,
        LinkEvent::Ended => true,
    }
}

/// A held device that answers is handed out again without any connecting; one that fails or
/// takes too long is let go of, and a new one is looked for.
pub proof fn law_probe_decides(scan_millis: u64, event: ManagerEvent)
    ensures
        ({
            let (phase, connected, action) = next(
                ManagerPhase::Probing,
                true,
                scan_millis,
                event,
            );
            &&& event == ManagerEvent::Done ==> action == ManagerActionView::Reuse && connected
            &&& event != ManagerEvent::Done ==> action == ManagerActionView::GetAdapter
                && !connected
        }),
{
}

/// A device is handed out only after a successful probe or a successful connection, and after
/// a failure none is held that was not held before.
pub proof fn law_handed_out_only_alive(
    phase: ManagerPhase,
    connected: bool,
    scan_millis: u64,
    event: ManagerEvent,
)
    ensures
        ({
            let (_, held, action) = next(phase, connected, scan_millis, event);
            &&& action == ManagerActionView::Reuse ==> phase == ManagerPhase::Probing && event
                == ManagerEvent::Done
            &&& action == ManagerActionView::Adopt ==> phase == ManagerPhase::Connecting && event
                == ManagerEvent::Done && held
            &&& action is Fail ==> held == connected
        }),
{
}

/// Without a device, a request that nothing goes wrong in finds the adapter, scans, opens the
/// events before it connects, and then holds the device.
pub proof fn law_connecting(scan_millis: u64)
    ensures
        ({
            let done = ManagerEvent::Done;
            let (p0, a0) = first(false);
            let (p1, c1, a1) = next(p0, false, scan_millis, done);
            let (p2, c2, a2) = next(p1, c1, scan_millis, done);
            let (p3, c3, a3) = next(p2, c2, scan_millis, done);
            let (p4, c4, a4) = next(p3, c3, scan_millis, done);
            &&& a0 == ManagerActionView::GetAdapter
            &&& a1 == (ManagerActionView::Discover { millis: scan_millis })
            &&& a2 == ManagerActionView::OpenEvents
            &&& a3 == (ManagerActionView::Connect { millis: CONNECT_MILLIS })
            &&& a4 == ManagerActionView::Adopt
            &&& p4 == ManagerPhase::Resting && c4
        }),
{
}

} // verus!
