//! A scan for the first vaporizer that matches.
use crate::discovery::advertisement_matches;
use crate::discovery::Advertisement;
use crate::error::StorzError;
use vstd::prelude::*;
use vstd::string::*;

verus! {

/// What the scan needs to have done next. Devices go by numbers that the owner of the adapter
/// hands out.
#[derive(Debug)]
pub enum ScanAction {
    OpenEvents,
    StartScan,
    ListKnown,
    Inspect(u64),
    NextEvent,
    StopScan,
    Finish(Result<u64, StorzError>),
}

/// What came of the last action.
#[derive(Debug)]
pub enum ScanEvent {
    Done,
    Failed(StorzError),
    /// The devices that the adapter knows already.
    Known(Vec<u64>),
    /// What an inspected device tells of itself, if it could be asked.
    Seen(Option<Advertisement>),
    /// A device appeared or told something new.
    Appeared(u64),
    /// Something else happened at the adapter.
    Other,
    /// The adapter's events are over.
    Ended,
    /// The time for the scan is over.
    TimedOut,
}

/// What a scan waits for.
#[derive(Debug, Clone, Copy, PartialEq, Eq, Structural)]
pub enum ScanPhase {
    Opening,
    Starting,
    Listing,
    Inspecting,
    Listening,
    Stopping,
    Finished,
}

/// A scan that returns on the first match instead of waiting out the scan window.
#[derive(Debug)]
pub struct Scan {
    pub prefixes: Vec<String>,
    pub filter: Option<String>,
    pub phase: ScanPhase,
    /// Known devices that were not looked at yet, the next one last.
    pub queue: Vec<u64>,
    /// The device that is looked at.
    pub candidate: u64,
    pub found: Option<u64>,
}

/// An action with its error as a value.
pub enum ScanActionView {
    OpenEvents,
    StartScan,
    ListKnown,
    Inspect(u64),
    NextEvent,
    StopScan,
    Found(u64),
    Fail(crate::error::Failure),
}

impl View for ScanAction {
    type V = ScanActionView;

    open spec fn view(&self) -> ScanActionView {
        match *self {
            ScanAction::OpenEvents => ScanActionView::OpenEvents,
            ScanAction::StartScan => ScanActionView::StartScan,
            ScanAction::ListKnown => ScanActionView::ListKnown,
            ScanAction::Inspect(id) => ScanActionView::Inspect(id),
            ScanAction::NextEvent => ScanActionView::NextEvent,
            ScanAction::StopScan => ScanActionView::StopScan,
            ScanAction::Finish(r) => match r {
                Ok(id) => ScanActionView::Found(id),
                Err(e) => ScanActionView::Fail(e@),
            },
        }
    }
}

/// A scan as a value.
pub struct ScanView {
    pub phase: ScanPhase,
    pub queue: Seq<u64>,
    pub candidate: u64,
    pub found: Option<u64>,
}

impl View for Scan {
    type V = ScanView;

    open spec fn view(&self) -> ScanView {
        ScanView {
            phase: self.phase,
            queue: self.queue@,
            candidate: self.candidate,
            found: self.found,
        }
    }
}

/// A device that could be asked and that matches.
pub open spec fn hit(
    seen: Option<Advertisement>,
    prefixes: Seq<String>,
    filter: Option<String>,
) -> bool {
    match seen {
        Some(ad) => crate::discovery::is_match(ad, prefixes, filter),
        None => false,
    }
}

impl ScanView {
    /// The next known device, or whatever the adapter tells of next.
    pub open spec fn look(self) -> (ScanView, ScanActionView) {
        if self.queue.len() > 0 {
            (
                ScanView {
                    phase: ScanPhase::Inspecting,
                    candidate: self.queue.last(),
                    queue: self.queue.drop_last(),
                    ..self
                },
                ScanActionView::Inspect(self.queue.last()),
            )
        } else {
            (ScanView { phase: ScanPhase::Listening, ..self }, ScanActionView::NextEvent)
        }
    }

    /// The scan is stopped, with what it found.
    pub open spec fn stop(self, found: Option<u64>) -> (ScanView, ScanActionView) {
        (ScanView { phase: ScanPhase::Stopping, found, ..self }, ScanActionView::StopScan)
    }

    /// The scan is over with an error.
    pub open spec fn give_up(self, failure: crate::error::Failure) -> (ScanView, ScanActionView) {
        (ScanView { phase: ScanPhase::Finished, ..self }, ScanActionView::Fail(failure))
    }

    /// The next action after an event.
    pub open spec fn next(
        self,
        event: ScanEvent,
        prefixes: Seq<String>,
        filter: Option<String>,
    ) -> (ScanView, ScanActionView) {
        match self.phase {
            ScanPhase::Opening => match event {
                ScanEvent::Failed(e) => self.give_up(e@),
                _ => (
                    ScanView { phase: ScanPhase::Starting, ..self },
                    ScanActionView::StartScan,
                ),
            },
            ScanPhase::Starting => match event {
                ScanEvent::Failed(e) => self.give_up(e@),
                _ => (
                    ScanView { phase: ScanPhase::Listing, ..self },
                    ScanActionView::ListKnown,
                ),
            },
            ScanPhase::Listing => match event {
                ScanEvent::Known(ids) => (ScanView { queue: ids@.reverse(), ..self }).look(),
                ScanEvent::TimedOut => self.stop(None),
                _ => self.look(),
            },
            ScanPhase::Inspecting => match event {
                ScanEvent::Seen(seen) => if hit(seen, prefixes, filter) {
                    self.stop(Some(self.candidate))
                } else {
                    self.look()
                },
                ScanEvent::TimedOut => self.stop(None),
                _ => self.look(),
            },
            ScanPhase::Listening => match event {
                ScanEvent::Appeared(id) => (
                    ScanView { phase: ScanPhase::Inspecting, candidate: id, ..self },
                    ScanActionView::Inspect(id),
                ),
                ScanEvent::Ended | ScanEvent::TimedOut => self.stop(None),
                _ => (self, ScanActionView::NextEvent),
            },
            ScanPhase::Stopping => match self.found {
                Some(id) => (
                    ScanView { phase: ScanPhase::Finished, ..self },
                    ScanActionView::Found(id),
                ),
                None => self.give_up(crate::error::Failure::DeviceNotFound),
            },
            ScanPhase::Finished => self.give_up(crate::error::Failure::DeviceNotFound),
        }
    }
}

impl Scan {
    /// A scan for a device whose name holds one of the prefixes. `filter` further narrows by
    /// substring match on the advertised name or the peripheral address. It starts with opening
    /// the adapter's events.
    pub fn new(prefixes: Vec<String>, filter: Option<String>) -> (r: Scan)
        ensures
            r.prefixes == prefixes,
            r.filter == filter,
            r.phase == ScanPhase::Opening,
            r.queue@ == Seq::<u64>::empty(),
            r.found is None,
    {
        Scan {
            prefixes,
            filter,
            phase: ScanPhase::Opening,
            queue: Vec::new(),
            candidate: 0,
            found: None,
        }
    }

    fn look(&mut self) -> (r: ScanAction)
        ensures
            (final(self)@, r@) == old(self)@.look(),
            final(self).prefixes == old(self).prefixes,
            final(self).filter == old(self).filter,
    {
        match self.queue.pop() {
            Some(id) => {
                self.phase = ScanPhase::Inspecting;
                self.candidate = id;
                ScanAction::Inspect(id)
            },
            None => {
                self.phase = ScanPhase::Listening;
                ScanAction::NextEvent
            },
        }
    }

    fn stop(&mut self, found: Option<u64>) -> (r: ScanAction)
        ensures
            (final(self)@, r@) == old(self)@.stop(found),
            final(self).prefixes == old(self).prefixes,
            final(self).filter == old(self).filter,
    {
        self.phase = ScanPhase::Stopping;
        self.found = found;
        ScanAction::StopScan
    }

    fn give_up(&mut self, e: StorzError) -> (r: ScanAction)
        ensures
            (final(self)@, r@) == old(self)@.give_up(e@),
            final(self).prefixes == old(self).prefixes,
            final(self).filter == old(self).filter,
    {
        self.phase = ScanPhase::Finished;
        ScanAction::Finish(Err(e))
    }

    /// Takes in what came of the last action and says what to do next. The first action of
    /// all is to open the adapter's events.
    pub fn advance(&mut self, event: ScanEvent) -> (r: ScanAction)
        ensures
            (final(self)@, r@) == old(self)@.next(event, old(self).prefixes@, old(self).filter),
            final(self).prefixes == old(self).prefixes,
            final(self).filter == old(self).filter,
    {
        match self.phase {
            ScanPhase::Opening => match event {
                ScanEvent::Failed(e) => self.give_up(e),
                _ => {
                    self.phase = ScanPhase::Starting;
                    ScanAction::StartScan
                },
            },
            ScanPhase::Starting => match event {
                ScanEvent::Failed(e) => self.give_up(e),
                _ => {
                    self.phase = ScanPhase::Listing;
                    ScanAction::ListKnown
                },
            },
            ScanPhase::Listing => match event {
                ScanEvent::Known(ids) => {
                    self.queue = reversed(&ids);
                    self.look()
                },
                ScanEvent::TimedOut => self.stop(None),
                _ => self.look(),
            },
            ScanPhase::Inspecting => match event {
                ScanEvent::Seen(seen) => {
                    let here = match &seen {
                        Some(ad) => advertisement_matches(ad, self.prefixes.as_slice(), &self.filter),
                        None => false,
                    };
                    if here {
                        let id = self.candidate;
                        self.stop(Some(id))
                    } else {
                        self.look()
                    }
                },
                ScanEvent::TimedOut => self.stop(None),
                _ => self.look(),
            },
            ScanPhase::Listening => match event {
                ScanEvent::Appeared(id) => {
                    self.phase = ScanPhase::Inspecting;
                    self.candidate = id;
                    ScanAction::Inspect(id)
                },
                ScanEvent::Ended | ScanEvent::TimedOut => self.stop(None),
                _ => ScanAction::NextEvent,
            },
            ScanPhase::Stopping => match self.found {
                Some(id) => {
                    self.phase = ScanPhase::Finished;
                    ScanAction::Finish(Ok(id))
                },
                None => self.give_up(StorzError::DeviceNotFound),
            },
            ScanPhase::Finished => self.give_up(StorzError::DeviceNotFound),
        }
    }
}

/// The same numbers, last one first.
fn reversed(ids: &Vec<u64>) -> (r: Vec<u64>)
    ensures
        r@ == ids@.reverse(),
{
    let mut out: Vec<u64> = Vec::new();
    let mut i: usize = ids.len();
    while i > 0
        invariant
            i <= ids@.len(),
            out@.len() == ids@.len() - i,
            forall|k: int| 0 <= k < out@.len() ==> out@[k] == ids@[ids@.len() - 1 - k],
        decreases i,
    {
        i = i - 1;
        out.push(ids[i]);
    }
    assert(out@ == ids@.reverse());
    out
}

/// Nothing is found but a device that was looked at and matched, or that was found before.
pub proof fn law_only_matches_are_found(
    scan: ScanView,
    event: ScanEvent,
    prefixes: Seq<String>,
    filter: Option<String>,
)
    requires
        scan.found is None,
    ensures
        scan.next(event, prefixes, filter).0.found matches Some(id) ==> {
            &&& scan.phase == ScanPhase::Inspecting
            &&& id == scan.candidate
            &&& event matches ScanEvent::Seen(Some(ad)) && crate::discovery::is_match(
                ad,
                prefixes,
                filter,
            )
        },
        !(scan.next(event, prefixes, filter).1 is Found),
{
}

/// A match ends the scan at once: it is stopped, and whatever comes of that, the device is
/// returned.
pub proof fn law_first_match_is_returned(
    scan: ScanView,
    ad: Advertisement,
    later: ScanEvent,
    prefixes: Seq<String>,
    filter: Option<String>,
)
    requires
        scan.phase == ScanPhase::Inspecting,
        crate::discovery::is_match(ad, prefixes, filter),
    ensures
        ({
            let (s1, a1) = scan.next(ScanEvent::Seen(Some(ad)), prefixes, filter);
            let (s2, a2) = s1.next(later, prefixes, filter);
            a1 == ScanActionView::StopScan && a2 == ScanActionView::Found(scan.candidate)
        }),
{
}

/// A scan that was started is stopped before it ends.
pub proof fn law_started_scan_is_stopped(
    scan: ScanView,
    event: ScanEvent,
    prefixes: Seq<String>,
    filter: Option<String>,
)
    requires
        scan.phase == ScanPhase::Listing || scan.phase == ScanPhase::Inspecting || scan.phase
            == ScanPhase::Listening,
    ensures
        scan.next(event, prefixes, filter).0.phase != ScanPhase::Finished,
        event == ScanEvent::TimedOut ==> scan.next(event, prefixes, filter).1
            == ScanActionView::StopScan,
{
}

/// After the time is over without a match, no device was found.
pub proof fn law_timeout_finds_nothing(
    scan: ScanView,
    later: ScanEvent,
    prefixes: Seq<String>,
    filter: Option<String>,
)
    requires
        scan.phase == ScanPhase::Listing || scan.phase == ScanPhase::Inspecting || scan.phase
            == ScanPhase::Listening,
    ensures
        scan.next(ScanEvent::TimedOut, prefixes, filter).0.next(later, prefixes, filter).1
            == ScanActionView::Fail(crate::error::Failure::DeviceNotFound),
{
}

/// The scan looks at the known device `i` and has those behind it still to look at.
pub open spec fn at_known(scan: ScanView, ids: Seq<u64>, i: int) -> bool {
    &&& 0 <= i < ids.len()
    &&& scan.phase == ScanPhase::Inspecting
    &&& scan.candidate == ids[i]
    &&& scan.queue == ids.skip(i + 1).reverse()
}

/// The devices that the adapter knows already are looked at first, in their order, before the
/// scan listens for others.
pub proof fn law_known_devices_come_first(
    scan: ScanView,
    known: Vec<u64>,
    i: int,
    miss: Option<Advertisement>,
    prefixes: Seq<String>,
    filter: Option<String>,
)
    requires
        !hit(miss, prefixes, filter),
    ensures
        scan.phase == ScanPhase::Listing && known@.len() > 0 ==> at_known(
            scan.next(ScanEvent::Known(known), prefixes, filter).0,
            known@,
            0,
        ),
        at_known(scan, known@, i) && i + 1 < known@.len() ==> at_known(
            scan.next(ScanEvent::Seen(miss), prefixes, filter).0,
            known@,
            i + 1,
        ),
        at_known(scan, known@, i) && i + 1 == known@.len() ==> scan.next(
            ScanEvent::Seen(miss),
            prefixes,
            filter,
        ).1 == ScanActionView::NextEvent,
{
    let ids = known@;
    if scan.phase == ScanPhase::Listing && ids.len() > 0 {
        assert(ids.reverse().drop_last() == ids.skip(1).reverse());
    }
    if at_known(scan, ids, i) && i + 1 < ids.len() {
        assert(ids.skip(i + 1).reverse().drop_last() == ids.skip(i + 2).reverse());
    }
}

} // verus!
