//! What holds of finding a device, telling its model and holding on to it.
use crate::detection::detect_model;
use crate::detection::driver_for;
use crate::device::DeviceModel;
use crate::discovery::advertisement_matches;
use crate::discovery::selection;
use crate::discovery::Advertisement;
use crate::error::StorzError;
use crate::manager::DeviceManager;
use crate::manager::LinkEvent;
use crate::manager::ManagerAction;
use crate::manager::ManagerEvent;
use crate::manager::ManagerPhase;
use crate::protocol::support::check_support;
use crate::protocol::support::Operation;
use crate::scan::Scan;
use crate::scan::ScanAction;
use crate::scan::ScanEvent;
use crate::scan::ScanPhase;
use crate::uuids::ServiceUuids;
use vstd::prelude::*;

verus! {

/// A text stands somewhere in another.
pub open spec fn inside(part: Seq<char>, text: Seq<char>) -> bool {
    exists|k: int|
        0 <= k <= text.len() - part.len() && #[trigger] text.subrange(k, k + part.len()) == part
}

proof fn lemma_inside(part: Seq<char>, text: Seq<char>)
    ensures
        crate::text::occurs(text, part) == inside(part, text),
{
    if crate::text::occurs(text, part) {
        let k = choose|k: int| crate::text::occurs_at(text, part, k);
        assert(text.subrange(k, k + part.len()) == part);
    }
    if inside(part, text) {
        let k = choose|k: int|
            0 <= k <= text.len() - part.len() && #[trigger] text.subrange(k, k + part.len()) == part;
        assert(crate::text::occurs_at(text, part, k));
    }
}

/// A device matches where one of the prefixes stands in its name as it is written, and the filter,
/// if there is one, in its name or in its address, whatever the case.
pub proof fn law_matching(ad: Advertisement, prefixes: &[String], filter: Option<String>, r: bool)
    requires
        call_ensures(advertisement_matches, (&ad, prefixes, &filter), r),
    ensures
        r <==> (exists|i: int| 0 <= i < prefixes@.len() && inside(#[trigger] prefixes@[i]@, ad.name@))
            && (filter matches Some(f) ==> inside(
            crate::text::lowercase(f@),
            crate::text::lowercase(ad.name@),
        ) || inside(crate::text::lowercase(f@), crate::text::lowercase(ad.address@))),
{
    lemma_vaporizer(ad.name@, prefixes@);
    if filter is Some {
        let f = crate::text::lowercase(filter->0@);
        lemma_inside(f, crate::text::lowercase(ad.name@));
        lemma_inside(f, crate::text::lowercase(ad.address@));
    }
}

/// The user names a device by its number in the list, from one on; a number that is not in the list
/// is asked for again.
pub proof fn law_selection(input: &str, n: nat, count: usize, r: Option<usize>)
    requires
        call_ensures(selection, (input, count), r),
        input@ == crate::text::decimal(n),
        n <= usize::MAX,
    ensures
        r is Some <==> 1 <= n <= count,
        r matches Some(i) ==> i + 1 == n,
{
    let text = crate::text::decimal(n);
    crate::text::law_decimal_round_trip(n, usize::MAX as nat);
    crate::text::lemma_decimal_is_digits(n);
    assert(crate::text::is_digit(text[0]));
    assert(crate::text::is_digit(text[text.len() - 1]));
    crate::text::lemma_nothing_to_trim(text);
}

/// One device is taken at once, several are listed with their numbers and names, and none is an
/// error.
pub proof fn law_choice(names: &[Option<String>], r: Result<crate::discovery::Choice, StorzError>, i: int)
    requires
        call_ensures(crate::discovery::select_peripheral, (names,), r),
    ensures
        names@.len() == 0 ==> (r matches Err(e) && e@ is DeviceNotFound),
        names@.len() == 1 ==> (r matches Ok(choice) && choice is Only),
        names@.len() > 1 ==> r is Ok && r->Ok_0 is Ask && r->Ok_0->lines@.len() == names@.len(),
        names@.len() > 1 && 0 <= i < names@.len() ==> ({
            let line = r->Ok_0->lines@[i]@;
            let number = "  ["@ + crate::text::decimal((i + 1) as nat) + "] "@;
            line == number + match names@[i] {
                Some(name) => name@,
                None => "Unknown"@,
            }
        }),
{
    if names@.len() > 1 {
        let lines = r->Ok_0->lines@;
        assert(crate::text::texts(lines).len() == names@.len());
        if 0 <= i < names@.len() {
            assert(crate::text::texts(lines)[i] == lines[i]@);
        }
    }
}

/// The places of the vaporizers are told in their order, each once.
pub proof fn law_found_in_order(names: Seq<Option<String>>, prefixes: Seq<String>, from: int)
    requires
        0 <= from,
        names.len() <= usize::MAX,
    ensures
        ({
            let found = crate::discovery::found_from(names, prefixes, from);
            &&& forall|a: int| 0 <= a < found.len() ==> from <= #[trigger] found[a] < names.len()
            &&& forall|a: int, b: int| 0 <= a < b < found.len() ==> found[a] < found[b]
        }),
    decreases names.len() - from,
{
    if from < names.len() {
        law_found_in_order(names, prefixes, from + 1);
        let found = crate::discovery::found_from(names, prefixes, from);
        let rest = crate::discovery::found_from(names, prefixes, from + 1);
        if crate::discovery::is_found(names[from], prefixes) {
            assert(found == seq![from as usize] + rest);
            assert forall|a: int| 0 < a < found.len() implies #[trigger] found[a] == rest[a - 1] by {}
        } else {
            assert(found == rest);
        }
    }
}

/// The model by name: VOLCANO is a Volcano Hybrid whatever else the name holds; without it VY, or
/// venty in any case, is a Venty; then VZ or veazy a Veazy; then crafty a Crafty.
pub proof fn law_model_by_name(
    name: &str,
    services: &[u128],
    uuids: &ServiceUuids,
    r: Option<DeviceModel>,
)
    requires
        call_ensures(detect_model, (Some(name), services, uuids), r),
    ensures
        ({
            let lower = crate::text::lowercase(name@);
            let volcano = inside("VOLCANO"@, name@);
            let venty = inside("VY"@, name@) || inside("venty"@, lower);
            let veazy = inside("VZ"@, name@) || inside("veazy"@, lower);
            let crafty = inside("crafty"@, lower);
            &&& volcano ==> r == Some(DeviceModel::VolcanoHybrid)
            &&& !volcano && venty ==> r == Some(DeviceModel::Venty)
            &&& !volcano && !venty && veazy ==> r == Some(DeviceModel::Veazy)
            &&& !volcano && !venty && !veazy && crafty ==> r == Some(DeviceModel::Crafty)
        }),
{
    let lower = crate::text::lowercase(name@);
    lemma_inside("VOLCANO"@, name@);
    lemma_inside("VY"@, name@);
    lemma_inside("venty"@, lower);
    lemma_inside("VZ"@, name@);
    lemma_inside("veazy"@, lower);
    lemma_inside("crafty"@, lower);
}

/// The model by services, where there is no name: either service of the Volcano, that of the Venty,
/// or any of the three of the Crafty, looked for in this order. What is not told is driven as a
/// Venty.
pub proof fn law_model_by_services(
    services: &[u128],
    uuids: &ServiceUuids,
    r: Option<DeviceModel>,
    driven: DeviceModel,
)
    requires
        call_ensures(detect_model, (None::<&str>, services, uuids), r),
        call_ensures(driver_for, (r,), driven),
    ensures
        ({
            let has = |u: u128| exists|i: int| 0 <= i < services@.len() && services@[i] == u;
            let volcano = has(uuids.volcano_state) || has(uuids.volcano_control);
            let venty = has(uuids.venty_primary);
            let crafty = has(uuids.crafty_1) || has(uuids.crafty_2) || has(uuids.crafty_3);
            &&& volcano ==> r == Some(DeviceModel::VolcanoHybrid) && driven
                == DeviceModel::VolcanoHybrid
            &&& !volcano && venty ==> r == Some(DeviceModel::Venty) && driven == DeviceModel::Venty
            &&& !volcano && !venty && crafty ==> r == Some(DeviceModel::Crafty) && driven
                == DeviceModel::Crafty
            &&& !volcano && !venty && !crafty ==> r is None && driven == DeviceModel::Venty
        }),
{
}

/// A scan opens the adapter's events, starts, and lists what is known already; a failure to open or
/// to start ends it with that error.
pub proof fn law_scan_begins(scan: &mut Scan, event: ScanEvent, r: ScanAction)
    requires
        call_ensures(Scan::advance, (scan, event), r),
    ensures
        old(scan).phase == ScanPhase::Opening && event is Done ==> r is StartScan
            && final(scan).phase == ScanPhase::Starting,
        old(scan).phase == ScanPhase::Starting && event is Done ==> r is ListKnown
            && final(scan).phase == ScanPhase::Listing,
        (old(scan).phase == ScanPhase::Opening || old(scan).phase == ScanPhase::Starting) && event
            is Failed ==> r is Finish && r->Finish_0 is Err && r->Finish_0->Err_0@
            == event->Failed_0@ && final(scan).phase == ScanPhase::Finished,
        final(scan).prefixes == old(scan).prefixes,
        final(scan).filter == old(scan).filter,
{
    assert((final(scan)@, r@) == old(scan)@.next(event, old(scan).prefixes@, old(scan).filter));
    assert(r@ is StartScan <==> r is StartScan);
    assert(r@ is ListKnown <==> r is ListKnown);
    assert(r@ is Fail ==> r is Finish);
}

/// A scan that listens looks at the very device that appeared, and ends when the adapter's events or
/// the time do. Whatever is found is the device that was looked at last.
pub proof fn law_scan_listens(scan: &mut Scan, event: ScanEvent, r: ScanAction)
    requires
        call_ensures(Scan::advance, (scan, event), r),
    ensures
        old(scan).phase == ScanPhase::Listening && event is Appeared ==> r is Inspect && r->Inspect_0
            == event->Appeared_0 && final(scan).candidate == event->Appeared_0
            && final(scan).phase == ScanPhase::Inspecting,
        old(scan).phase == ScanPhase::Listening && (event is Ended || event is TimedOut) ==> r
            is StopScan && final(scan).found is None && final(scan).phase == ScanPhase::Stopping,
        (old(scan).phase == ScanPhase::Listing || old(scan).phase == ScanPhase::Inspecting) && event
            is TimedOut ==> r is StopScan && final(scan).found is None && final(scan).phase
            == ScanPhase::Stopping,
        old(scan).phase == ScanPhase::Listening && event is Other ==> r is NextEvent
            && final(scan).phase == ScanPhase::Listening,
        old(scan).phase == ScanPhase::Stopping && old(scan).found is Some ==> r is Finish
            && r->Finish_0 == Ok::<_, StorzError>(old(scan).found->0),
        old(scan).phase == ScanPhase::Stopping && old(scan).found is None ==> r is Finish
            && r->Finish_0 is Err && r->Finish_0->Err_0@ is DeviceNotFound,
        final(scan).found is Some && old(scan).found is None ==> final(scan).found == Some(
            old(scan).candidate,
        ) && r is StopScan,
{
    assert((final(scan)@, r@) == old(scan)@.next(event, old(scan).prefixes@, old(scan).filter));
    assert(r@ is Inspect <==> r is Inspect);
    assert(r@ is StopScan <==> r is StopScan);
    assert(r@ is NextEvent <==> r is NextEvent);
    assert(r@ is Found ==> r is Finish);
    assert(r@ is Fail ==> r is Finish);
}

/// A manager starts without a device and scans for 20 seconds unless another time is asked for. A
/// device that is held is probed for 5 seconds, and without one the adapter is got first.
pub proof fn law_manager_begins(
    filter: Option<String>,
    fresh: DeviceManager,
    millis: u64,
    other: DeviceManager,
    m: &mut DeviceManager,
    r: ManagerAction,
)
    requires
        call_ensures(DeviceManager::new, (filter,), fresh),
        call_ensures(DeviceManager::with_scan_timeout, (fresh, millis), other),
        call_ensures(DeviceManager::get, (m,), r),
    ensures
        !fresh.connected && fresh.filter == filter && fresh.scan_millis == 20_000,
        other == (DeviceManager { scan_millis: millis, ..fresh }),
        old(m).connected ==> r is Probe && r->Probe_millis == 5_000 && final(m).phase
            == ManagerPhase::Probing,
        !old(m).connected ==> r is GetAdapter && final(m).phase == ManagerPhase::FindingAdapter,
        final(m).connected == old(m).connected && final(m).filter == old(m).filter
            && final(m).scan_millis == old(m).scan_millis,
{
    assert(r@ is Probe <==> r is Probe);
    assert(r@ is GetAdapter <==> r is GetAdapter);
}

/// A manager that connects gets the adapter, scans for its own time, opens the adapter's events and
/// connects for 20 seconds at most. A failure on the way is the failure of the request, and what
/// takes too long is a timeout.
pub proof fn law_manager_connects(m: &mut DeviceManager, event: ManagerEvent, r: ManagerAction)
    requires
        call_ensures(DeviceManager::advance, (m, event), r),
    ensures
        ({
            let p = old(m).phase;
            let connecting = p == ManagerPhase::FindingAdapter || p == ManagerPhase::Scanning || p
                == ManagerPhase::OpeningEvents || p == ManagerPhase::Connecting;
            let next = final(m).phase;
            &&& p == ManagerPhase::FindingAdapter && event is Done ==> r is Discover
                && r->Discover_millis == old(m).scan_millis && next == ManagerPhase::Scanning
            &&& p == ManagerPhase::Scanning && event is Done ==> r is OpenEvents && next
                == ManagerPhase::OpeningEvents
            &&& p == ManagerPhase::OpeningEvents && event is Done ==> r is Connect
                && r->Connect_millis == 20_000 && next == ManagerPhase::Connecting
            &&& p == ManagerPhase::Connecting && event is Done ==> r is Adopt && final(m).connected
                && next == ManagerPhase::Resting
            &&& connecting && p != ManagerPhase::Connecting && event is Done ==> final(m).connected
                == old(m).connected
            &&& connecting && event is Failed ==> r is Fail && r->Fail_0@ == event->Failed_0@
                && final(m).connected == old(m).connected && final(m).phase == ManagerPhase::Resting
            &&& connecting && event is TimedOut ==> r is Fail && r->Fail_0@ is Timeout
                && final(m).connected == old(m).connected && next == ManagerPhase::Resting
            &&& p == ManagerPhase::Probing && event is Done ==> r is Reuse && final(m).connected
                == old(m).connected && next == ManagerPhase::Resting
            &&& p == ManagerPhase::Probing && !(event is Done) ==> r is GetAdapter
                && !final(m).connected && next == ManagerPhase::FindingAdapter
        }),
        final(m).filter == old(m).filter && final(m).scan_millis == old(m).scan_millis,
{
    assert(r@ is Discover <==> r is Discover);
    assert(r@ is OpenEvents <==> r is OpenEvents);
    assert(r@ is Connect <==> r is Connect);
    assert(r@ is Adopt <==> r is Adopt);
    assert(r@ is Fail <==> r is Fail);
    assert(r@ is Reuse <==> r is Reuse);
    assert(r@ is GetAdapter <==> r is GetAdapter);
}

/// The link to a device ends when that very device disconnects, or when the adapter is gone.
pub proof fn law_link_ends(id: u64, held: u64, gone: bool, other: bool, ended: bool)
    requires
        call_ensures(crate::manager::ends_link, (LinkEvent::Disconnected { id }, held), gone),
        call_ensures(crate::manager::ends_link, (LinkEvent::Other, held), other),
        call_ensures(crate::manager::ends_link, (LinkEvent::Ended, held), ended),
    ensures
        gone <==> id == held,
        !other,
        ended,
{
}

/// What each model can do that some model cannot.
pub proof fn law_support(model: DeviceModel, op: Operation, r: Result<(), StorzError>)
    requires
        call_ensures(check_support, (model, op), r),
    ensures
        r matches Err(e) ==> e@ == crate::error::unsupported(model.label(), op.label()),
        model == DeviceModel::VolcanoHybrid ==> (r is Ok <==> op is PumpOn || op is PumpOff || op
            is SetTemperatureUnit || op is SetVibration || op is SetAutoShutdownTimer || op
            is SetShutoffTime || op is SetDisplayOnCooling),
        model == DeviceModel::Crafty ==> (r is Ok <==> op is SetBoostTemperature || op
            is FactoryReset || op is SetAutoOffCountdown || op is GetProjectRegister || op
            is SetSecurityCode),
        model == DeviceModel::Venty || model == DeviceModel::Veazy ==> (r is Err <==> op is PumpOn
            || op is PumpOff || op is SetShutoffTime || op is SetDisplayOnCooling || op
            is SetAutoOffCountdown || op is GetProjectRegister || op is SetSecurityCode),
{
}

/// A device that was looked at is found where its name holds one of the prefixes and, if there is a
/// filter, its name or its address holds the filter, whatever the case. Then the scan stops;
/// otherwise it goes on with the next known device, or with what appears.
pub proof fn law_scan_inspects(scan: &mut Scan, seen: Option<Advertisement>, r: ScanAction)
    requires
        call_ensures(Scan::advance, (scan, ScanEvent::Seen(seen)), r),
        old(scan).phase == ScanPhase::Inspecting,
        old(scan).found is None,
    ensures
        ({
            let prefixes = old(scan).prefixes@;
            let filter = old(scan).filter;
            let hit = seen is Some && (exists|i: int|
                0 <= i < prefixes.len() && inside(#[trigger] prefixes[i]@, seen->0.name@)) && (
            filter is Some ==> inside(
                crate::text::lowercase(filter->0@),
                crate::text::lowercase(seen->0.name@),
            ) || inside(
                crate::text::lowercase(filter->0@),
                crate::text::lowercase(seen->0.address@),
            ));
            let queue = old(scan).queue@;
            &&& hit ==> r is StopScan && final(scan).found == Some(old(scan).candidate)
            &&& hit ==> final(scan).phase == ScanPhase::Stopping
            &&& !hit ==> final(scan).found is None
            &&& !hit && queue.len() > 0 ==> r is Inspect && r->Inspect_0 == queue.last()
                && final(scan).candidate == queue.last() && final(scan).queue@ == queue.drop_last()
            &&& !hit && queue.len() == 0 ==> r is NextEvent && final(scan).phase
                == ScanPhase::Listening
            &&& !hit && queue.len() > 0 ==> final(scan).phase == ScanPhase::Inspecting
        }),
{
    let prefixes = old(scan).prefixes@;
    let filter = old(scan).filter;
    assert((final(scan)@, r@) == old(scan)@.next(ScanEvent::Seen(seen), prefixes, filter));
    assert(r@ is Inspect <==> r is Inspect);
    assert(r@ is StopScan <==> r is StopScan);
    assert(r@ is NextEvent <==> r is NextEvent);
    if seen is Some {
        let ad = seen->0;
        lemma_vaporizer(ad.name@, prefixes);
        if filter is Some {
            let f = crate::text::lowercase(filter->0@);
            lemma_inside(f, crate::text::lowercase(ad.name@));
            lemma_inside(f, crate::text::lowercase(ad.address@));
        }
    }
}

proof fn lemma_vaporizer(name: Seq<char>, prefixes: Seq<String>)
    ensures
        crate::discovery::is_vaporizer(name, prefixes) <==> exists|i: int|
            0 <= i < prefixes.len() && inside(#[trigger] prefixes[i]@, name),
{
    assert forall|i: int| 0 <= i < prefixes.len() implies inside(#[trigger] prefixes[i]@, name)
        == crate::text::occurs(name, prefixes[i]@) by {
        lemma_inside(prefixes[i]@, name);
    }
    if crate::discovery::is_vaporizer(name, prefixes) {
        let i = choose|i: int|
            0 <= i < prefixes.len() && crate::text::occurs(name, #[trigger] prefixes[i]@);
        assert(inside(prefixes[i]@, name));
    }
    if exists|i: int| 0 <= i < prefixes.len() && inside(#[trigger] prefixes[i]@, name) {
        let i = choose|i: int| 0 <= i < prefixes.len() && inside(#[trigger] prefixes[i]@, name);
        assert(crate::text::occurs(name, prefixes[i]@));
    }
}

/// The devices that are told as vaporizers are those with a name that holds one of the prefixes.
/// Each is told once, by its place, in their order.
pub proof fn law_vaporizers(names: &[Option<String>], prefixes: &[String], r: Vec<usize>, k: int)
    requires
        call_ensures(crate::discovery::discover_vaporizers, (names, prefixes), r),
        0 <= k < names@.len() <= usize::MAX,
    ensures
        r@.contains(k as usize) <==> names@[k] is Some && exists|i: int|
            0 <= i < prefixes@.len() && inside(#[trigger] prefixes@[i]@, names@[k]->0@),
        forall|a: int| 0 <= a < r@.len() ==> #[trigger] r@[a] < names@.len(),
        forall|a: int, b: int| 0 <= a < b < r@.len() ==> r@[a] < r@[b],
{
    law_found_in_order(names@, prefixes@, 0);
    crate::discovery::law_all_vaporizers_found(names@, prefixes@, k);
    if names@[k] is Some {
        lemma_vaporizer(names@[k]->0@, prefixes@);
    }
}

/// A new scan looks for the given prefixes and filter and has seen nothing yet.
pub proof fn law_new_scan(prefixes: Vec<String>, filter: Option<String>, r: Scan)
    requires
        call_ensures(Scan::new, (prefixes, filter), r),
    ensures
        r.prefixes == prefixes && r.filter == filter,
        r.phase is Opening && r.queue@.len() == 0 && r.found is None,
{
}

/// A device of which nothing is known yet has the characteristics that it was made with.
pub proof fn law_new_devices(
    volcano_uuids: crate::uuids::VolcanoUuids,
    crafty_uuids: crate::uuids::CraftyUuids,
    list: Vec<u128>,
    volcano: crate::protocol::volcano::VolcanoHybrid,
    crafty: crate::protocol::crafty::Crafty,
)
    requires
        call_ensures(
            crate::protocol::volcano::VolcanoHybrid::new,
            (volcano_uuids, list),
            volcano,
        ),
        call_ensures(crate::protocol::crafty::Crafty::new, (crafty_uuids, list), crafty),
    ensures
        volcano.uuids == volcano_uuids && volcano.characteristics@ == list@,
        crafty.uuids == crafty_uuids && crafty.characteristics@ == list@,
        volcano.state == crafty.state,
        volcano.state.current_temp is None && volcano.state.target_temp is None
            && volcano.state.settings is None && volcano.state.raw_activity is None,
        !volcano.state.heater_on && !volcano.state.pump_on && !volcano.state.fan_on,
{
}

/// A scan that does not start is a failure of Bluetooth that tells the reason, between what failed
/// and what to try.
pub proof fn law_scan_error(reason: &str, r: StorzError)
    requires
        call_ensures(crate::discovery::scan_error, (reason,), r),
    ensures
        r@ is Bluetooth,
        r@->Bluetooth_0 == "Failed to start BLE scan: "@ + reason@
            + "\n\nTroubleshooting:\n1. Ensure Bluetooth is enabled: rfkill unblock bluetooth\n2. Ensure adapter is powered on: bluetoothctl power on\n3. Try running with elevated permissions (sudo or bluetooth group)\n4. Check: bluetoothctl show"@,
{
}

/// A name of an operation, as refusals spell it.
pub proof fn law_operation_names(op: Operation, r: &'static str)
    requires
        call_ensures(Operation::name, (op,), r),
    ensures
        op is PumpOn ==> r@ == "pump_on"@,
        op is PumpOff ==> r@ == "pump_off"@,
        op is GetSettings ==> r@ == "get_settings"@,
        op is SetTemperatureUnit ==> r@ == "set_temperature_unit"@,
        op is SetVibration ==> r@ == "set_vibration"@,
        op is SetBoostTemperature ==> r@ == "set_boost_temperature"@,
        op is SetSuperBoostTemperature ==> r@ == "set_super_boost_temperature"@,
        op is SetAutoShutdownTimer ==> r@ == "set_auto_shutdown_timer"@,
        op is SetHeaterMode ==> r@ == "set_heater_mode"@,
        op is FactoryReset ==> r@ == "factory_reset"@,
        op is SetBoostVisualization ==> r@ == "set_boost_visualization"@,
        op is SetChargeCurrentOptimization ==> r@ == "set_charge_current_optimization"@,
        op is SetChargeVoltageLimit ==> r@ == "set_charge_voltage_limit"@,
        op is SetPermanentBluetooth ==> r@ == "set_permanent_bluetooth"@,
        op is SetBoostTimeout ==> r@ == "set_boost_timeout"@,
        op is FindMyDevice ==> r@ == "find_my_device"@,
        op is SetShutoffTime ==> r@ == "set_shutoff_time"@,
        op is SetDisplayOnCooling ==> r@ == "set_display_on_cooling"@,
        op is SetAutoOffCountdown ==> r@ == "set_auto_off_countdown"@,
        op is GetProjectRegister ==> r@ == "get_project_register"@,
        op is SetSecurityCode ==> r@ == "set_security_code"@,
        r@ == op.label(),
{
}

/// What tells nothing of a device leaves a scan where it is: a known device that could not be
/// looked at is passed over for the next one, and other events are waited out.
pub proof fn law_scan_passes_over(scan: &mut Scan, event: ScanEvent, r: ScanAction)
    requires
        call_ensures(Scan::advance, (scan, event), r),
        event is Done || event is Failed || event is Other,
        old(scan).found is None,
    ensures
        ({
            let queue = old(scan).queue@;
            let looking = old(scan).phase == ScanPhase::Listing || old(scan).phase
                == ScanPhase::Inspecting;
            &&& looking && queue.len() > 0 ==> r is Inspect && r->Inspect_0 == queue.last()
                && final(scan).queue@ == queue.drop_last()
            &&& looking && queue.len() == 0 ==> r is NextEvent && final(scan).phase
                == ScanPhase::Listening
            &&& old(scan).phase == ScanPhase::Listening ==> r is NextEvent && final(scan)@
                == old(scan)@
            &&& final(scan).found is None
            &&& old(scan).phase == ScanPhase::Finished ==> r is Finish && r->Finish_0 is Err
                && r->Finish_0->Err_0@ is DeviceNotFound
        }),
{
    assert((final(scan)@, r@) == old(scan)@.next(event, old(scan).prefixes@, old(scan).filter));
    assert(r@ is Inspect <==> r is Inspect);
    assert(r@ is NextEvent <==> r is NextEvent);
    assert(r@ is Fail ==> r is Finish);
}

/// Asking for the device once more starts as the first time did.
pub proof fn law_manager_starts_anew(
    m: &mut DeviceManager,
    r: ManagerAction,
    n: &mut DeviceManager,
    q: ManagerAction,
)
    requires
        *old(m) == *old(n),
        old(m).phase == ManagerPhase::Resting,
        call_ensures(DeviceManager::advance, (m, ManagerEvent::Done), r),
        call_ensures(DeviceManager::get, (n,), q),
    ensures
        r@ == q@,
        final(m).phase == final(n).phase && final(m).connected == final(n).connected,
{
}

} // verus!
