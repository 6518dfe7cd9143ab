use storz_rs::detection::{detect_by_services, detect_model, driver_for};
use storz_rs::device::DeviceModel;
use storz_rs::discovery::{
    advertisement_matches, discover_vaporizers, scan_error, select_peripheral, selection,
    Advertisement, Choice,
};
use storz_rs::error::StorzError;
use storz_rs::manager::{
    ends_link, DeviceManager, LinkEvent, ManagerAction, ManagerEvent, ManagerPhase,
};
use storz_rs::scan::{Scan, ScanAction, ScanEvent, ScanPhase};
use storz_rs::uuids::ServiceUuids;

fn prefixes() -> Vec<String> {
    vec!["VOLCANO".to_string(), "S&B".to_string()]
}

fn ad(name: &str, address: &str) -> Advertisement {
    Advertisement { name: name.to_string(), address: address.to_string() }
}

fn some(text: &str) -> Option<String> {
    Some(text.to_string())
}

const SERVICES: ServiceUuids = ServiceUuids {
    volcano_state: 1,
    volcano_control: 2,
    venty_primary: 3,
    crafty_1: 4,
    crafty_2: 5,
    crafty_3: 6,
};

#[test]
fn names_filters_and_addresses() {
    let device = ad("S&B VOLCANO H", "AA:BB:CC");
    let hit = |filter: Option<String>| advertisement_matches(&device, &prefixes(), &filter);
    assert!(hit(None));
    assert!(hit(some("volcano")));
    assert!(hit(some("Volcano h")));
    assert!(hit(some("aa:bb:cc")));
    // A part of the address is enough, wherever it stands.
    assert!(hit(some("aa:bb")));
    assert!(hit(some("BB:cc")));
    assert!(!hit(some("aa:cc")));
    assert!(!hit(some("venty")));
    // The filter does not make a vaporizer of something else.
    let other = ad("Toaster", "AA:BB:CC");
    assert!(!advertisement_matches(&other, &prefixes(), &None));
    assert!(!advertisement_matches(&other, &prefixes(), &some("toaster")));
    // Prefixes are looked for as they are, anywhere in the name.
    assert!(!advertisement_matches(&ad("volcano", ""), &prefixes(), &None));
    assert!(!advertisement_matches(&ad("", ""), &prefixes(), &None));
    // Case does not matter beyond ASCII either.
    assert!(advertisement_matches(&ad("S&B ÄÖ", ""), &prefixes(), &some("äö")));
}

#[test]
fn vaporizers_among_devices() {
    let names = [some("S&B A"), None, some("Lamp"), some("VOLCANO B")];
    assert_eq!(discover_vaporizers(&names, &prefixes()), [0, 3]);
    assert!(discover_vaporizers(&names, &[]).is_empty());
    assert!(discover_vaporizers(&[], &prefixes()).is_empty());
}

#[test]
fn failed_scan_comes_with_advice() {
    let text = scan_error("no adapter").message("");
    assert!(text.starts_with("Bluetooth error: Failed to start BLE scan: no adapter\n\nTroubleshooting:\n1. "));
    assert!(text.ends_with("4. Check: bluetoothctl show"));
}

#[test]
fn choosing_a_device() {
    assert!(matches!(select_peripheral(&[]), Err(StorzError::DeviceNotFound)));
    assert!(matches!(select_peripheral(&[None]), Ok(Choice::Only)));
    match select_peripheral(&[some("A"), None, some("C")]) {
        Ok(Choice::Ask { lines, prompt }) => {
            assert_eq!(lines, ["  [1] A", "  [2] Unknown", "  [3] C"]);
            assert_eq!(prompt, "\nSelect device [1-3]: ");
        }
        other => panic!("{other:?}"),
    }
    assert_eq!(selection(" 2\n", 3), Some(1));
    assert_eq!(selection("+3", 3), Some(2));
    for bad in ["0", "4", "", "two", "-1", "1 2", "99999999999999999999999"] {
        assert_eq!(selection(bad, 3), None, "{bad}");
    }
}

#[test]
fn models_by_name() {
    let by_name = |name: &str| detect_model(Some(name), &[], &SERVICES);
    assert_eq!(by_name("S&B VOLCANO H"), Some(DeviceModel::VolcanoHybrid));
    assert_eq!(by_name("VY1234"), Some(DeviceModel::Venty));
    assert_eq!(by_name("My VeNtY"), Some(DeviceModel::Venty));
    assert_eq!(by_name("VZ1234"), Some(DeviceModel::Veazy));
    assert_eq!(by_name("veazy"), Some(DeviceModel::Veazy));
    assert_eq!(by_name("STORZ&BICKEL CRAFTY"), Some(DeviceModel::Crafty));
    assert_eq!(by_name("volcano"), None);
    assert_eq!(by_name("VY VOLCANO"), Some(DeviceModel::VolcanoHybrid));
}

#[test]
fn models_by_services() {
    let by = |services: &[u128]| detect_by_services(services, &SERVICES);
    assert_eq!(by(&[9, 1]), Some(DeviceModel::VolcanoHybrid));
    assert_eq!(by(&[2]), Some(DeviceModel::VolcanoHybrid));
    assert_eq!(by(&[3]), Some(DeviceModel::Venty));
    for service in 4..=6 {
        assert_eq!(by(&[service]), Some(DeviceModel::Crafty));
    }
    assert_eq!(by(&[9]), None);
    // The name comes first, and nothing known means a Venty.
    assert_eq!(detect_model(Some("crafty"), &[1], &SERVICES), Some(DeviceModel::Crafty));
    assert_eq!(detect_model(Some("?"), &[1], &SERVICES), Some(DeviceModel::VolcanoHybrid));
    assert_eq!(detect_model(None, &[], &SERVICES), None);
    assert_eq!(driver_for(None), DeviceModel::Venty);
    assert_eq!(driver_for(Some(DeviceModel::Crafty)), DeviceModel::Crafty);
}

#[test]
fn scan_looks_at_known_devices_first() {
    let mut scan = Scan::new(prefixes(), None);
    assert!(matches!(scan.advance(ScanEvent::Done), ScanAction::StartScan));
    assert!(matches!(scan.advance(ScanEvent::Done), ScanAction::ListKnown));
    assert!(matches!(scan.advance(ScanEvent::Known(vec![10, 20])), ScanAction::Inspect(10)));
    assert!(matches!(scan.advance(ScanEvent::Seen(None)), ScanAction::Inspect(20)));
    assert!(matches!(
        scan.advance(ScanEvent::Seen(Some(ad("Lamp", "")))),
        ScanAction::NextEvent
    ));
    assert!(matches!(scan.advance(ScanEvent::Other), ScanAction::NextEvent));
    assert!(matches!(scan.advance(ScanEvent::Appeared(30)), ScanAction::Inspect(30)));
    assert!(matches!(
        scan.advance(ScanEvent::Seen(Some(ad("VOLCANO", "")))),
        ScanAction::StopScan
    ));
    assert!(matches!(scan.advance(ScanEvent::Done), ScanAction::Finish(Ok(30))));
}

#[test]
fn scan_that_finds_nothing() {
    for end in [ScanEvent::TimedOut, ScanEvent::Ended] {
        let mut scan = Scan::new(prefixes(), some("venty"));
        scan.advance(ScanEvent::Done);
        scan.advance(ScanEvent::Done);
        assert!(matches!(
            scan.advance(ScanEvent::Failed(StorzError::Timeout)),
            ScanAction::NextEvent
        ));
        assert!(matches!(scan.advance(end), ScanAction::StopScan));
        assert!(matches!(
            scan.advance(ScanEvent::Done),
            ScanAction::Finish(Err(StorzError::DeviceNotFound))
        ));
        assert_eq!(scan.phase, ScanPhase::Finished);
    }
    let mut scan = Scan::new(prefixes(), None);
    assert!(matches!(
        scan.advance(ScanEvent::Failed(StorzError::NotConnected)),
        ScanAction::Finish(Err(StorzError::NotConnected))
    ));
    let mut scan = Scan::new(prefixes(), None);
    scan.advance(ScanEvent::Done);
    assert!(matches!(
        scan.advance(ScanEvent::Failed(StorzError::NotConnected)),
        ScanAction::Finish(Err(StorzError::NotConnected))
    ));
}

#[test]
fn manager_connects_and_reuses() {
    let mut manager = DeviceManager::new(some("x")).with_scan_timeout(7000);
    assert!(matches!(manager.get(), ManagerAction::GetAdapter));
    assert!(matches!(
        manager.advance(ManagerEvent::Done),
        ManagerAction::Discover { millis: 7000 }
    ));
    assert!(matches!(manager.advance(ManagerEvent::Done), ManagerAction::OpenEvents));
    assert!(matches!(
        manager.advance(ManagerEvent::Done),
        ManagerAction::Connect { millis: 20000 }
    ));
    assert!(matches!(manager.advance(ManagerEvent::Done), ManagerAction::Adopt));
    assert!(manager.connected);
    assert!(matches!(manager.get(), ManagerAction::Probe { millis: 5000 }));
    assert!(matches!(manager.advance(ManagerEvent::Done), ManagerAction::Reuse));
    // A device that does not answer is let go of.
    for failure in [ManagerEvent::TimedOut, ManagerEvent::Failed(StorzError::NotConnected)] {
        manager.connected = true;
        manager.get();
        assert!(matches!(manager.advance(failure), ManagerAction::GetAdapter));
        assert!(!manager.connected);
    }
    assert_eq!(manager.filter.as_deref(), Some("x"));
    assert_eq!(DeviceManager::new(None).scan_millis, 20000);
}

#[test]
fn manager_passes_failures_on() {
    let mut manager = DeviceManager::new(None);
    manager.get();
    assert!(matches!(
        manager.advance(ManagerEvent::Failed(StorzError::DeviceNotFound)),
        ManagerAction::Fail(StorzError::DeviceNotFound)
    ));
    manager.get();
    manager.advance(ManagerEvent::Done);
    manager.advance(ManagerEvent::Done);
    manager.advance(ManagerEvent::Done);
    assert!(matches!(
        manager.advance(ManagerEvent::TimedOut),
        ManagerAction::Fail(StorzError::Timeout)
    ));
    assert!(!manager.connected);
    assert_eq!(manager.phase, ManagerPhase::Resting);
}

#[test]
fn only_the_held_device_ends_the_link() {
    assert!(ends_link(LinkEvent::Disconnected { id: 5 }, 5));
    assert!(!ends_link(LinkEvent::Disconnected { id: 4 }, 5));
    assert!(!ends_link(LinkEvent::Other, 5));
    assert!(ends_link(LinkEvent::Ended, 5));
}
