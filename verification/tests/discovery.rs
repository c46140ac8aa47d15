//! Running emulators.

use android_emulator::discovery::{
    describe, device_failure, emulator_serials, find_free_grpc_port, list_emulators,
    listing_error, usable_serials, Description, EmulatorPoll, PollAction, PollEvent,
};
use android_emulator::emulator::Emulator;
use android_emulator::error::EmulatorError;
use std::path::PathBuf;

fn ids(v: &[&str]) -> Vec<String> {
    v.iter().map(|s| s.to_string()).collect()
}

fn described(content: &str) -> Description {
    Some((PathBuf::from("/run/x.ini"), content.to_string()))
}

#[test]
fn devices_that_are_no_emulators_are_passed_over() {
    let v = ids(&[
        "emulator-5554", "R58M123", "emulator-", "emulator-70000", "emulator-x", "emulator-5556",
        "emulator-٣", "xemulator-5558", "emulator-+1", "emulator-65535", "emulator-1\n",
    ]);
    assert_eq!(usable_serials(&v), ["emulator-5554", "emulator-5556", "emulator-65535"]);
}

#[test]
fn emulators_are_listed_in_order() {
    let v = ids(&["emulator-5556", "usb:1", "emulator-5554"]);
    assert_eq!(emulator_serials(&v).unwrap(), ["emulator-5556", "emulator-5554"]);
    assert!(emulator_serials(&vec![]).unwrap().is_empty());
}

#[test]
fn an_emulator_that_cannot_be_reached_is_an_error() {
    let v = ids(&["emulator-5556", "emulator-abc", "emulator-70000"]);
    let expected = adb_client::emulator::ADBEmulatorDevice::new("emulator-abc".to_string(), None)
        .err()
        .unwrap()
        .to_string();
    match emulator_serials(&v) {
        Err(EmulatorError::IoError(m)) => {
            assert_eq!(m, format!("Failed to create ADBEmulatorDevice: {expected}"))
        }
        _ => panic!("no error"),
    }
    assert_eq!(
        device_failure("x").message(),
        "IO error: Failed to create ADBEmulatorDevice: x"
    );
    assert_eq!(listing_error("x").message(), "IO error: Failed to list ADB devices: x");
}

#[test]
fn the_first_free_port_is_found() {
    assert_eq!(find_free_grpc_port(None), None);
    assert_eq!(find_free_grpc_port(Some(&vec![])), Some(8554));
    let port = |p: &str| Some(format!("grpc.port={p}\n"));
    let used = vec![port("8555"), None, port("8554"), port("x"), port("9000"), port("8557")];
    assert_eq!(find_free_grpc_port(Some(&used)), Some(8556));
    let all: Vec<Option<String>> = (8554..8600).map(|p| port(&p.to_string())).collect();
    assert_eq!(find_free_grpc_port(Some(&all)), Some(8600));
    assert_eq!(find_free_grpc_port(Some(&all[..45].to_vec())), Some(8599));
    let last: Vec<Option<String>> = (8554..65535).map(|p| port(&p.to_string())).collect();
    assert_eq!(find_free_grpc_port(Some(&last)), Some(65535));
    let every: Vec<Option<String>> = (8554..65536).map(|p| port(&p.to_string())).collect();
    assert_eq!(find_free_grpc_port(Some(&every)), None);
}

#[test]
fn emulators_describe_themselves() {
    let e: Emulator<()> = describe(
        "emulator-5554".to_string(),
        described("grpc.port=8554\navd.id=Pixel\n"),
    )
    .unwrap();
    assert_eq!((e.serial(), e.grpc_port(), e.avd_id()), ("emulator-5554", 8554, Some("Pixel")));
    assert!(!e.is_owned());
    assert!(describe::<()>("emulator-1".to_string(), None).is_none());
    assert!(describe::<()>("emulator-1".to_string(), described("avd.id=x")).is_none());
    assert!(describe::<()>("emulator-1".to_string(), described("grpc.port=70000")).is_none());
}

#[test]
fn emulators_without_a_port_are_not_listed() {
    let list: Vec<Emulator<()>> = list_emulators(
        ids(&["emulator-1", "emulator-2", "emulator-3", "emulator-4"]),
        vec![
            described("grpc.port=1001"),
            None,
            described("avd.id=x"),
            described("grpc.port = 1004"),
        ],
    );
    let seen: Vec<(&str, u16)> = list.iter().map(|e| (e.serial(), e.grpc_port())).collect();
    assert_eq!(seen, [("emulator-1", 1001), ("emulator-4", 1004)]);
}

#[test]
fn the_wait_inspects_devices_until_the_port_appears() {
    let mut poll = EmulatorPoll::new(8554);
    assert!(matches!(poll.poll_for_emulator(PollEvent::Awake), PollAction::ListDevices));
    assert!(matches!(poll.poll_for_emulator(PollEvent::Devices(None)), PollAction::Sleep));
    assert!(matches!(
        poll.poll_for_emulator(PollEvent::Devices(Some(ids(&["usb", "emulator-x"])))),
        PollAction::Sleep
    ));
    let inspect = |a: PollAction, s: &str| match a {
        PollAction::Inspect(serial) => assert_eq!(serial, s),
        _ => panic!("nothing to inspect"),
    };
    let all = ids(&["emulator-1", "usb", "emulator-2", "emulator-3"]);
    inspect(poll.poll_for_emulator(PollEvent::Devices(Some(all.clone()))), "emulator-1");
    inspect(poll.poll_for_emulator(PollEvent::Inspected(None)), "emulator-2");
    inspect(
        poll.poll_for_emulator(PollEvent::Inspected(described("grpc.port=8555"))),
        "emulator-3",
    );
    assert!(matches!(
        poll.poll_for_emulator(PollEvent::Inspected(described("avd.id=x"))),
        PollAction::Sleep
    ));
    assert!(matches!(poll.poll_for_emulator(PollEvent::Awake), PollAction::ListDevices));
    inspect(poll.poll_for_emulator(PollEvent::Devices(Some(all))), "emulator-1");
    match poll.poll_for_emulator(PollEvent::Inspected(described("grpc.port=8554\na=b"))) {
        PollAction::Appeared(e) => {
            assert_eq!(e.serial, "emulator-1");
            assert_eq!(e.metadata.get("a").map(|s| s.as_str()), Some("b"));
            assert_eq!(e.discovery_path, PathBuf::from("/run/x.ini"));
        }
        _ => panic!("not found"),
    }
}
