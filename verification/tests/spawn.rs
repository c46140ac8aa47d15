//! The start of an emulator.

use android_emulator::config::{EmulatorConfig, GrpcAuthConfig};
use android_emulator::discovery::Discovered;
use android_emulator::error::EmulatorError;
use android_emulator::ini::parse_ini;
use android_emulator::spawn::{SpawnAction, SpawnEvent, Spawning};
use std::path::PathBuf;

type State = Spawning<(), u32>;

fn start(auth: GrpcAuthConfig, port: Option<u16>) -> State {
    let mut config = EmulatorConfig::new("test".to_string()).with_grpc_auth(auth);
    if let Some(port) = port {
        config = config.with_grpc_port(port);
    }
    config.spawn()
}

fn found() -> SpawnEvent<u32> {
    SpawnEvent::EmulatorFound(Discovered {
        serial: "emulator-5554".to_string(),
        metadata: parse_ini("grpc.port=8555\navd.id=test"),
        discovery_path: PathBuf::from("/run/pid.ini"),
    })
}

fn failure(action: SpawnAction<(), u32>) -> EmulatorError {
    match action {
        SpawnAction::Done(Err(e)) => e,
        _ => panic!("no failure"),
    }
}

#[test]
fn jwt_writes_the_allowlist_first() {
    let s = start(GrpcAuthConfig::Jwt { issuer: None }, Some(8555));
    let (s, a) = s.step(SpawnEvent::HomeFound, 42);
    assert!(matches!(a, SpawnAction::LookForTool));
    let (s, a) = s.step(SpawnEvent::ToolFound, 42);
    match a {
        SpawnAction::WriteAllowlist { file_name, allowlist } => {
            assert_eq!(file_name, "emulator-allowlist-42.json");
            assert_eq!(allowlist.allowlist[1].iss, "emulator-8555");
        }
        _ => panic!("no allowlist"),
    }
    let (s, a) = s.step(SpawnEvent::AllowlistWritten, 42);
    match a {
        SpawnAction::StartProcess(launch) => {
            assert_eq!(launch.grpc_port, 8555);
            assert_eq!(launch.issuer.as_deref(), Some("emulator-8555"));
        }
        _ => panic!("no process"),
    }
    let (s, a) = s.step(SpawnEvent::ProcessStarted(7), 42);
    assert!(matches!(a, SpawnAction::AwaitEmulator { grpc_port: 8555 }));
    let (s, a) = s.step(found(), 42);
    assert!(matches!(s, Spawning::Ended));
    match a {
        SpawnAction::Done(Ok(mut e)) => {
            assert_eq!(e.serial(), "emulator-5554");
            assert_eq!(e.grpc_port(), 8555);
            assert_eq!(e.avd_id(), Some("test"));
            assert_eq!(e.discovery_path(), &PathBuf::from("/run/pid.ini"));
            assert!(e.is_owned());
            assert_eq!(e.take_process(), Some(7));
        }
        _ => panic!("not started"),
    }
}

#[test]
fn without_a_port_a_free_one_is_sought() {
    for (free, port) in [(Some(8560), 8560), (None, 8554)] {
        let s = start(GrpcAuthConfig::NoAuth, None);
        let (s, _) = s.step(SpawnEvent::HomeFound, 1);
        let (s, a) = s.step(SpawnEvent::ToolFound, 1);
        assert!(matches!(a, SpawnAction::FindFreePort));
        let (_, a) = s.step(SpawnEvent::FreePort(free), 1);
        match a {
            SpawnAction::StartProcess(launch) => assert_eq!(launch.grpc_port, port),
            _ => panic!("no process"),
        }
    }
}

#[test]
fn a_missing_sdk_or_tool_ends_the_start() {
    let s = start(GrpcAuthConfig::NoAuth, None);
    let (_, a) = s.step(SpawnEvent::HomeMissing(EmulatorError::AndroidHomeNotFound), 1);
    assert!(matches!(failure(a), EmulatorError::AndroidHomeNotFound));
    let s = start(GrpcAuthConfig::NoAuth, None);
    let (s, _) = s.step(SpawnEvent::HomeFound, 1);
    let (_, a) = s.step(SpawnEvent::ToolMissing("/sdk/emulator/emulator".to_string()), 1);
    match failure(a) {
        EmulatorError::EmulatorToolNotFound(path) => assert_eq!(path, "/sdk/emulator/emulator"),
        _ => panic!("another error"),
    }
}

#[test]
fn a_failing_allowlist_ends_the_start() {
    let to_allowlist = || {
        let s = start(GrpcAuthConfig::Jwt { issuer: None }, Some(1));
        let (s, _) = s.step(SpawnEvent::HomeFound, 1);
        s.step(SpawnEvent::ToolFound, 1).0
    };
    let (_, a) = to_allowlist().step(SpawnEvent::AllowlistNotSerialized("bad".to_string()), 1);
    assert_eq!(
        failure(a).message(),
        "Failed to start emulator: Failed to serialize allowlist: bad"
    );
    let (_, a) = to_allowlist().step(SpawnEvent::AllowlistNotWritten("full".to_string()), 1);
    assert_eq!(failure(a).message(), "IO error: full");
}

#[test]
fn a_failing_process_ends_the_start() {
    let to_process = || {
        let s = start(GrpcAuthConfig::Basic, Some(1));
        let (s, _) = s.step(SpawnEvent::HomeFound, 1);
        s.step(SpawnEvent::ToolFound, 1).0
    };
    let (_, a) = to_process().step(SpawnEvent::ProcessNotStarted("denied".to_string()), 1);
    assert_eq!(failure(a).message(), "Failed to start emulator: denied");
    let (s, _) = to_process().step(SpawnEvent::ProcessStarted(7), 1);
    let (_, a) = s.step(SpawnEvent::EmulatorNotFound(EmulatorError::AdbError("x".to_string())), 1);
    assert!(matches!(failure(a), EmulatorError::AdbError(_)));
}
