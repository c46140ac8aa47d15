//! Connections, boots and shutdowns.

use android_emulator::auth::{AuthError, AuthProvider, AuthScheme};
use android_emulator::client::{
    connect_or_start_emulator, BootAction, BootEvent, ConnectOrStart, EmulatorClient,
    ShutdownAction, ShutdownEvent, StartAction, StartEvent,
};
use android_emulator::config::EmulatorConfig;
use android_emulator::emulator::Emulator;
use android_emulator::error::EmulatorError;
use android_emulator::ini::parse_ini;
use android_emulator::time::Duration;
use std::path::PathBuf;

fn client() -> EmulatorClient<u8> {
    EmulatorClient::connect("http://localhost:8554".to_string(), Ok(5)).unwrap()
}

fn secs(n: u64) -> Duration {
    Duration::from_secs(n)
}

#[test]
fn a_client_knows_its_connection() {
    let mut c = client();
    assert_eq!(c.endpoint(), "http://localhost:8554");
    assert!(matches!(c.auth_scheme(), AuthScheme::NoAuth));
    assert_eq!(*c.protocol(), 5);
    *c.protocol_mut() = 6;
    assert_eq!(*c.protocol(), 6);
    assert_eq!(c.endpoint(), "http://localhost:8554");
}

#[test]
fn endpoints_that_are_no_uris_are_refused() {
    for bad in ["", "http://", "not a uri", "http://local host:1"] {
        let expected = match tonic::transport::Channel::from_shared(bad.to_string()) {
            Ok(_) => panic!("{bad} is accepted"),
            Err(e) => e.to_string(),
        };
        match EmulatorClient::connect(bad.to_string(), Ok(())) {
            Err(EmulatorError::InvalidUri(m)) => assert_eq!(m, expected),
            _ => panic!("{bad} was accepted"),
        }
        assert!(EmulatorClient::<()>::check_endpoint(bad).is_err());
    }
    for port in [0u16, 80, 8554, 65535] {
        assert!(EmulatorClient::<()>::check_endpoint(&format!("http://localhost:{port}")).is_ok());
    }
}

#[test]
fn what_was_dialed_decides() {
    let auth = AuthProvider::new_bearer("t".to_string());
    let made: Result<EmulatorClient<()>, _> = EmulatorClient::connect_with_auth(
        "http://localhost:1".to_string(),
        auth,
        Err("refused".to_string()),
    );
    match made {
        Err(e) => assert_eq!(e.message(), "gRPC connection error: refused"),
        Ok(_) => panic!("connected"),
    }
    let auth = AuthProvider::new_bearer("t".to_string());
    let made = EmulatorClient::connected(
        "whatever".to_string(),
        auth,
        Some("bad".to_string()),
        Ok(()),
    );
    match made {
        Err(e) => assert_eq!(e.message(), "Invalid gRPC endpoint URI: bad"),
        Ok(_) => panic!("connected"),
    }
}

#[test]
fn tokens_are_exported_by_the_provider() {
    match client().export_token(&["/a/b"], secs(1)) {
        Err(EmulatorError::AuthError(AuthError::Unsupported(what))) => {
            assert_eq!(what, "export_token")
        }
        _ => panic!("exported"),
    }
    let (auth, _) = AuthProvider::new_jwt(PathBuf::from("/d"), "i".to_string()).unwrap();
    let c = EmulatorClient::connect_with_auth("http://localhost:1".to_string(), auth, Ok(()))
        .unwrap();
    let token = c.export_token(&["/a/b"], secs(60)).unwrap();
    assert_eq!(token.token.split('.').count(), 3);
}

fn sleeping(a: BootAction) -> Duration {
    match a {
        BootAction::Sleep(d) => d,
        _ => panic!("no sleep"),
    }
}

#[test]
fn the_boot_is_awaited() {
    let c = client();
    let step = |event, interval| c.wait_until_booted(event, secs(10), interval);
    let waiting = |elapsed, later| BootEvent::NotBooted { elapsed, later };
    match step(BootEvent::Booted { elapsed: secs(99) }, None) {
        BootAction::Done(Ok(d)) => assert_eq!(d.as_secs(), 99),
        _ => panic!("not booted"),
    }
    match step(BootEvent::StatusFailed("gone".to_string()), None) {
        BootAction::Done(Err(EmulatorError::GrpcStatus(m))) => assert_eq!(m, "gone"),
        _ => panic!("no error"),
    }
    assert_eq!(sleeping(step(waiting(secs(1), secs(1)), None)).as_secs(), 2);
    assert_eq!(sleeping(step(waiting(secs(1), secs(1)), Some(secs(5)))).as_secs(), 5);
    assert_eq!(sleeping(step(waiting(secs(9), secs(9)), None)).as_secs(), 1);
    assert!(sleeping(step(waiting(secs(1), secs(1)), Some(secs(0)))).is_zero());
    for (elapsed, later, interval) in [
        (secs(10), secs(10), None),
        (secs(11), secs(11), None),
        (Duration::new(9, 999_999_999), secs(10), None),
        (secs(10), secs(10), Some(secs(0))),
    ] {
        assert!(matches!(
            step(waiting(elapsed, later), interval),
            BootAction::Done(Err(EmulatorError::ConnectionTimeout))
        ));
    }
}

#[test]
fn the_shutdown_is_awaited() {
    let c = client();
    let known = |elapsed, later| ShutdownEvent::Known { elapsed, later };
    assert!(matches!(c.shutdown(ShutdownEvent::Requested, None), ShutdownAction::Look));
    match c.shutdown(ShutdownEvent::RequestFailed("no".to_string()), None) {
        ShutdownAction::Done(Err(e)) => assert_eq!(
            e.message(),
            "Failed to kill emulator: Failed to set VM state to SHUTDOWN: no"
        ),
        _ => panic!("no error"),
    }
    assert!(matches!(c.shutdown(ShutdownEvent::Unknown, None), ShutdownAction::Done(Ok(()))));
    assert!(matches!(c.shutdown(ShutdownEvent::Lost, None), ShutdownAction::Done(Ok(()))));
    match c.shutdown(known(secs(1), secs(1)), None) {
        ShutdownAction::Sleep(d) => assert_eq!((d.as_secs(), d.subsec_nanos()), (0, 500_000_000)),
        _ => panic!("no sleep"),
    }
    match c.shutdown(known(secs(4), Duration::new(4, 900_000_000)), Some(secs(5))) {
        ShutdownAction::Sleep(d) => assert_eq!((d.as_secs(), d.subsec_nanos()), (0, 100_000_000)),
        _ => panic!("no sleep"),
    }
    for (elapsed, later, timeout) in [
        (secs(30), secs(30), None),
        (secs(5), secs(5), Some(secs(5))),
        (secs(4), secs(5), Some(secs(5))),
    ] {
        assert!(matches!(
            c.shutdown(known(elapsed, later), timeout),
            ShutdownAction::Done(Err(EmulatorError::ConnectionTimeout))
        ));
    }
}

fn emulator(serial: &str, metadata: &str) -> Emulator<()> {
    Emulator::discovered(serial.to_string(), 1, parse_ini(metadata), PathBuf::from("/x"))
}

#[test]
fn the_first_emulator_with_the_avd_is_taken() {
    let list = vec![
        emulator("emulator-1", ""),
        emulator("emulator-2", "avd.id=b"),
        emulator("emulator-3", "avd.id=a"),
        emulator("emulator-4", "avd.id=a"),
    ];
    let found = match EmulatorClient::<()>::connect_avd(&list, "a") {
        Ok(found) => found,
        Err(e) => panic!("{}", e.message()),
    };
    assert_eq!(found.emulator.serial(), "emulator-3");
    assert_eq!((found.timeout.as_secs(), found.timeout.subsec_nanos()), (30, 0));
    assert!(found.allow_basic_auth);
    match EmulatorClient::<()>::connect_avd(&list, "c") {
        Err(e) => assert_eq!(e.message(), "Failed to start emulator: No running emulator found"),
        Ok(_) => panic!("found"),
    }
}

type Starting = ConnectOrStart<(), u32>;

fn looking() -> Starting {
    let (state, avd) = Starting::new(EmulatorConfig::new("a".to_string()));
    assert_eq!(avd, "a");
    state
}

fn started() -> Emulator<u32> {
    Emulator::spawned(
        7,
        "emulator-1".to_string(),
        8556,
        parse_ini(""),
        PathBuf::from("/x"),
        None,
    )
}

#[test]
fn an_emulator_that_runs_is_used() {
    match connect_or_start_emulator(looking(), StartEvent::Existing(Ok(5))) {
        (ConnectOrStart::Ended, StartAction::Done { res: Ok((5, None)), abandoned: None }) => {}
        _ => panic!("not used"),
    }
}

#[test]
fn an_emulator_is_started_where_none_runs() {
    let missing = StartEvent::Existing::<u8, u32>(Err(EmulatorError::ConnectionTimeout));
    let (state, action) = connect_or_start_emulator(looking(), missing);
    match action {
        StartAction::Spawn(config) => assert_eq!(config.avd_id(), "a"),
        _ => panic!("not started"),
    }
    let (state, action) =
        connect_or_start_emulator(state, StartEvent::Spawned::<u8, u32>(Ok(started())));
    match action {
        StartAction::Connect { endpoint, timeout, allow_basic_auth } => {
            assert_eq!(endpoint, "http://localhost:8556");
            assert_eq!((timeout.as_secs(), timeout.subsec_nanos()), (120, 0));
            assert!(allow_basic_auth);
        }
        _ => panic!("not connected to"),
    }
    match connect_or_start_emulator(state, StartEvent::Connected(Ok(5))) {
        (_, StartAction::Done { res: Ok((5, Some(emulator))), abandoned: None }) => {
            assert!(emulator.is_owned());
            assert_eq!(emulator.grpc_endpoint(), "http://localhost:8556");
        }
        _ => panic!("not connected"),
    }
}

#[test]
fn failures_of_a_started_emulator_are_passed_on() {
    let failed = StartEvent::Spawned::<u8, u32>(Err(EmulatorError::NoAvdsFound));
    match connect_or_start_emulator(Starting::Start, failed) {
        (_, StartAction::Done { res: Err(EmulatorError::NoAvdsFound), abandoned: None }) => {}
        _ => panic!("another outcome"),
    }
    let failed = StartEvent::Connected::<u8, u32>(Err(EmulatorError::ConnectionTimeout));
    match connect_or_start_emulator(Starting::Connect(started()), failed) {
        (
            _,
            StartAction::Done {
                res: Err(EmulatorError::ConnectionTimeout),
                abandoned: Some(mut emulator),
            },
        ) => assert_eq!(emulator.take_process(), Some(7)),
        _ => panic!("another outcome"),
    }
}
