//! Emulators and how to connect to them.

use android_emulator::auth::{AuthError, AuthProvider, AuthScheme};
use android_emulator::cache::TokenCache;
use android_emulator::emulator::{ConnectAction, ConnectEvent, ConnectState, Emulator};
use android_emulator::error::EmulatorError;
use android_emulator::ini::parse_ini;
use android_emulator::time::Duration;
use std::path::PathBuf;

fn emulator(metadata: &str) -> Emulator<u32> {
    Emulator::discovered(
        "emulator-5554".to_string(),
        8554,
        parse_ini(metadata),
        PathBuf::from("/run/x.ini"),
    )
}

fn owned(metadata: &str, issuer: Option<&str>) -> Emulator<u32> {
    Emulator::spawned(
        7,
        "emulator-5554".to_string(),
        8554,
        parse_ini(metadata),
        PathBuf::from("/run/x.ini"),
        issuer.map(|s| s.to_string()),
    )
}

fn switched(action: ConnectAction) -> AuthProvider {
    match action {
        ConnectAction::Switch(auth) => auth,
        _ => panic!("no provider"),
    }
}

const LIMIT: u64 = 30;

fn limit() -> Option<Duration> {
    Some(Duration::from_secs(LIMIT))
}

fn failed_after(secs: u64) -> ConnectEvent {
    ConnectEvent::NotConnected { elapsed: Duration::from_secs(secs) }
}

#[test]
fn metadata_is_read() {
    let e = emulator(
        "avd.name=Pixel 7\navd.id=Pixel_7\navd.dir=/avd\nemulator.version=35.1\nemulator.build=123\nport.serial=5554\nport.adb=5555x\ncmdline=emulator -avd x\n",
    );
    assert_eq!(e.avd_name(), Some("Pixel 7"));
    assert_eq!(e.avd_id(), Some("Pixel_7"));
    assert_eq!(e.avd_dir(), Some("/avd"));
    assert_eq!(e.emulator_version(), Some("35.1"));
    assert_eq!(e.emulator_build(), Some("123"));
    assert_eq!(e.port_serial(), Some(5554));
    assert_eq!(e.port_adb(), None);
    assert_eq!(e.cmdline(), Some("emulator -avd x"));
    assert_eq!(e.get_metadata("nothing"), None);
    assert_eq!(e.metadata().get("avd.id").map(|s| s.as_str()), Some("Pixel_7"));
    assert_eq!(e.grpc_endpoint(), "http://localhost:8554");
    assert_eq!(e.serial(), "emulator-5554");
    assert_eq!(e.discovery_path(), &PathBuf::from("/run/x.ini"));
    assert!(!e.requires_jwt_auth());
    assert!(emulator("grpc.jwk_active=/x").requires_jwt_auth());
    assert_eq!(emulator("port.adb=5555").port_adb(), Some(5555));
}

#[test]
fn without_auth_the_connection_is_tried_until_the_timeout() {
    let e = emulator("");
    let (state, action) = e.connect(true);
    assert!(matches!(switched(action).auth_scheme(), AuthScheme::NoAuth));
    assert_eq!(state, ConnectState::Trying);
    let (state, action) = e.connect_step(state, failed_after(LIMIT), limit(), true);
    assert!(matches!(action, ConnectAction::Sleep));
    let (_, action) = e.connect_step(state, failed_after(LIMIT + 1), limit(), true);
    assert!(matches!(action, ConnectAction::Done(Err(EmulatorError::ConnectionTimeout))));
    let (_, action) = e.connect_step(state, failed_after(1_000_000), None, true);
    assert!(matches!(action, ConnectAction::Sleep));
    let (state, action) = e.connect_step(state, ConnectEvent::Connected, limit(), true);
    assert!(matches!(action, ConnectAction::Done(Ok(()))));
    assert_eq!(state, ConnectState::Ended);
}

#[test]
fn the_console_token_is_used_if_allowed() {
    let e = emulator("grpc.token=secret");
    let (_, action) = e.connect(true);
    let auth = switched(action);
    assert!(matches!(auth.auth_scheme(), AuthScheme::Bearer));
    assert_eq!(auth.token_for_aud(&mut TokenCache::new(), "/a").unwrap(), "secret");
    let (_, action) = e.connect(false);
    assert!(matches!(switched(action).auth_scheme(), AuthScheme::NoAuth));
}

#[test]
fn a_key_is_registered_where_one_is_required() {
    let metadata = "grpc.jwk_active=/d/active.jwk\ngrpc.jwks=/d\n";
    for (e, expected) in [
        (emulator(metadata), "android-studio"),
        (owned(metadata, Some("emulator-8554")), "emulator-8554"),
    ] {
        let (state, action) = e.connect(false);
        assert_eq!(state, ConnectState::Registering);
        match action {
            ConnectAction::RegisterKey { jwks_dir, issuer } => {
                assert_eq!(jwks_dir, "/d");
                assert_eq!(issuer, expected);
            }
            _ => panic!("no key"),
        }
        let (state, action) = e.connect_step(state, ConnectEvent::KeyReady, limit(), false);
        assert_eq!(state, ConnectState::TryingJwt);
        assert!(matches!(action, ConnectAction::Attempt));
        let (state, action) = e.connect_step(state, failed_after(1), limit(), false);
        assert_eq!(state, ConnectState::TryingJwt);
        assert!(matches!(action, ConnectAction::Sleep));
        let (_, action) = e.connect_step(state, failed_after(31), limit(), false);
        assert!(matches!(action, ConnectAction::Done(Err(EmulatorError::ConnectionTimeout))));
    }
}

#[test]
fn a_missing_key_directory_is_an_error() {
    let e = emulator("grpc.jwk_active=x");
    let (state, action) = e.connect(true);
    assert_eq!(state, ConnectState::Ended);
    match action {
        ConnectAction::Done(Err(err)) => assert_eq!(
            err.message(),
            "Failed to start emulator: Emulator requires JWT auth but grpc.jwks path not found in metadata"
        ),
        _ => panic!("no error"),
    }
}

#[test]
fn failures_with_keys_fall_back_on_the_console_token() {
    let e = emulator("grpc.jwk_active=x\ngrpc.token=t");
    let (state, action) = e.connect(true);
    assert_eq!(state, ConnectState::Trying);
    assert!(matches!(switched(action).auth_scheme(), AuthScheme::Bearer));
    assert!(matches!(e.connect(false).1, ConnectAction::Done(Err(_))));

    let e = emulator("grpc.jwk_active=x\ngrpc.jwks=/d\ngrpc.token=t");
    let failed = || {
        ConnectEvent::KeyFailed(EmulatorError::AuthError(AuthError::JwksRegistrationTimeout))
    };
    let (state, _) = e.connect(true);
    let (state, action) = e.connect_step(state, failed(), limit(), true);
    assert_eq!(state, ConnectState::Trying);
    assert!(matches!(switched(action).auth_scheme(), AuthScheme::Bearer));
    let (state, _) = e.connect(false);
    let (_, action) = e.connect_step(state, failed(), limit(), false);
    assert!(matches!(
        action,
        ConnectAction::Done(Err(EmulatorError::AuthError(AuthError::JwksRegistrationTimeout)))
    ));
    let (state, action) =
        e.connect_step(ConnectState::TryingJwt, failed_after(31), limit(), true);
    assert_eq!(state, ConnectState::Trying);
    assert!(matches!(switched(action).auth_scheme(), AuthScheme::Bearer));
}

#[test]
fn an_emulator_is_killed_once() {
    let mut e = owned("", None);
    assert!(e.is_owned());
    assert_eq!(e.kill().unwrap(), Some(7));
    assert!(e.is_owned());
    assert_eq!(e.kill().unwrap(), None);
    assert_eq!(e.take_process(), None);
}

#[test]
fn an_emulator_of_somebody_else_is_not_killed() {
    let mut e = emulator("");
    match e.kill() {
        Err(EmulatorError::EmulatorKillFailed(m)) => assert_eq!(
            m,
            "kill() called on an emulator that is not owned by this instance"
        ),
        _ => panic!("killed"),
    }
    assert_eq!(e.take_process(), None);
}
