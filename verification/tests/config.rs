//! Configurations and the command lines they give.

use android_emulator::auth::{AllowlistEntry, GrpcAllowlist};
use android_emulator::config::{EmulatorConfig, GrpcAuthConfig, Launch, LaunchArg};
use android_emulator::time::Duration;

type Config = EmulatorConfig<&'static str>;

fn new() -> Config {
    EmulatorConfig::new("test".to_string())
}

fn args(launch: &Launch<&'static str>) -> Vec<String> {
    launch
        .args
        .iter()
        .map(|a| match a {
            LaunchArg::Text(t) => t.clone(),
            LaunchArg::AllowlistPath => "<allowlist>".to_string(),
        })
        .collect()
}

fn no_auth() -> Config {
    new().with_grpc_auth(GrpcAuthConfig::NoAuth)
}

#[test]
fn defaults_are_headless_with_jwt() {
    let launch = new().launch(8554);
    assert_eq!(
        args(&launch),
        [
            "-avd", "test", "-no-window", "-grpc", "8554", "-grpc-allowlist", "<allowlist>",
            "-grpc-use-jwt",
        ]
    );
    assert_eq!(launch.issuer.as_deref(), Some("emulator-8554"));
    assert_eq!(launch.grpc_port, 8554);
    let list = launch.allowlist.unwrap();
    assert_eq!(list.allowlist[1].iss, "emulator-8554");
    assert!(launch.stdout.is_none() && launch.stderr.is_none());
}

#[test]
fn every_flag_has_its_place() {
    let launch = no_auth()
        .with_snapshot_load(false)
        .with_snapshot_save(false)
        .with_acceleration(true)
        .with_boot_animation(false)
        .with_dalvik_vm_check_jni(true)
        .with_read_only(true)
        .with_quit_after_boot(Some(Duration::new(90, 999_999_999)))
        .with_extra_args(vec!["-verbose".to_string(), "-gpu".to_string(), "host".to_string()])
        .launch(65535);
    assert_eq!(
        args(&launch),
        [
            "-avd", "test", "-no-window", "-no-snapshot-load", "-no-snapshot-save", "-accel",
            "off", "-no-boot-anim", "-dalvik-vm-checkjni", "-read-only", "-quit-after-boot", "90",
            "-grpc", "65535", "-verbose", "-gpu", "host",
        ]
    );
    assert!(launch.issuer.is_none());
    assert!(launch.allowlist.is_none());
}

#[test]
fn flags_can_be_taken_back() {
    let launch = no_auth()
        .with_snapshot_load(false)
        .with_snapshot_load(true)
        .with_snapshot_save(false)
        .with_snapshot_save(true)
        .with_acceleration(true)
        .with_acceleration(false)
        .with_boot_animation(false)
        .with_boot_animation(true)
        .with_dalvik_vm_check_jni(true)
        .with_dalvik_vm_check_jni(false)
        .with_read_only(true)
        .with_read_only(false)
        .with_quit_after_boot(Some(Duration::from_secs(1)))
        .with_quit_after_boot(None)
        .with_window(true)
        .launch(1);
    assert_eq!(args(&launch), ["-avd", "test", "-grpc", "1"]);
}

#[test]
fn basic_auth_uses_the_console_token() {
    let launch = new().with_grpc_auth(GrpcAuthConfig::Basic).launch(8554);
    assert_eq!(args(&launch), ["-avd", "test", "-no-window", "-grpc", "8554", "-grpc-use-token"]);
    assert!(launch.issuer.is_none() && launch.allowlist.is_none());
}

#[test]
fn a_custom_issuer_and_allowlist_are_used() {
    let list = GrpcAllowlist {
        unprotected: vec![],
        allowlist: vec![AllowlistEntry {
            iss: "mytool".to_string(),
            allowed: vec!["/a/.*".to_string()],
            protected: vec!["/b/.*".to_string()],
        }],
    };
    let launch = new()
        .with_grpc_auth(GrpcAuthConfig::Jwt { issuer: Some("mytool".to_string()) })
        .with_grpc_allowlist(list)
        .launch(8555);
    assert_eq!(launch.issuer.as_deref(), Some("mytool"));
    let list = launch.allowlist.unwrap();
    assert_eq!(list.allowlist.len(), 1);
    assert_eq!(list.allowlist[0].protected, ["/b/.*"]);
}

#[test]
fn an_allowlist_needs_an_issuer() {
    let list = GrpcAllowlist::default_for_issuer("x");
    let launch = no_auth().with_grpc_allowlist(list).launch(8555);
    assert!(launch.allowlist.is_none());
}

#[test]
fn redirections_are_passed_on() {
    let launch = no_auth().stdout("out").stderr("err").launch(1);
    assert_eq!((launch.stdout, launch.stderr), (Some("out"), Some("err")));
}

#[test]
fn the_configuration_can_be_asked() {
    let config = new();
    assert_eq!(config.avd_id(), "test");
    assert_eq!(config.grpc_port(), None);
    assert_eq!(config.with_grpc_port(8556).grpc_port(), Some(8556));
    assert!(matches!(GrpcAuthConfig::default(), GrpcAuthConfig::Jwt { issuer: None }));
    assert!(matches!(GrpcAuthConfig::Basic.clone(), GrpcAuthConfig::Basic));
}
