//! What errors say.

use android_emulator::auth::AuthError;
use android_emulator::error::{join_failure, EmulatorError, Task};

#[test]
fn auth_errors_say_what_failed() {
    let io = || "disk full".to_string();
    let cases = [
        (AuthError::Unsupported("export_token".to_string()), "Unsupported operation: export_token"),
        (AuthError::FailedToGenerateKey, "Failed to generate key"),
        (AuthError::FailedToLoadKey, "Failed to load key"),
        (AuthError::FailedToCreateJwksDir(io()), "Failed to create JWKS directory"),
        (AuthError::FailedToSerializeJwks, "Failed to serialize JWKS"),
        (AuthError::FailedToWriteJwksFile(io()), "Failed to write JWKS file"),
        (AuthError::JwksRegistrationTimeout, "Timeout waiting for JWK registration"),
        (AuthError::Unspecified, "Unspecified signing error"),
    ];
    for (e, text) in cases {
        assert_eq!(e.message(), text);
    }
}

#[test]
fn emulator_errors_say_what_failed() {
    let e = || "why".to_string();
    let cases = [
        (EmulatorError::NoAvdsFound, "No emulator AVDs found"),
        (EmulatorError::AdbError(e()), "Failed to spawn or connect to ADB server: why"),
        (
            EmulatorError::EmulatorToolNotFound(e()),
            "Android SDK emulator tool not found at path: why",
        ),
        (EmulatorError::InvalidUri(e()), "Invalid gRPC endpoint URI: why"),
        (EmulatorError::EnumerationFailed(e()), "Failed to enumerate running emulators: why"),
        (EmulatorError::EmulatorStartFailed(e()), "Failed to start emulator: why"),
        (EmulatorError::EmulatorKillFailed(e()), "Failed to kill emulator: why"),
        (EmulatorError::ConnectionTimeout, "Emulator connection timed out"),
        (
            EmulatorError::AuthError(AuthError::FailedToLoadKey),
            "Authentication error: Failed to load key",
        ),
        (EmulatorError::GrpcError(e()), "gRPC connection error: why"),
        (EmulatorError::GrpcStatus(e()), "gRPC status error: why"),
        (EmulatorError::IoError(e()), "IO error: why"),
    ];
    for (e, text) in cases {
        assert_eq!(e.message(), text);
    }
    assert_eq!(
        EmulatorError::AndroidHomeNotFound.message(),
        "Android SDK not found. Checked:\n  - ANDROID_HOME environment variable\n  - ANDROID_SDK_ROOT environment variable\n  - Platform default locations (e.g., ~/Android/sdk)\nPlease install the Android SDK or set ANDROID_HOME"
    );
}

#[test]
fn auth_errors_become_emulator_errors() {
    let e = EmulatorError::from(AuthError::JwksRegistrationTimeout);
    assert!(matches!(e, EmulatorError::AuthError(AuthError::JwksRegistrationTimeout)));
}

#[test]
fn tasks_that_do_not_end_are_reported() {
    assert_eq!(
        join_failure(Task::Start, "panic").message(),
        "Failed to start emulator: Task join error: panic"
    );
    assert_eq!(
        join_failure(Task::Enumerate, "panic").message(),
        "Failed to enumerate running emulators: Task join error: panic"
    );
    assert_eq!(
        join_failure(Task::Adb, "panic").message(),
        "Failed to spawn or connect to ADB server: Task join error: panic"
    );
    assert_eq!(
        join_failure(Task::Register, "panic").message(),
        "Failed to start emulator: Failure running task to register JWT token provider: panic"
    );
}
