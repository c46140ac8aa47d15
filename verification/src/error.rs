//! What can go wrong with an emulator.

use vstd::prelude::*;

use crate::auth::AuthError;

verus! {

/// An error of the library. The errors of a transport, of a remote call and of
/// input and output are carried as their texts.
#[derive(Debug)]
pub enum EmulatorError {
    AndroidHomeNotFound,
    NoAvdsFound,
    AdbError(String),
    EmulatorToolNotFound(String),
    InvalidUri(String),
    EnumerationFailed(String),
    EmulatorStartFailed(String),
    EmulatorKillFailed(String),
    ConnectionTimeout,
    AuthError(AuthError),
    GrpcError(String),
    GrpcStatus(String),
    IoError(String),
}

/// `prefix` and `rest` in one string.
pub(crate) fn joined(prefix: &str, rest: &str) -> (res: String)
    ensures
        res@ == prefix@ + rest@,
{
    let mut res = prefix.to_owned();
    res.append(rest);
    res
}

impl EmulatorError {
    /// What the error says.
    pub open spec fn spec_message(self) -> Seq<char> {
        match self {
            EmulatorError::AndroidHomeNotFound =>
                "Android SDK not found. Checked:\n  - ANDROID_HOME environment variable\n  - ANDROID_SDK_ROOT environment variable\n  - Platform default locations (e.g., ~/Android/sdk)\nPlease install the Android SDK or set ANDROID_HOME"@,
            EmulatorError::NoAvdsFound => "No emulator AVDs found"@,
            EmulatorError::AdbError(e) => "Failed to spawn or connect to ADB server: "@ + e@,
            EmulatorError::EmulatorToolNotFound(e) =>
                "Android SDK emulator tool not found at path: "@ + e@,
            EmulatorError::InvalidUri(e) => "Invalid gRPC endpoint URI: "@ + e@,
            EmulatorError::EnumerationFailed(e) => "Failed to enumerate running emulators: "@ + e@,
            EmulatorError::EmulatorStartFailed(e) => "Failed to start emulator: "@ + e@,
            EmulatorError::EmulatorKillFailed(e) => "Failed to kill emulator: "@ + e@,
            EmulatorError::ConnectionTimeout => "Emulator connection timed out"@,
            EmulatorError::AuthError(e) => "Authentication error: "@ + e.spec_message(),
            EmulatorError::GrpcError(e) => "gRPC connection error: "@ + e@,
            EmulatorError::GrpcStatus(e) => "gRPC status error: "@ + e@,
            EmulatorError::IoError(e) => "IO error: "@ + e@,
        }
    }

    /// What the error says.
    pub fn message(&self) -> (res: String)
        ensures
            res@ == self.spec_message(),
    {
        match self {
            EmulatorError::AndroidHomeNotFound =>
                "Android SDK not found. Checked:\n  - ANDROID_HOME environment variable\n  - ANDROID_SDK_ROOT environment variable\n  - Platform default locations (e.g., ~/Android/sdk)\nPlease install the Android SDK or set ANDROID_HOME".to_owned(),
            EmulatorError::NoAvdsFound => "No emulator AVDs found".to_owned(),
            EmulatorError::AdbError(e) => joined(
                "Failed to spawn or connect to ADB server: ",
                e.as_str(),
            ),
            EmulatorError::EmulatorToolNotFound(e) => joined(
                "Android SDK emulator tool not found at path: ",
                e.as_str(),
            ),
            EmulatorError::InvalidUri(e) => joined("Invalid gRPC endpoint URI: ", e.as_str()),
            EmulatorError::EnumerationFailed(e) => joined(
                "Failed to enumerate running emulators: ",
                e.as_str(),
            ),
            EmulatorError::EmulatorStartFailed(e) => joined("Failed to start emulator: ", e.as_str()),
            EmulatorError::EmulatorKillFailed(e) => joined("Failed to kill emulator: ", e.as_str()),
            EmulatorError::ConnectionTimeout => "Emulator connection timed out".to_owned(),
            EmulatorError::AuthError(e) => joined("Authentication error: ", e.message().as_str()),
            EmulatorError::GrpcError(e) => joined("gRPC connection error: ", e.as_str()),
            EmulatorError::GrpcStatus(e) => joined("gRPC status error: ", e.as_str()),
            EmulatorError::IoError(e) => joined("IO error: ", e.as_str()),
        }
    }
}

impl From<AuthError> for EmulatorError {
    fn from(e: AuthError) -> (res: EmulatorError) {
        EmulatorError::AuthError(e)
    }
}

impl vstd::std_specs::convert::FromSpecImpl<AuthError> for EmulatorError {
    open spec fn obeys_from_spec() -> bool {
        true
    }

    open spec fn from_spec(e: AuthError) -> EmulatorError {
        EmulatorError::AuthError(e)
    }
}

/// Work that is done in a task of its own.
#[derive(Clone, Copy, Debug, PartialEq, Eq, Structural)]
pub enum Task {
    /// Listing virtual devices, or waiting for an emulator to appear.
    Start,
    /// Listing running emulators.
    Enumerate,
    /// Reaching the ADB server.
    Adb,
    /// Registering a key.
    Register,
}

/// The error where a task did not run to its end.
pub fn join_failure(task: Task, e: &str) -> (res: EmulatorError)
    ensures
        match task {
            Task::Start => res matches EmulatorError::EmulatorStartFailed(m) && m@
                == "Task join error: "@ + e@,
            Task::Enumerate => res matches EmulatorError::EnumerationFailed(m) && m@
                == "Task join error: "@ + e@,
            Task::Adb => res matches EmulatorError::AdbError(m) && m@ == "Task join error: "@ + e@,
            Task::Register => res matches EmulatorError::EmulatorStartFailed(m) && m@
                == "Failure running task to register JWT token provider: "@ + e@,
        },
{
    match task {
        Task::Start => EmulatorError::EmulatorStartFailed(joined("Task join error: ", e)),
        Task::Enumerate => EmulatorError::EnumerationFailed(joined("Task join error: ", e)),
        Task::Adb => EmulatorError::AdbError(joined("Task join error: ", e)),
        Task::Register => EmulatorError::EmulatorStartFailed(
            joined("Failure running task to register JWT token provider: ", e),
        ),
    }
}

/// What an error says begins with what went wrong and ends with the reason that
/// it carries.
pub proof fn law_messages(e: EmulatorError, message: String)
    requires
        call_ensures(EmulatorError::message, (&e,), message),
    ensures
        e is AndroidHomeNotFound ==> message@
            == "Android SDK not found. Checked:\n  - ANDROID_HOME environment variable\n  - ANDROID_SDK_ROOT environment variable\n  - Platform default locations (e.g., ~/Android/sdk)\nPlease install the Android SDK or set ANDROID_HOME"@,
        e is NoAvdsFound ==> message@ == "No emulator AVDs found"@,
        e is ConnectionTimeout ==> message@ == "Emulator connection timed out"@,
        e matches EmulatorError::AdbError(why) ==> message@
            == "Failed to spawn or connect to ADB server: "@ + why@,
        e matches EmulatorError::EmulatorToolNotFound(path) ==> message@
            == "Android SDK emulator tool not found at path: "@ + path@,
        e matches EmulatorError::InvalidUri(why) ==> message@ == "Invalid gRPC endpoint URI: "@
            + why@,
        e matches EmulatorError::EnumerationFailed(why) ==> message@
            == "Failed to enumerate running emulators: "@ + why@,
        e matches EmulatorError::EmulatorStartFailed(why) ==> message@
            == "Failed to start emulator: "@ + why@,
        e matches EmulatorError::EmulatorKillFailed(why) ==> message@ == "Failed to kill emulator: "@
            + why@,
        e matches EmulatorError::AuthError(inner) ==> message@ == "Authentication error: "@
            + inner.spec_message(),
        e matches EmulatorError::GrpcError(why) ==> message@ == "gRPC connection error: "@ + why@,
        e matches EmulatorError::GrpcStatus(why) ==> message@ == "gRPC status error: "@ + why@,
        e matches EmulatorError::IoError(why) ==> message@ == "IO error: "@ + why@,
{
}

/// A task that did not run to its end is an error of what the task was for.
pub proof fn law_join_failures(task: Task, why: &str, e: EmulatorError)
    requires
        call_ensures(join_failure, (task, why), e),
    ensures
        task is Start ==> (e matches EmulatorError::EmulatorStartFailed(m) && m@
            == "Task join error: "@ + why@),
        task is Enumerate ==> (e matches EmulatorError::EnumerationFailed(m) && m@
            == "Task join error: "@ + why@),
        task is Adb ==> (e matches EmulatorError::AdbError(m) && m@ == "Task join error: "@ + why@),
        task is Register ==> (e matches EmulatorError::EmulatorStartFailed(m) && m@
            == "Failure running task to register JWT token provider: "@ + why@),
{
}

} // verus!
