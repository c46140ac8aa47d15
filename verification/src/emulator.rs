//! A running emulator: what it says of itself, and how to connect to it.

use std::path::PathBuf;
use vstd::hash_map::StringHashMap;
use vstd::prelude::*;

use crate::auth::{AuthProvider, Provider};
use crate::error::EmulatorError;
use crate::ini;
use crate::text::{self, decimal_of, parse_u16_of};
use crate::time::Duration;

verus! {

/// How long to sleep between two attempts to connect.
pub const CONNECT_RETRY_SECS: u64 = 1;

/// How long to wait until the emulator has activated a key.
pub const ACTIVATION_TIMEOUT_SECS: u64 = 10;

/// The issuer of the tokens for an emulator that was not started here.
pub const DEFAULT_ISSUER: &'static str = "android-studio";

/// Handle to a running emulator instance
///
/// This can represent an emulator that was spawned here, whose process is a
/// `P`, or an already-running emulator that was discovered.
pub struct Emulator<P> {
    owned_process: Option<Option<P>>,
    serial: String,
    grpc_port: u16,
    discovery_path: PathBuf,
    metadata: StringHashMap<String>,
    issuer: Option<String>,
}

/// What is known of an emulator.
pub ghost struct EmulatorView<P> {
    /// - `None` for discovered emulators (not owned)
    /// - `Some(Some(_))` for owned emulators with live process
    /// - `Some(None)` for owned emulators where process has been killed
    pub owned_process: Option<Option<P>>,
    pub serial: Seq<char>,
    pub grpc_port: u16,
    /// Path to the discovery .ini file
    pub discovery_path: PathBuf,
    /// Runtime metadata from the emulator's discovery .ini file
    pub metadata: Map<Seq<char>, Seq<char>>,
    /// Issuer identifier for JWT authentication (if spawned with custom issuer)
    pub issuer: Option<Seq<char>>,
}

/// The characters of the string, if there is one.
pub open spec fn opt_view(s: Option<String>) -> Option<Seq<char>> {
    match s {
        Some(s) => Some(s@),
        None => None,
    }
}

impl<P> View for Emulator<P> {
    type V = EmulatorView<P>;

    closed spec fn view(&self) -> EmulatorView<P> {
        EmulatorView {
            owned_process: self.owned_process,
            serial: self.serial@,
            grpc_port: self.grpc_port,
            discovery_path: self.discovery_path,
            metadata: ini::values(self.metadata@),
            issuer: opt_view(self.issuer),
        }
    }
}

impl<P> EmulatorView<P> {
    /// The value of a metadata property.
    pub open spec fn get(self, key: Seq<char>) -> Option<Seq<char>> {
        if self.metadata.contains_key(key) {
            Some(self.metadata[key])
        } else {
            None
        }
    }

    /// The gRPC endpoint URL.
    pub open spec fn endpoint(self) -> Seq<char> {
        "http://localhost:"@ + text::decimal(self.grpc_port as nat)
    }

    /// The value of a metadata property, read as a port.
    pub open spec fn get_port(self, key: Seq<char>) -> Option<u16> {
        match self.get(key) {
            Some(value) => text::parse_u16(value),
            None => None,
        }
    }
}

/// Whether `res` is a string with the characters `text`, if there are any.
pub open spec fn is_text(res: Option<&str>, text: Option<Seq<char>>) -> bool {
    match res {
        Some(s) => text == Some(s@),
        None => text is None,
    }
}

impl<P> Emulator<P> {
    /// An emulator that was found running.
    pub fn discovered(
        serial: String,
        grpc_port: u16,
        metadata: StringHashMap<String>,
        discovery_path: PathBuf,
    ) -> (res: Self)
        ensures
            res@ == (EmulatorView::<P> {
                owned_process: None,
                serial: serial@,
                grpc_port,
                discovery_path,
                metadata: ini::values(metadata@),
                issuer: None,
            }),
    {
        Emulator { owned_process: None, serial, grpc_port, discovery_path, metadata, issuer: None }
    }

    /// An emulator that was started here.
    pub fn spawned(
        process: P,
        serial: String,
        grpc_port: u16,
        metadata: StringHashMap<String>,
        discovery_path: PathBuf,
        issuer: Option<String>,
    ) -> (res: Self)
        ensures
            res@ == (EmulatorView::<P> {
                owned_process: Some(Some(process)),
                serial: serial@,
                grpc_port,
                discovery_path,
                metadata: ini::values(metadata@),
                issuer: opt_view(issuer),
            }),
    {
        Emulator {
            owned_process: Some(Some(process)),
            serial,
            grpc_port,
            discovery_path,
            metadata,
            issuer,
        }
    }

    /// Get the serial number of this emulator
    pub fn serial(&self) -> (res: &str)
        ensures
            res@ == self@.serial,
    {
        self.serial.as_str()
    }

    /// Check if this instance represents an emulator we spawned
    pub fn is_owned(&self) -> (res: bool)
        ensures
            res == self@.owned_process is Some,
    {
        self.owned_process.is_some()
    }

    pub fn discovery_path(&self) -> (res: &PathBuf)
        ensures
            *res == self@.discovery_path,
    {
        &self.discovery_path
    }

    /// Get a reference to all emulator metadata from the runtime .ini file
    pub fn metadata(&self) -> (res: &StringHashMap<String>)
        ensures
            ini::values(res@) == self@.metadata,
    {
        &self.metadata
    }

    /// Get a specific metadata property value
    pub fn get_metadata(&self, key: &str) -> (res: Option<&str>)
        ensures
            is_text(res, self@.get(key@)),
    {
        match self.metadata.get(key) {
            Some(value) => Some(value.as_str()),
            None => None,
        }
    }

    /// Check if this emulator requires JWT authentication
    pub fn requires_jwt_auth(&self) -> (res: bool)
        ensures
            res == self@.metadata.contains_key("grpc.jwk_active"@),
    {
        self.get_metadata("grpc.jwk_active").is_some()
    }

    /// Get the AVD name
    pub fn avd_name(&self) -> (res: Option<&str>)
        ensures
            is_text(res, self@.get("avd.name"@)),
    {
        self.get_metadata("avd.name")
    }

    /// Get the AVD ID
    pub fn avd_id(&self) -> (res: Option<&str>)
        ensures
            is_text(res, self@.get("avd.id"@)),
    {
        self.get_metadata("avd.id")
    }

    /// Get the AVD directory path
    pub fn avd_dir(&self) -> (res: Option<&str>)
        ensures
            is_text(res, self@.get("avd.dir"@)),
    {
        self.get_metadata("avd.dir")
    }

    /// Get the emulator version
    pub fn emulator_version(&self) -> (res: Option<&str>)
        ensures
            is_text(res, self@.get("emulator.version"@)),
    {
        self.get_metadata("emulator.version")
    }

    /// Get the emulator build ID
    pub fn emulator_build(&self) -> (res: Option<&str>)
        ensures
            is_text(res, self@.get("emulator.build"@)),
    {
        self.get_metadata("emulator.build")
    }

    /// Get the serial port number
    pub fn port_serial(&self) -> (res: Option<u16>)
        ensures
            res == self@.get_port("port.serial"@),
    {
        match self.get_metadata("port.serial") {
            Some(value) => parse_u16_of(value),
            None => None,
        }
    }

    /// Get the ADB port number
    pub fn port_adb(&self) -> (res: Option<u16>)
        ensures
            res == self@.get_port("port.adb"@),
    {
        match self.get_metadata("port.adb") {
            Some(value) => parse_u16_of(value),
            None => None,
        }
    }

    /// Get the command line used to launch the emulator
    pub fn cmdline(&self) -> (res: Option<&str>)
        ensures
            is_text(res, self@.get("cmdline"@)),
    {
        self.get_metadata("cmdline")
    }

    /// Get the gRPC endpoint URL for this emulator
    pub fn grpc_endpoint(&self) -> (res: String)
        ensures
            res@ == self@.endpoint(),
    {
        let mut res = "http://localhost:".to_owned();
        res.append(decimal_of(self.grpc_port as u64).as_str());
        res
    }

    /// Get the gRPC port
    pub fn grpc_port(&self) -> (res: u16)
        ensures
            res == self@.grpc_port,
    {
        self.grpc_port
    }
}

/// Where an attempt to connect stands.
#[derive(Clone, Copy, Debug, PartialEq, Eq, Structural)]
pub enum ConnectState {
    /// A key is being registered with the emulator.
    Registering,
    /// Connections with tokens of the registered key are tried.
    TryingJwt,
    /// Connections with the console token, or without one, are tried.
    Trying,
    /// There is nothing left to do.
    Ended,
}

/// What became of the last action.
pub enum ConnectEvent {
    /// The key is registered and active.
    KeyReady,
    KeyFailed(EmulatorError),
    /// The connection stands and a call over it succeeded.
    Connected,
    /// There is no connection. `elapsed` is the time since the first attempt
    /// with the present provider.
    NotConnected { elapsed: Duration },
}

/// What to do next.
pub enum ConnectAction {
    /// Make a key for `issuer`, register it in `jwks_dir` and wait until it is
    /// active.
    RegisterKey { jwks_dir: String, issuer: String },
    /// Try to connect with tokens of the registered key.
    Attempt,
    /// From now on use this provider; try to connect with it.
    Switch(AuthProvider),
    /// Sleep for the retry interval, then try to connect again.
    Sleep,
    /// The attempt is over.
    Done(Result<(), EmulatorError>),
}

/// Whether the action is to connect with `token`.
pub open spec fn switches_to_bearer(action: ConnectAction, token: Seq<char>) -> bool {
    action matches ConnectAction::Switch(auth) && (auth.source() matches Provider::Bearer(p) && p@
        == token)
}

/// Whether the action is to connect without a token.
pub open spec fn switches_to_no_auth(action: ConnectAction) -> bool {
    action matches ConnectAction::Switch(auth) && auth.source() is NoOp
}

/// Whether the time allowed, if it is limited, has passed.
pub open spec fn timed_out(elapsed: Duration, timeout: Option<Duration>) -> bool {
    timeout matches Some(limit) && elapsed@ > limit@
}

impl<P> EmulatorView<P> {
    /// The console token, where it can and may be used.
    pub open spec fn basic_token(self, allow_basic_auth: bool) -> Option<Seq<char>> {
        if allow_basic_auth {
            self.get("grpc.token"@)
        } else {
            None
        }
    }

    /// What follows where no connection with tokens of a key can be had: the
    /// console token is tried, where that is allowed.
    pub open spec fn falls_back(
        self,
        allow_basic_auth: bool,
        state: ConnectState,
        action: ConnectAction,
    ) -> bool {
        self.basic_token(allow_basic_auth) matches Some(token) && state is Trying
            && switches_to_bearer(action, token)
    }

    /// How connecting starts.
    pub open spec fn connect_starts(
        self,
        allow_basic_auth: bool,
        state: ConnectState,
        action: ConnectAction,
    ) -> bool {
        if self.metadata.contains_key("grpc.jwk_active"@) {
            match self.get("grpc.jwks"@) {
                Some(dir) => state is Registering && (action matches ConnectAction::RegisterKey {
                    jwks_dir,
                    issuer,
                } && jwks_dir@ == dir && issuer@ == (match self.issuer {
                    Some(issuer) => issuer,
                    None => DEFAULT_ISSUER@,
                })),
                None => if self.basic_token(allow_basic_auth) is Some {
                    self.falls_back(allow_basic_auth, state, action)
                } else {
                    state is Ended && (action matches ConnectAction::Done(Err(
                        EmulatorError::EmulatorStartFailed(m),
                    )) && m@
                        == "Emulator requires JWT auth but grpc.jwks path not found in metadata"@)
                },
            }
        } else {
            match self.basic_token(allow_basic_auth) {
                Some(token) => state is Trying && switches_to_bearer(action, token),
                None => state is Trying && switches_to_no_auth(action),
            }
        }
    }

    /// How connecting goes on.
    pub open spec fn connect_goes_on(
        self,
        allow_basic_auth: bool,
        timeout: Option<Duration>,
        before: ConnectState,
        event: ConnectEvent,
        state: ConnectState,
        action: ConnectAction,
    ) -> bool {
        match event {
            ConnectEvent::KeyReady => state is TryingJwt && action is Attempt,
            ConnectEvent::KeyFailed(e) => if self.basic_token(allow_basic_auth) is Some {
                self.falls_back(allow_basic_auth, state, action)
            } else {
                state is Ended && action == ConnectAction::Done(Err(e))
            },
            ConnectEvent::Connected => state is Ended && action == ConnectAction::Done(Ok(())),
            ConnectEvent::NotConnected { elapsed } => if !timed_out(elapsed, timeout) {
                state == before && action is Sleep
            } else if before is TryingJwt && self.basic_token(allow_basic_auth) is Some {
                self.falls_back(allow_basic_auth, state, action)
            } else {
                state is Ended && action == ConnectAction::Done(
                    Err(EmulatorError::ConnectionTimeout),
                )
            },
        }
    }
}

/// Whether the event can come in the state.
pub open spec fn connect_expects(state: ConnectState, event: ConnectEvent) -> bool {
    match event {
        ConnectEvent::KeyReady | ConnectEvent::KeyFailed(_) => state is Registering,
        ConnectEvent::Connected | ConnectEvent::NotConnected { .. } => state is TryingJwt || state
            is Trying,
    }
}

impl<P> Emulator<P> {
    fn basic_token(&self, allow_basic_auth: bool) -> (res: Option<&str>)
        ensures
            is_text(res, self@.basic_token(allow_basic_auth)),
    {
        if allow_basic_auth {
            self.get_metadata("grpc.token")
        } else {
            None
        }
    }

    /// What follows a failure with tokens of a key.
    fn fall_back(&self, allow_basic_auth: bool, err: EmulatorError) -> (res: (
        ConnectState,
        ConnectAction,
    ))
        ensures
            if self@.basic_token(allow_basic_auth) is Some {
                self@.falls_back(allow_basic_auth, res.0, res.1)
            } else {
                res.0 is Ended && res.1 == ConnectAction::Done(Err(err))
            },
    {
        match self.basic_token(allow_basic_auth) {
            Some(token) => (
                ConnectState::Trying,
                ConnectAction::Switch(AuthProvider::new_bearer(token.to_owned())),
            ),
            None => (ConnectState::Ended, ConnectAction::Done(Err(err))),
        }
    }

    /// Connect to the emulator's gRPC controller: how to start
    ///
    /// An emulator that lists active keys is connected to with tokens of a key
    /// of our own. The console token comes second, where `allow_basic_auth`
    /// admits it.
    pub fn connect(&self, allow_basic_auth: bool) -> (res: (ConnectState, ConnectAction))
        ensures
            self@.connect_starts(allow_basic_auth, res.0, res.1),
    {
        if self.requires_jwt_auth() {
            match self.get_metadata("grpc.jwks") {
                Some(dir) => {
                    let issuer = match &self.issuer {
                        Some(issuer) => issuer.clone(),
                        None => DEFAULT_ISSUER.to_owned(),
                    };
                    let jwks_dir = dir.to_owned();
                    (ConnectState::Registering, ConnectAction::RegisterKey { jwks_dir, issuer })
                },
                None => self.fall_back(
                    allow_basic_auth,
                    EmulatorError::EmulatorStartFailed(
                        "Emulator requires JWT auth but grpc.jwks path not found in metadata".to_owned(),
                    ),
                ),
            }
        } else {
            let auth = match self.basic_token(allow_basic_auth) {
                Some(token) => AuthProvider::new_bearer(token.to_owned()),
                None => AuthProvider::new_no_auth(),
            };
            (ConnectState::Trying, ConnectAction::Switch(auth))
        }
    }

    /// Connect to the emulator's gRPC controller: how to go on
    ///
    /// Failed attempts are repeated until `timeout` has passed, or for ever if
    /// it is `None`. The timeout is looked at only after an attempt.
    pub fn connect_step(
        &self,
        state: ConnectState,
        event: ConnectEvent,
        timeout: Option<Duration>,
        allow_basic_auth: bool,
    ) -> (res: (ConnectState, ConnectAction))
        requires
            connect_expects(state, event),
        ensures
            self@.connect_goes_on(allow_basic_auth, timeout, state, event, res.0, res.1),
    {
        match event {
            ConnectEvent::KeyReady => (ConnectState::TryingJwt, ConnectAction::Attempt),
            ConnectEvent::KeyFailed(e) => self.fall_back(allow_basic_auth, e),
            ConnectEvent::Connected => (ConnectState::Ended, ConnectAction::Done(Ok(()))),
            ConnectEvent::NotConnected { elapsed } => {
                let late = match &timeout {
                    Some(limit) => elapsed.exceeds(limit),
                    None => false,
                };
                if !late {
                    (state, ConnectAction::Sleep)
                } else {
                    match state {
                        ConnectState::TryingJwt => self.fall_back(
                            allow_basic_auth,
                            EmulatorError::ConnectionTimeout,
                        ),
                        _ => (
                            ConnectState::Ended,
                            ConnectAction::Done(Err(EmulatorError::ConnectionTimeout)),
                        ),
                    }
                }
            },
        }
    }

    /// The process of an emulator that was started here, if it has not been
    /// taken before.
    pub fn take_process(&mut self) -> (res: Option<P>)
        ensures
            match old(self)@.owned_process {
                Some(Some(process)) => res == Some(process) && final(self)@ == (EmulatorView {
                    owned_process: Some(None),
                    ..old(self)@
                }),
                _ => res is None && final(self)@ == old(self)@,
            },
    {
        match &mut self.owned_process {
            Some(owned) => owned.take(),
            None => None,
        }
    }

    /// Kill the emulator: the process to kill, if it is still to be killed
    ///
    /// If this instance was discovered, this returns an error as we don't own
    /// the process. To kill a discovered emulator, use ADB commands directly.
    pub fn kill(&mut self) -> (res: Result<Option<P>, EmulatorError>)
        ensures
            kill_step(old(self)@, final(self)@, res),
    {
        if !self.is_owned() {
            return Err(
                EmulatorError::EmulatorKillFailed(
                    "kill() called on an emulator that is not owned by this instance".to_owned(),
                ),
            );
        }
        Ok(self.take_process())
    }
}

/// What a request to kill does.
pub open spec fn kill_step<P>(
    pre: EmulatorView<P>,
    post: EmulatorView<P>,
    res: Result<Option<P>, EmulatorError>,
) -> bool {
    match pre.owned_process {
        None => post == pre && (res matches Err(EmulatorError::EmulatorKillFailed(m)) && m@
            == "kill() called on an emulator that is not owned by this instance"@),
        Some(None) => post == pre && res == Ok::<Option<P>, EmulatorError>(None),
        Some(Some(process)) => res == Ok::<Option<P>, EmulatorError>(Some(process)) && post == (
        EmulatorView { owned_process: Some(None), ..pre }),
    }
}

/// A process is killed at most once: after a request to kill it there is none
/// left to kill, and the emulator stays what it was.
pub proof fn law_killed_once<P>(
    first: EmulatorView<P>,
    second: EmulatorView<P>,
    third: EmulatorView<P>,
    res1: Result<Option<P>, EmulatorError>,
    res2: Result<Option<P>, EmulatorError>,
)
    requires
        first.owned_process is Some,
        kill_step(first, second, res1),
        kill_step(second, third, res2),
    ensures
        res2 == Ok::<Option<P>, EmulatorError>(None),
        third == second,
        second.owned_process is Some,
{
}

/// An emulator that requires tokens of a key is never connected to without a
/// token, whatever fails.
pub proof fn law_never_without_required_auth<P>(
    v: EmulatorView<P>,
    allow_basic_auth: bool,
    timeout: Option<Duration>,
    before: ConnectState,
    event: ConnectEvent,
    state: ConnectState,
    action: ConnectAction,
)
    requires
        (v.metadata.contains_key("grpc.jwk_active"@) && v.connect_starts(
            allow_basic_auth,
            state,
            action,
        )) || v.connect_goes_on(allow_basic_auth, timeout, before, event, state, action),
    ensures
        !switches_to_no_auth(action),
{
}

/// The console token is used only where that is allowed.
pub proof fn law_console_token_only_if_allowed<P>(
    v: EmulatorView<P>,
    timeout: Option<Duration>,
    before: ConnectState,
    event: ConnectEvent,
    state: ConnectState,
    action: ConnectAction,
    token: Seq<char>,
)
    requires
        v.connect_starts(false, state, action) || v.connect_goes_on(
            false,
            timeout,
            before,
            event,
            state,
            action,
        ),
    ensures
        !switches_to_bearer(action, token),
{
}

/// Apart from the failures of a key, connecting times out only after an attempt
/// that took too long, and never where the time is not limited.
pub proof fn law_timeout_only_after_an_attempt<P>(
    v: EmulatorView<P>,
    allow_basic_auth: bool,
    timeout: Option<Duration>,
    before: ConnectState,
    event: ConnectEvent,
    state: ConnectState,
    action: ConnectAction,
)
    requires
        event !is KeyFailed,
        v.connect_starts(allow_basic_auth, state, action) || v.connect_goes_on(
            allow_basic_auth,
            timeout,
            before,
            event,
            state,
            action,
        ),
        action == ConnectAction::Done(Err(EmulatorError::ConnectionTimeout)),
    ensures
        event matches ConnectEvent::NotConnected { elapsed } && timed_out(elapsed, timeout),
        timeout is Some,
{
}

/// Once the console token or no token is tried there is no further fallback:
/// the attempt is repeated or over.
pub proof fn law_one_fallback<P>(
    v: EmulatorView<P>,
    allow_basic_auth: bool,
    timeout: Option<Duration>,
    event: ConnectEvent,
    state: ConnectState,
    action: ConnectAction,
)
    requires
        connect_expects(ConnectState::Trying, event),
        v.connect_goes_on(allow_basic_auth, timeout, ConnectState::Trying, event, state, action),
    ensures
        action is Sleep && state is Trying || action is Done && state is Ended,
{
}

/// Connecting is over when and only when nothing is left to do, and it
/// succeeds only on a connection.
pub proof fn law_connect_ends<P>(
    v: EmulatorView<P>,
    allow_basic_auth: bool,
    timeout: Option<Duration>,
    before: ConnectState,
    event: ConnectEvent,
    state: ConnectState,
    action: ConnectAction,
)
    requires
        connect_expects(before, event),
        v.connect_goes_on(allow_basic_auth, timeout, before, event, state, action),
    ensures
        state is Ended <==> action is Done,
        action == ConnectAction::Done(Ok(())) <==> event is Connected,
{
}

/// A failed attempt to connect is repeated, in the same way and after a second,
/// as long as the time since the first attempt is not above the time allowed,
/// whatever that is, and for ever where it is not limited. Once the time is
/// above it, and only then, the attempt is over; from tokens of a key it then
/// goes on with the console token where that may be used.
pub proof fn law_attempts_until_timeout<P>(
    e: Emulator<P>,
    before: ConnectState,
    elapsed: Duration,
    timeout: Option<Duration>,
    allow_basic_auth: bool,
    res: (ConnectState, ConnectAction),
)
    requires
        before is TryingJwt || before is Trying,
        call_ensures(
            Emulator::<P>::connect_step,
            (&e, before, ConnectEvent::NotConnected { elapsed }, timeout, allow_basic_auth),
            res,
        ),
    ensures
        CONNECT_RETRY_SECS == 1,
        timeout is None ==> res.1 is Sleep && res.0 == before,
        timeout matches Some(limit) ==> {
            &&& elapsed@ <= limit@ <==> res.1 is Sleep
            &&& elapsed@ <= limit@ ==> res.0 == before
            &&& elapsed@ > limit@ ==> if before is TryingJwt && allow_basic_auth
                && e@.metadata.contains_key("grpc.token"@) {
                &&& res.0 is Trying
                &&& res.1 matches ConnectAction::Switch(auth)
                &&& auth.source() matches Provider::Bearer(p)
                &&& p@ == e@.metadata["grpc.token"@]
            } else {
                &&& res.0 is Ended
                &&& res.1 == ConnectAction::Done(Err(EmulatorError::ConnectionTimeout))
            }
        },
{
}

/// How connecting begins is told by what the emulator says of itself. One that
/// lists active keys is connected to with tokens of a key that is registered in
/// the directory that it names, for the issuer that it was started with, else
/// for `android-studio`. Where it names no directory, the console token is all
/// that is left. One that lists no keys is connected to with the console token
/// where it names one that may be used, else without a token.
pub proof fn law_connect_begins<P>(
    e: Emulator<P>,
    allow_basic_auth: bool,
    res: (ConnectState, ConnectAction),
)
    requires
        call_ensures(Emulator::<P>::connect, (&e, allow_basic_auth), res),
    ensures
        e@.metadata.contains_key("grpc.jwk_active"@) && e@.metadata.contains_key("grpc.jwks"@) ==> {
            &&& res.0 is Registering
            &&& res.1 matches ConnectAction::RegisterKey { jwks_dir, issuer }
            &&& jwks_dir@ == e@.metadata["grpc.jwks"@]
            &&& e@.issuer matches Some(given) ==> issuer@ == given
            &&& e@.issuer is None ==> issuer@ == "android-studio"@
        },
        !(e@.metadata.contains_key("grpc.jwk_active"@) && e@.metadata.contains_key("grpc.jwks"@))
            && allow_basic_auth && e@.metadata.contains_key("grpc.token"@) ==> {
            &&& res.0 is Trying
            &&& res.1 matches ConnectAction::Switch(auth)
            &&& auth.source() matches Provider::Bearer(p)
            &&& p@ == e@.metadata["grpc.token"@]
        },
        e@.metadata.contains_key("grpc.jwk_active"@) && !e@.metadata.contains_key("grpc.jwks"@)
            && !(allow_basic_auth && e@.metadata.contains_key("grpc.token"@)) ==> {
            &&& res.0 is Ended
            &&& res.1 matches ConnectAction::Done(Err(EmulatorError::EmulatorStartFailed(m)))
            &&& m@ == "Emulator requires JWT auth but grpc.jwks path not found in metadata"@
        },
        !e@.metadata.contains_key("grpc.jwk_active"@) && !(allow_basic_auth
            && e@.metadata.contains_key("grpc.token"@)) ==> {
            &&& res.0 is Trying
            &&& res.1 matches ConnectAction::Switch(auth)
            &&& auth.source() is NoOp
        },
{
}

/// Once the key is active, for which ten seconds are allowed, a connection is
/// tried with its tokens. A key that fails is followed by the console token,
/// where the emulator names one that may be used; else the failure is the end.
/// A connection that stands is the end too.
pub proof fn law_connect_after_key<P>(
    e: Emulator<P>,
    before: ConnectState,
    event: ConnectEvent,
    timeout: Option<Duration>,
    allow_basic_auth: bool,
    res: (ConnectState, ConnectAction),
)
    requires
        call_ensures(
            Emulator::<P>::connect_step,
            (&e, before, event, timeout, allow_basic_auth),
            res,
        ),
    ensures
        ACTIVATION_TIMEOUT_SECS == 10,
        event is KeyReady ==> res.0 is TryingJwt && res.1 is Attempt,
        event is Connected ==> res.0 is Ended && res.1 == ConnectAction::Done(Ok(())),
        event matches ConnectEvent::KeyFailed(err) ==> if allow_basic_auth
            && e@.metadata.contains_key("grpc.token"@) {
            &&& res.0 is Trying
            &&& res.1 matches ConnectAction::Switch(auth)
            &&& auth.source() matches Provider::Bearer(p)
            &&& p@ == e@.metadata["grpc.token"@]
        } else {
            res.0 is Ended && res.1 == ConnectAction::Done(Err(err))
        },
{
}

/// Whether `value` is what the metadata has under `key`, if it has anything.
pub open spec fn reads(
    metadata: Map<Seq<char>, Seq<char>>,
    key: Seq<char>,
    value: Option<&str>,
) -> bool {
    &&& value is Some <==> metadata.contains_key(key)
    &&& value matches Some(v) ==> v@ == metadata[key]
}

/// Whether `port` is what the metadata has under `key`, if that is a number
/// that fits.
pub open spec fn reads_port(
    metadata: Map<Seq<char>, Seq<char>>,
    key: Seq<char>,
    port: Option<u16>,
) -> bool {
    if metadata.contains_key(key) {
        port == text::parse_u16(metadata[key])
    } else {
        port is None
    }
}

/// Each property of an emulator is what its metadata has under the key of that
/// property, and nothing where it has nothing.
pub proof fn law_properties<P>(
    e: Emulator<P>,
    key: &str,
    value: Option<&str>,
    port: Option<u16>,
    required: bool,
)
    ensures
        call_ensures(Emulator::<P>::get_metadata, (&e, key), value) ==> reads(
            e@.metadata,
            key@,
            value,
        ),
        call_ensures(Emulator::<P>::avd_name, (&e,), value) ==> reads(
            e@.metadata,
            "avd.name"@,
            value,
        ),
        call_ensures(Emulator::<P>::avd_id, (&e,), value) ==> reads(e@.metadata, "avd.id"@, value),
        call_ensures(Emulator::<P>::avd_dir, (&e,), value) ==> reads(e@.metadata, "avd.dir"@, value),
        call_ensures(Emulator::<P>::emulator_version, (&e,), value) ==> reads(
            e@.metadata,
            "emulator.version"@,
            value,
        ),
        call_ensures(Emulator::<P>::emulator_build, (&e,), value) ==> reads(
            e@.metadata,
            "emulator.build"@,
            value,
        ),
        call_ensures(Emulator::<P>::cmdline, (&e,), value) ==> reads(e@.metadata, "cmdline"@, value),
        call_ensures(Emulator::<P>::port_serial, (&e,), port) ==> reads_port(
            e@.metadata,
            "port.serial"@,
            port,
        ),
        call_ensures(Emulator::<P>::port_adb, (&e,), port) ==> reads_port(
            e@.metadata,
            "port.adb"@,
            port,
        ),
        call_ensures(Emulator::<P>::requires_jwt_auth, (&e,), required) ==> (required
            <==> e@.metadata.contains_key("grpc.jwk_active"@)),
{
}

/// The endpoint of an emulator is the local machine, at the port of the
/// emulator: the digits behind the last colon are read back as that port.
pub proof fn law_endpoint_names_port<P>(e: Emulator<P>, endpoint: String, port: u16)
    requires
        call_ensures(Emulator::<P>::grpc_endpoint, (&e,), endpoint),
        call_ensures(Emulator::<P>::grpc_port, (&e,), port),
    ensures
        port == e@.grpc_port,
        endpoint@.take("http://localhost:"@.len() as int) == "http://localhost:"@,
        text::parse_u16(endpoint@.skip("http://localhost:"@.len() as int)) == Some(port),
        endpoint@ == "http://localhost:"@ + text::decimal(port as nat),
{
    let prefix = "http://localhost:"@;
    text::law_port_round_trip(port);
    assert(endpoint@.take(prefix.len() as int) =~= prefix);
    assert(endpoint@.skip(prefix.len() as int) =~= text::decimal(port as nat));
}

/// An emulator that was found belongs to somebody else and has no issuer of
/// its own; one that was started is owned, with the process and the issuer
/// that it was started with. Both are otherwise what was said of them.
pub proof fn law_found_or_started<P>(
    process: P,
    serial: String,
    grpc_port: u16,
    metadata: StringHashMap<String>,
    discovery_path: PathBuf,
    issuer: Option<String>,
    e: Emulator<P>,
    owned: bool,
)
    requires
        call_ensures(Emulator::<P>::is_owned, (&e,), owned),
    ensures
        call_ensures(
            Emulator::<P>::discovered,
            (serial, grpc_port, metadata, discovery_path),
            e,
        ) ==> !owned && e@.owned_process is None && e@.issuer is None,
        call_ensures(
            Emulator::<P>::spawned,
            (process, serial, grpc_port, metadata, discovery_path, issuer),
            e,
        ) ==> {
            &&& owned
            &&& e@.owned_process == Some(Some(process))
            &&& issuer matches Some(i) ==> e@.issuer == Some(i@)
            &&& issuer is None ==> e@.issuer is None
        },
        call_ensures(
            Emulator::<P>::discovered,
            (serial, grpc_port, metadata, discovery_path),
            e,
        ) || call_ensures(
            Emulator::<P>::spawned,
            (process, serial, grpc_port, metadata, discovery_path, issuer),
            e,
        ) ==> {
            &&& e@.serial == serial@
            &&& e@.grpc_port == grpc_port
            &&& e@.discovery_path == discovery_path
            &&& e@.metadata.dom() == metadata@.dom()
            &&& forall|k: Seq<char>| #[trigger]
                metadata@.contains_key(k) ==> e@.metadata[k] == metadata@[k]@
        },
{
    assert(ini::values(metadata@).dom() =~= metadata@.dom());
}

/// A request to kill hands out the process of an emulator that was started
/// here and still has it, and changes nothing else. Without a process there is
/// nothing to hand out, and an emulator of somebody else is not killed.
pub proof fn law_kill_hands_out_the_process<P>(
    pre: EmulatorView<P>,
    post: EmulatorView<P>,
    res: Result<Option<P>, EmulatorError>,
)
    requires
        kill_step(pre, post, res),
    ensures
        pre.owned_process is None <==> res is Err,
        res matches Err(e) ==> (e matches EmulatorError::EmulatorKillFailed(m) && m@
            == "kill() called on an emulator that is not owned by this instance"@),
        res matches Ok(process) ==> pre.owned_process == Some(process),
        res is Ok ==> post.owned_process == Some(None::<P>),
        res is Err ==> post.owned_process is None,
        post.serial == pre.serial,
        post.grpc_port == pre.grpc_port,
        post.discovery_path == pre.discovery_path,
        post.metadata == pre.metadata,
        post.issuer == pre.issuer,
{
}

} // verus!
