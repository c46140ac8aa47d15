//! A connection to an emulator: how it is made, and how the boot and the
//! shutdown of the emulator are awaited over it.

use vstd::prelude::*;

use crate::auth::{self, AuthProvider, AuthScheme, BearerToken, Provider};
use crate::config::EmulatorConfig;
use crate::discovery::Discovered;
use crate::emulator::{self, Emulator};
use crate::error::{joined, EmulatorError};
use crate::jwt;
use crate::spawn::{SpawnAction, SpawnEvent, Spawning};
use crate::text::same;
use crate::time::{self, Duration, NANOS_PER_MILLI, NANOS_PER_SEC};

verus! {

/// How long to try to connect to an emulator that already runs.
pub const EXISTING_TIMEOUT_SECS: u64 = 30;

/// How long to try to connect to an emulator that was just started.
pub const STARTED_TIMEOUT_SECS: u64 = 120;

/// How long to sleep between two looks at the boot status, unless told
/// otherwise.
pub const BOOT_POLL_SECS: u64 = 2;

/// How long to wait for a shutdown, unless told otherwise.
pub const SHUTDOWN_TIMEOUT_SECS: u64 = 30;

/// How long to sleep between two looks at a machine that shuts down.
pub const SHUTDOWN_POLL_MILLIS: u64 = 500;

/// What `Channel::from_shared` says of an endpoint that is no URI.
pub uninterp spec fn uri_error(endpoint: Seq<char>) -> Option<Seq<char>>;

/// `tonic::transport::Channel::from_shared`: the text of its error, if it has
/// one. It parses the endpoint as a URI and does not connect.
#[verifier::external_body]
fn uri_error_of(endpoint: &str) -> (res: Option<String>)
    ensures
        match res {
            Some(e) => uri_error(endpoint@) == Some(e@),
            None => uri_error(endpoint@) is None,
        },
{
    match tonic::transport::Channel::from_shared(endpoint.to_owned()) {
        Ok(_) => None,
        Err(e) => Some(e.to_string()),
    }
}

/// High-level client for controlling an Android Emulator via gRPC
///
/// `I` is the generated client for the emulator's protocol.
pub struct EmulatorClient<I> {
    provider: AuthProvider,
    interceptor: I,
    endpoint: String,
}

/// What is known of a client.
pub ghost struct ClientView<I> {
    pub provider: AuthProvider,
    pub interceptor: I,
    pub endpoint: Seq<char>,
}

impl<I> View for EmulatorClient<I> {
    type V = ClientView<I>;

    closed spec fn view(&self) -> ClientView<I> {
        ClientView {
            provider: self.provider,
            interceptor: self.interceptor,
            endpoint: self.endpoint@,
        }
    }
}

/// Whether `res` is what comes of connecting to `endpoint`: an endpoint that is
/// no URI is refused, else the outcome of dialing decides.
pub open spec fn connects<I>(
    endpoint: Seq<char>,
    provider: AuthProvider,
    invalid: Option<Seq<char>>,
    dialed: Result<I, String>,
    res: Result<EmulatorClient<I>, EmulatorError>,
) -> bool {
    match (invalid, dialed) {
        (Some(e), _) => res matches Err(EmulatorError::InvalidUri(m)) && m@ == e,
        (None, Err(e)) => res matches Err(EmulatorError::GrpcError(m)) && m@ == e@,
        (None, Ok(interceptor)) => res matches Ok(client) && client@ == (ClientView {
            provider,
            interceptor,
            endpoint,
        }),
    }
}

impl<I> EmulatorClient<I> {
    /// What comes of connecting to `endpoint`, which `invalid` says is no URI.
    pub fn connected(
        endpoint: String,
        provider: AuthProvider,
        invalid: Option<String>,
        dialed: Result<I, String>,
    ) -> (res: Result<EmulatorClient<I>, EmulatorError>)
        ensures
            connects(endpoint@, provider, emulator::opt_view(invalid), dialed, res),
    {
        match (invalid, dialed) {
            (Some(e), _) => Err(EmulatorError::InvalidUri(e)),
            (None, Err(e)) => Err(EmulatorError::GrpcError(e)),
            (None, Ok(interceptor)) => Ok(EmulatorClient { provider, interceptor, endpoint }),
        }
    }

    /// Whether the endpoint can be dialed.
    pub fn check_endpoint(endpoint: &str) -> (res: Result<(), EmulatorError>)
        ensures
            match uri_error(endpoint@) {
                Some(e) => res matches Err(EmulatorError::InvalidUri(m)) && m@ == e,
                None => res is Ok,
            },
    {
        match uri_error_of(endpoint) {
            Some(e) => Err(EmulatorError::InvalidUri(e)),
            None => Ok(()),
        }
    }

    /// Connect to an emulator with authentication. `dialed` is the outcome of
    /// dialing the endpoint with tokens of the provider.
    pub fn connect_with_auth(
        endpoint: String,
        provider: AuthProvider,
        dialed: Result<I, String>,
    ) -> (res: Result<EmulatorClient<I>, EmulatorError>)
        ensures
            connects(endpoint@, provider, uri_error(endpoint@), dialed, res),
    {
        let invalid = uri_error_of(endpoint.as_str());
        EmulatorClient::connected(endpoint, provider, invalid, dialed)
    }

    /// Connect to an emulator at the specified endpoint without authentication.
    /// `dialed` is the outcome of dialing the endpoint.
    pub fn connect(endpoint: String, dialed: Result<I, String>) -> (res: Result<
        EmulatorClient<I>,
        EmulatorError,
    >)
        ensures
            exists|provider: AuthProvider|
                provider.source() is NoOp && #[trigger] connects(
                    endpoint@,
                    provider,
                    uri_error(endpoint@),
                    dialed,
                    res,
                ),
    {
        let provider = AuthProvider::new_with_token_provider(
            Provider::NoOp(auth::NoOpTokenProvider),
        );
        EmulatorClient::connect_with_auth(endpoint, provider, dialed)
    }

    /// Get the authentication scheme used by this client
    pub fn auth_scheme(&self) -> (res: &AuthScheme)
        ensures
            *res == self@.provider.scheme(),
    {
        self.provider.auth_scheme()
    }

    /// Export a bearer token for the given audiences and TTL
    ///
    /// This can be used to export a token with specific, limited audience
    /// claims in order to grant something limited access to the emulator.
    ///
    /// Each audience in `auds` will be included as an `aud` claim in the token
    /// and should correspond to the gRPC method patterns defined in the
    /// allowlist.
    ///
    /// This is only applicable when [`Self::auth_scheme()`] returns
    /// [`AuthScheme::Jwt`].
    pub fn export_token(&self, auds: &[&str], ttl: Duration) -> (res: Result<
        BearerToken,
        EmulatorError,
    >)
        ensures
            match res {
                Ok(token) => self@.provider.exports(jwt::texts(auds@), ttl, Ok(token)),
                Err(e) => e matches EmulatorError::AuthError(inner) && self@.provider.exports(
                    jwt::texts(auds@),
                    ttl,
                    Err(inner),
                ),
            },
    {
        match self.provider.export_token(auds, ttl) {
            Ok(token) => Ok(token),
            Err(e) => Err(EmulatorError::from(e)),
        }
    }

    /// Get the endpoint this client is connected to
    pub fn endpoint(&self) -> (res: &str)
        ensures
            res@ == self@.endpoint,
    {
        self.endpoint.as_str()
    }

    /// Get a mutable reference to the generated gRPC client protobuf binding
    pub fn protocol_mut(&mut self) -> (res: &mut I)
        ensures
            *res == old(self)@.interceptor,
            final(self)@ == (ClientView { interceptor: *final(res), ..old(self)@ }),
    {
        &mut self.interceptor
    }

    /// Get a reference to the generated gRPC client protobuf binding
    pub fn protocol(&self) -> (res: &I)
        ensures
            *res == self@.interceptor,
    {
        &self.interceptor
    }
}

/// What the wait for a boot is told.
pub enum BootEvent {
    /// The status could not be had.
    StatusFailed(String),
    /// The emulator has booted, `elapsed` after the wait began.
    Booted { elapsed: Duration },
    /// The emulator has not booted. `elapsed` and `later` are two readings of
    /// the time since the wait began.
    NotBooted { elapsed: Duration, later: Duration },
}

/// What the wait for a boot does next.
pub enum BootAction {
    /// Sleep, then ask for the status again.
    Sleep(Duration),
    /// The wait is over.
    Done(Result<Duration, EmulatorError>),
}

/// How long to sleep before the next look: the interval, but not beyond the
/// timeout.
pub open spec fn pause(interval: int, timeout: int, later: int) -> int {
    let remaining = if timeout > later {
        timeout - later
    } else {
        0
    };
    if interval <= remaining {
        interval
    } else {
        remaining
    }
}

/// What the wait for a boot does.
pub open spec fn boot_step(
    event: BootEvent,
    timeout: Duration,
    poll_interval: Option<Duration>,
    action: BootAction,
) -> bool {
    let interval = match poll_interval {
        Some(d) => d@,
        None => BOOT_POLL_SECS * NANOS_PER_SEC,
    };
    match event {
        BootEvent::StatusFailed(e) => action == BootAction::Done(Err(EmulatorError::GrpcStatus(e))),
        BootEvent::Booted { elapsed } => action == BootAction::Done(Ok(elapsed)),
        BootEvent::NotBooted { elapsed, later } => if elapsed@ >= timeout@ || later@ >= timeout@ {
            action == BootAction::Done(Err(EmulatorError::ConnectionTimeout))
        } else {
            action matches BootAction::Sleep(d) && d@ == pause(interval, timeout@, later@)
        },
    }
}

/// What the wait for a shutdown is told.
pub enum ShutdownEvent {
    /// The request was accepted.
    Requested,
    RequestFailed(String),
    /// The machine is in no state that is known.
    Unknown,
    /// The connection is lost.
    Lost,
    /// The machine is in a state that is known. `elapsed` and `later` are two
    /// readings of the time since the request.
    Known { elapsed: Duration, later: Duration },
}

/// What the wait for a shutdown does next.
pub enum ShutdownAction {
    /// Ask for the state of the machine.
    Look,
    /// Sleep, then ask for the state of the machine.
    Sleep(Duration),
    /// The wait is over.
    Done(Result<(), EmulatorError>),
}

/// What the wait for a shutdown does.
pub open spec fn shutdown_step(
    event: ShutdownEvent,
    timeout: Option<Duration>,
    action: ShutdownAction,
) -> bool {
    let limit = match timeout {
        Some(d) => d@,
        None => SHUTDOWN_TIMEOUT_SECS * NANOS_PER_SEC,
    };
    let interval = SHUTDOWN_POLL_MILLIS * NANOS_PER_MILLI;
    match event {
        ShutdownEvent::Requested => action is Look,
        ShutdownEvent::RequestFailed(e) => action matches ShutdownAction::Done(Err(
            EmulatorError::EmulatorKillFailed(m),
        )) && m@ == "Failed to set VM state to SHUTDOWN: "@ + e@,
        ShutdownEvent::Unknown | ShutdownEvent::Lost => action == ShutdownAction::Done(Ok(())),
        ShutdownEvent::Known { elapsed, later } => if elapsed@ >= limit || pause(
            interval,
            limit,
            later@,
        ) == 0 {
            action == ShutdownAction::Done(Err(EmulatorError::ConnectionTimeout))
        } else {
            action matches ShutdownAction::Sleep(d) && d@ == pause(interval, limit, later@)
        },
    }
}

/// How long to sleep before the next look.
fn pause_for(interval: Duration, timeout: Duration, later: Duration) -> (res: Duration)
    ensures
        res@ == pause(interval@, timeout@, later@),
{
    interval.min(timeout.saturating_sub(later))
}

impl<I> EmulatorClient<I> {
    /// Wait until the emulator has fully booted: one step
    ///
    /// The status is asked for until it says that the emulator has booted, or
    /// until `timeout` is reached. Between two looks the wait sleeps for
    /// `poll_interval` (2 seconds if `None`), but not beyond the timeout.
    ///
    /// # Errors
    ///
    /// [`EmulatorError::ConnectionTimeout`] if the emulator doesn't boot within
    /// the timeout period.
    /// [`EmulatorError::GrpcStatus`] if there's a gRPC communication error.
    pub fn wait_until_booted(
        &self,
        event: BootEvent,
        timeout: Duration,
        poll_interval: Option<Duration>,
    ) -> (res: BootAction)
        ensures
            boot_step(event, timeout, poll_interval, res),
    {
        match event {
            BootEvent::StatusFailed(e) => BootAction::Done(Err(EmulatorError::GrpcStatus(e))),
            BootEvent::Booted { elapsed } => BootAction::Done(Ok(elapsed)),
            BootEvent::NotBooted { elapsed, later } => {
                if !timeout.exceeds(&elapsed) || !timeout.exceeds(&later) {
                    return BootAction::Done(Err(EmulatorError::ConnectionTimeout));
                }
                let interval = match poll_interval {
                    Some(d) => d,
                    None => Duration::from_secs(BOOT_POLL_SECS),
                };
                BootAction::Sleep(pause_for(interval, timeout, later))
            },
        }
    }

    /// Request a graceful shutdown of the emulator via the gRPC protocol: one
    /// step
    ///
    /// The shutdown is requested by setting the state of the virtual machine.
    /// Then the state is asked for until it is none that is known, or the
    /// connection is lost, or `timeout` (30 seconds if `None`) is exceeded.
    ///
    /// # Errors
    ///
    /// [`EmulatorError::EmulatorKillFailed`] if setting the state fails.
    /// [`EmulatorError::ConnectionTimeout`] if the timeout is exceeded.
    pub fn shutdown(&self, event: ShutdownEvent, timeout: Option<Duration>) -> (res: ShutdownAction)
        ensures
            shutdown_step(event, timeout, res),
    {
        match event {
            ShutdownEvent::Requested => ShutdownAction::Look,
            ShutdownEvent::RequestFailed(e) => ShutdownAction::Done(
                Err(
                    EmulatorError::EmulatorKillFailed(
                        joined("Failed to set VM state to SHUTDOWN: ", e.as_str()),
                    ),
                ),
            ),
            ShutdownEvent::Unknown | ShutdownEvent::Lost => ShutdownAction::Done(Ok(())),
            ShutdownEvent::Known { elapsed, later } => {
                let limit = match timeout {
                    Some(d) => d,
                    None => Duration::from_secs(SHUTDOWN_TIMEOUT_SECS),
                };
                if !limit.exceeds(&elapsed) {
                    return ShutdownAction::Done(Err(EmulatorError::ConnectionTimeout));
                }
                let interval = Duration::from_millis(SHUTDOWN_POLL_MILLIS);
                let sleep = pause_for(interval, limit, later);
                if sleep.is_zero() {
                    ShutdownAction::Done(Err(EmulatorError::ConnectionTimeout))
                } else {
                    ShutdownAction::Sleep(sleep)
                }
            },
        }
    }

    /// Try to find an emulator running the specified AVD and connect to it: the
    /// first of them, for 30 seconds, with the console token if need be
    pub fn connect_avd<'a, P>(emulators: &'a Vec<Emulator<P>>, avd: &str) -> (res: Result<
        AvdConnection<'a, P>,
        EmulatorError,
    >)
        ensures
            avd_connection(emulators@, avd@, res),
    {
        for i in 0..emulators.len()
            invariant
                forall|j: int| 0 <= j < i ==> !runs_avd(#[trigger] emulators@[j], avd@),
        {
            if let Some(id) = emulators[i].avd_id() {
                if same(id, avd) {
                    return Ok(
                        AvdConnection {
                            emulator: &emulators[i],
                            timeout: Duration::from_secs(EXISTING_TIMEOUT_SECS),
                            allow_basic_auth: true,
                        },
                    );
                }
            }
        }
        Err(EmulatorError::EmulatorStartFailed("No running emulator found".to_owned()))
    }
}

/// The emulator to connect to, and how: what comes of it is what comes of the
/// whole attempt.
pub struct AvdConnection<'a, P> {
    pub emulator: &'a Emulator<P>,
    /// How long to try.
    pub timeout: Duration,
    /// Whether the console token may be used.
    pub allow_basic_auth: bool,
}

/// Whether the emulator runs the AVD.
pub open spec fn runs_avd<P>(e: Emulator<P>, avd: Seq<char>) -> bool {
    e@.get("avd.id"@) == Some(avd)
}

/// Whether `res` is what there is to connect to for the AVD: the first of the
/// emulators that runs it, for thirty seconds and with the console token if
/// need be, or an error where none does.
pub open spec fn avd_connection<P>(
    emulators: Seq<Emulator<P>>,
    avd: Seq<char>,
    res: Result<AvdConnection<P>, EmulatorError>,
) -> bool {
    match res {
        Ok(c) => {
            &&& c.timeout@ == 30 * NANOS_PER_SEC
            &&& c.allow_basic_auth
            &&& exists|i: int|
                #![trigger emulators[i]]
                {
                    &&& 0 <= i < emulators.len()
                    &&& *c.emulator == emulators[i]
                    &&& runs_avd(emulators[i], avd)
                    &&& forall|j: int| 0 <= j < i ==> !runs_avd(#[trigger] emulators[j], avd)
                }
        },
        Err(e) => {
            &&& forall|j: int| 0 <= j < emulators.len() ==> !runs_avd(#[trigger] emulators[j], avd)
            &&& e matches EmulatorError::EmulatorStartFailed(m) && m@
                == "No running emulator found"@
        },
    }
}

/// How far the search for an emulator, or the start of one, has come.
pub enum ConnectOrStart<S, P> {
    /// An emulator that runs the AVD of the configuration is being looked for
    /// and connected to.
    Existing(EmulatorConfig<S>),
    /// A new emulator is being started.
    Start,
    /// The new emulator is being connected to.
    Connect(Emulator<P>),
    /// There is nothing left to do.
    Ended,
}

/// What became of the last action.
pub enum StartEvent<C, P> {
    /// The client of an emulator that already runs, if there is one.
    Existing(Result<C, EmulatorError>),
    /// The emulator that was started.
    Spawned(Result<Emulator<P>, EmulatorError>),
    /// The client of the emulator that was started.
    Connected(Result<C, EmulatorError>),
}

/// What to do next.
pub enum StartAction<S, C, P> {
    /// Start an emulator.
    Spawn(EmulatorConfig<S>),
    /// Connect to the emulator that was started, at its endpoint.
    Connect { endpoint: String, timeout: Duration, allow_basic_auth: bool },
    /// It is over: the client and, if it was started, the emulator. An emulator
    /// that was started but not connected to is abandoned: it is given up, and
    /// its process killed.
    Done {
        res: Result<(C, Option<Emulator<P>>), EmulatorError>,
        abandoned: Option<Emulator<P>>,
    },
}

impl<S, P> ConnectOrStart<S, P> {
    /// How to begin: the AVD of which a running emulator is looked for.
    pub fn new(config: EmulatorConfig<S>) -> (res: (ConnectOrStart<S, P>, String))
        ensures
            res.0 == ConnectOrStart::<S, P>::Existing(config),
            res.1@ == config@.avd_name,
    {
        let avd = config.avd_id().to_owned();
        (ConnectOrStart::Existing(config), avd)
    }

    /// Whether the event can come now.
    pub open spec fn expects<C>(self, event: StartEvent<C, P>) -> bool {
        match event {
            StartEvent::Existing(_) => self is Existing,
            StartEvent::Spawned(_) => self is Start,
            StartEvent::Connected(_) => self is Connect,
        }
    }

    /// What a step does.
    pub open spec fn start_step<C>(
        pre: Self,
        event: StartEvent<C, P>,
        post: Self,
        action: StartAction<S, C, P>,
    ) -> bool {
        match (pre, event) {
            (ConnectOrStart::Existing(_), StartEvent::Existing(Ok(client))) => post is Ended
                && action == (StartAction::<S, C, P>::Done {
                res: Ok((client, None)),
                abandoned: None,
            }),
            (ConnectOrStart::Existing(config), StartEvent::Existing(Err(_))) => post is Start
                && action == StartAction::<S, C, P>::Spawn(config),
            (ConnectOrStart::Start, StartEvent::Spawned(Ok(emulator))) => {
                &&& post == ConnectOrStart::<S, P>::Connect(emulator)
                &&& action matches StartAction::Connect { endpoint, timeout, allow_basic_auth }
                &&& endpoint@ == emulator@.endpoint()
                &&& timeout@ == 120 * NANOS_PER_SEC
                &&& allow_basic_auth
            },
            (ConnectOrStart::Start, StartEvent::Spawned(Err(e))) => post is Ended && action == (
            StartAction::<S, C, P>::Done { res: Err(e), abandoned: None }),
            (ConnectOrStart::Connect(emulator), StartEvent::Connected(Ok(client))) => post is Ended
                && action == (StartAction::<S, C, P>::Done {
                res: Ok((client, Some(emulator))),
                abandoned: None,
            }),
            (ConnectOrStart::Connect(emulator), StartEvent::Connected(Err(e))) => post is Ended
                && action == (StartAction::<S, C, P>::Done {
                res: Err(e),
                abandoned: Some(emulator),
            }),
            _ => false,
        }
    }
}

/// Try to connect to an emulator, or start a new one if none is running: one
/// step
///
/// It begins with an attempt to connect to an emulator that runs the AVD of
/// the configuration. Where that fails, for whatever reason, an emulator is
/// started with the configuration and connected to. The result is the client
/// and the emulator, if it was started here.
pub fn connect_or_start_emulator<S, C, P>(
    state: ConnectOrStart<S, P>,
    event: StartEvent<C, P>,
) -> (res: (ConnectOrStart<S, P>, StartAction<S, C, P>))
    requires
        state.expects(event),
    ensures
        ConnectOrStart::start_step(state, event, res.0, res.1),
{
    match (state, event) {
        (ConnectOrStart::Existing(_), StartEvent::Existing(Ok(client))) => (
            ConnectOrStart::Ended,
            StartAction::Done { res: Ok((client, None)), abandoned: None },
        ),
        (ConnectOrStart::Existing(config), StartEvent::Existing(Err(_))) => (
            ConnectOrStart::Start,
            StartAction::Spawn(config),
        ),
        (ConnectOrStart::Start, StartEvent::Spawned(Ok(emulator))) => {
            let endpoint = emulator.grpc_endpoint();
            let timeout = Duration::from_secs(STARTED_TIMEOUT_SECS);
            (
                ConnectOrStart::Connect(emulator),
                StartAction::Connect { endpoint, timeout, allow_basic_auth: true },
            )
        },
        (ConnectOrStart::Start, StartEvent::Spawned(Err(e))) => (
            ConnectOrStart::Ended,
            StartAction::Done { res: Err(e), abandoned: None },
        ),
        (ConnectOrStart::Connect(emulator), StartEvent::Connected(Ok(client))) => (
            ConnectOrStart::Ended,
            StartAction::Done { res: Ok((client, Some(emulator))), abandoned: None },
        ),
        (ConnectOrStart::Connect(emulator), StartEvent::Connected(Err(e))) => (
            ConnectOrStart::Ended,
            StartAction::Done { res: Err(e), abandoned: Some(emulator) },
        ),
        _ => vstd::pervasive::unreached(),
    }
}

/// The client that comes with an emulator which was started is connected to
/// that emulator, which is owned.
pub proof fn law_started_emulator_is_owned<S, I, P>(
    spawning: Spawning<S, P>,
    found: Discovered,
    pid: u32,
    spawned: Spawning<S, P>,
    emulator: Emulator<P>,
    waiting: ConnectOrStart<S, P>,
    endpoint: String,
    timeout: Duration,
    allow_basic_auth: bool,
    provider: AuthProvider,
    invalid: Option<Seq<char>>,
    dialed: Result<I, String>,
    client: EmulatorClient<I>,
    end: ConnectOrStart<S, P>,
    action: StartAction<S, EmulatorClient<I>, P>,
)
    requires
        Spawning::spawn_step(
            spawning,
            SpawnEvent::EmulatorFound(found),
            pid,
            spawned,
            SpawnAction::Done(Ok(emulator)),
        ),
        ConnectOrStart::start_step(
            ConnectOrStart::Start,
            StartEvent::<EmulatorClient<I>, P>::Spawned(Ok(emulator)),
            waiting,
            StartAction::Connect { endpoint, timeout, allow_basic_auth },
        ),
        connects(endpoint@, provider, invalid, dialed, Ok(client)),
        ConnectOrStart::start_step(waiting, StartEvent::Connected(Ok(client)), end, action),
    ensures
        action == (StartAction::<S, EmulatorClient<I>, P>::Done {
            res: Ok((client, Some(emulator))),
            abandoned: None,
        }),
        emulator@.owned_process is Some,
        client@.endpoint == emulator@.endpoint(),
        timeout@ == 120 * NANOS_PER_SEC,
        allow_basic_auth,
{
}

/// An emulator is started at most once, only where none could be connected to;
/// the reason for that is never the error that comes out.
pub proof fn law_started_only_if_needed<S, C, P>(
    pre: ConnectOrStart<S, P>,
    event: StartEvent<C, P>,
    post: ConnectOrStart<S, P>,
    action: StartAction<S, C, P>,
)
    requires
        ConnectOrStart::start_step(pre, event, post, action),
    ensures
        action is Spawn <==> (event matches StartEvent::Existing(Err(_))),
        action is Spawn ==> pre is Existing && post is Start,
        post !is Existing,
        post is Ended <==> action is Done,
        event is Existing ==> !(action matches StartAction::Done { res: Err(_), .. }),
        action matches StartAction::Done { res: Ok(_), abandoned } ==> abandoned is None,
{
}

/// A wait for a boot sleeps for no longer than the interval and never beyond
/// the timeout, and for some time where the interval is not zero.
pub proof fn law_boot_sleep_is_bounded(
    event: BootEvent,
    timeout: Duration,
    poll_interval: Option<Duration>,
    sleep: Duration,
)
    requires
        boot_step(event, timeout, poll_interval, BootAction::Sleep(sleep)),
        poll_interval matches Some(d) ==> d@ >= 0,
    ensures
        event matches BootEvent::NotBooted { elapsed, later } && {
            &&& elapsed@ < timeout@
            &&& later@ < timeout@
            &&& 0 <= sleep@
            &&& later@ + sleep@ <= timeout@
        },
        !(poll_interval matches Some(d) && d@ == 0) ==> 0 < sleep@,
        poll_interval matches Some(d) ==> sleep@ <= d@,
        poll_interval is None ==> sleep@ <= 2 * NANOS_PER_SEC,
{
}

/// A wait for a boot succeeds only on a status that says so, and times out
/// only on one that does not and once the timeout is reached.
pub proof fn law_boot_ends_as_told(
    event: BootEvent,
    timeout: Duration,
    poll_interval: Option<Duration>,
    res: Result<Duration, EmulatorError>,
)
    requires
        boot_step(event, timeout, poll_interval, BootAction::Done(res)),
    ensures
        match res {
            Ok(d) => event == (BootEvent::Booted { elapsed: d }),
            Err(EmulatorError::ConnectionTimeout) => event matches BootEvent::NotBooted {
                elapsed,
                later,
            } && (elapsed@ >= timeout@ || later@ >= timeout@),
            Err(EmulatorError::GrpcStatus(e)) => event == BootEvent::StatusFailed(e),
            Err(_) => false,
        },
{
}

/// A wait for a shutdown never sleeps beyond the timeout, which is thirty
/// seconds unless told otherwise, and goes on until then while the machine is
/// in a state that is known.
pub proof fn law_shutdown_waits(
    elapsed: Duration,
    later: Duration,
    timeout: Option<Duration>,
    limit: int,
    action: ShutdownAction,
)
    requires
        shutdown_step(ShutdownEvent::Known { elapsed, later }, timeout, action),
        limit == match timeout {
            Some(d) => d@,
            None => 30 * NANOS_PER_SEC,
        },
        later@ >= 0,
    ensures
        elapsed@ < limit && later@ < limit ==> (action matches ShutdownAction::Sleep(d) && {
            &&& 0 < d@ <= 500 * NANOS_PER_MILLI
            &&& later@ + d@ <= limit
        }),
        elapsed@ >= limit || later@ >= limit ==> action == ShutdownAction::Done(
            Err(EmulatorError::ConnectionTimeout),
        ),
{
}

/// What is started, where nothing that runs can be connected to, is the
/// configuration that was given, whole; its AVD is the one that is looked for.
pub proof fn law_given_configuration_is_started<S, C, P>(
    config: EmulatorConfig<S>,
    begun: (ConnectOrStart<S, P>, String),
    why: EmulatorError,
    res: (ConnectOrStart<S, P>, StartAction<S, C, P>),
)
    requires
        call_ensures(ConnectOrStart::<S, P>::new, (config,), begun),
        call_ensures(
            connect_or_start_emulator::<S, C, P>,
            (begun.0, StartEvent::Existing(Err(why))),
            res,
        ),
    ensures
        begun.1@ == config@.avd_name,
        res.1 matches StartAction::Spawn(started) && started == config && started@ == config@,
        res.0 is Start,
{
}

/// A client of an emulator that already runs is handed on, and nothing is
/// started.
pub proof fn law_existing_client_is_handed_on<S, C, P>(
    config: EmulatorConfig<S>,
    client: C,
    res: (ConnectOrStart<S, P>, StartAction<S, C, P>),
)
    requires
        call_ensures(
            connect_or_start_emulator::<S, C, P>,
            (ConnectOrStart::Existing(config), StartEvent::Existing(Ok(client))),
            res,
        ),
    ensures
        res.0 is Ended,
        res.1 matches StartAction::Done { res: Ok((c, started)), abandoned } && c == client
            && started is None && abandoned is None,
{
}

/// The emulator that was started is connected to at its own endpoint, for two
/// minutes and with the console token if need be. It is handed out with the
/// client; where no client can be had it is given up, and the error is that of
/// the connection. An emulator that could not be started is the error that
/// comes out.
pub proof fn law_started_emulator_is_connected_to<S, C, P>(
    emulator: Emulator<P>,
    client: C,
    why: EmulatorError,
    spawned: (ConnectOrStart<S, P>, StartAction<S, C, P>),
    connected: (ConnectOrStart<S, P>, StartAction<S, C, P>),
    not_connected: (ConnectOrStart<S, P>, StartAction<S, C, P>),
    not_spawned: (ConnectOrStart<S, P>, StartAction<S, C, P>),
)
    requires
        call_ensures(
            connect_or_start_emulator::<S, C, P>,
            (ConnectOrStart::Start, StartEvent::Spawned(Ok(emulator))),
            spawned,
        ),
        call_ensures(
            connect_or_start_emulator::<S, C, P>,
            (spawned.0, StartEvent::Connected(Ok(client))),
            connected,
        ),
        call_ensures(
            connect_or_start_emulator::<S, C, P>,
            (spawned.0, StartEvent::Connected(Err(why))),
            not_connected,
        ),
        call_ensures(
            connect_or_start_emulator::<S, C, P>,
            (ConnectOrStart::Start, StartEvent::Spawned(Err(why))),
            not_spawned,
        ),
    ensures
        spawned.1 matches StartAction::Connect { endpoint, timeout, allow_basic_auth } && {
            &&& endpoint@ == "http://localhost:"@ + crate::text::decimal(emulator@.grpc_port as nat)
            &&& timeout@ == 120_000_000_000
            &&& allow_basic_auth
        },
        spawned.0 == ConnectOrStart::<S, P>::Connect(emulator),
        connected.0 is Ended,
        connected.1 == (StartAction::<S, C, P>::Done {
            res: Ok((client, Some(emulator))),
            abandoned: None,
        }),
        not_connected.0 is Ended,
        not_connected.1 == (StartAction::<S, C, P>::Done {
            res: Err(why),
            abandoned: Some(emulator),
        }),
        not_spawned.0 is Ended,
        not_spawned.1 == (StartAction::<S, C, P>::Done { res: Err(why), abandoned: None }),
{
}

/// The emulator of an AVD is the first that names the AVD as its own. It is
/// found if there is one, and tried for thirty seconds, with the console token
/// if need be.
pub proof fn law_avd_is_found<'a, I, P>(
    emulators: &'a Vec<Emulator<P>>,
    avd: &'a str,
    res: Result<AvdConnection<'a, P>, EmulatorError>,
    i: int,
)
    requires
        call_ensures(EmulatorClient::<I>::connect_avd::<P>, (emulators, avd), res),
        0 <= i < emulators@.len(),
        emulators@[i]@.metadata.contains_key("avd.id"@),
        emulators@[i]@.metadata["avd.id"@] == avd@,
        forall|j: int|
            0 <= j < i ==> !((#[trigger] emulators@[j])@.metadata.contains_key("avd.id"@)
                && emulators@[j]@.metadata["avd.id"@] == avd@),
    ensures
        res matches Ok(c) && {
            &&& *c.emulator == emulators@[i]
            &&& c.timeout@ == 30_000_000_000
            &&& c.allow_basic_auth
        },
{
    assert(runs_avd(emulators@[i], avd@));
    if res is Ok {
        let k = choose|k: int|
            #![trigger emulators@[k]]
            {
                &&& 0 <= k < emulators@.len()
                &&& *res->Ok_0.emulator == emulators@[k]
                &&& runs_avd(emulators@[k], avd@)
                &&& forall|j: int| 0 <= j < k ==> !runs_avd(#[trigger] emulators@[j], avd@)
            };
        if i < k {
            assert(!runs_avd(emulators@[i], avd@));
        }
        if k < i {
            assert(runs_avd(emulators@[k], avd@));
        }
    } else {
        assert(!runs_avd(emulators@[i], avd@));
    }
}

/// An AVD that no emulator names as its own is not found.
pub proof fn law_avd_is_not_found<'a, I, P>(
    emulators: &'a Vec<Emulator<P>>,
    avd: &'a str,
    res: Result<AvdConnection<'a, P>, EmulatorError>,
)
    requires
        call_ensures(EmulatorClient::<I>::connect_avd::<P>, (emulators, avd), res),
        forall|j: int|
            0 <= j < emulators@.len() ==> !((#[trigger] emulators@[j])@.metadata.contains_key(
                "avd.id"@,
            ) && emulators@[j]@.metadata["avd.id"@] == avd@),
    ensures
        res matches Err(EmulatorError::EmulatorStartFailed(m)) && m@ == "No running emulator found"@,
{
    if res is Ok {
        let k = choose|k: int|
            #![trigger emulators@[k]]
            {
                &&& 0 <= k < emulators@.len()
                &&& *res->Ok_0.emulator == emulators@[k]
                &&& runs_avd(emulators@[k], avd@)
                &&& forall|j: int| 0 <= j < k ==> !runs_avd(#[trigger] emulators@[j], avd@)
            };
        assert(runs_avd(emulators@[k], avd@));
    }
}

/// A connection stands if and only if the endpoint is a URI and was dialed; it
/// is then to that endpoint, over what was dialed and with the tokens of the
/// provider. Else the error says which of the two failed, and how.
pub proof fn law_connection_is_what_was_dialed<I>(
    endpoint: String,
    provider: AuthProvider,
    dialed: Result<I, String>,
    res: Result<EmulatorClient<I>, EmulatorError>,
)
    requires
        call_ensures(EmulatorClient::<I>::connect_with_auth, (endpoint, provider, dialed), res),
    ensures
        res is Ok <==> uri_error(endpoint@) is None && dialed is Ok,
        res matches Ok(client) ==> {
            &&& client@.endpoint == endpoint@
            &&& client@.provider == provider
            &&& dialed == Ok::<I, String>(client@.interceptor)
        },
        uri_error(endpoint@) is Some ==> (res matches Err(EmulatorError::InvalidUri(m)) && Some(m@)
            == uri_error(endpoint@)),
        uri_error(endpoint@) is None && dialed is Err ==> (res matches Err(
            EmulatorError::GrpcError(m),
        ) && m@ == dialed->Err_0@),
{
}

/// A connection without authentication is one over which no token is sent.
pub proof fn law_plain_connection_sends_no_token<I>(
    endpoint: String,
    dialed: Result<I, String>,
    res: Result<EmulatorClient<I>, EmulatorError>,
)
    requires
        call_ensures(EmulatorClient::<I>::connect, (endpoint, dialed), res),
    ensures
        res is Ok <==> uri_error(endpoint@) is None && dialed is Ok,
        res matches Ok(client) ==> {
            &&& client@.endpoint == endpoint@
            &&& client@.provider.source() is NoOp
            &&& client@.provider.scheme() is NoAuth
            &&& dialed == Ok::<I, String>(client@.interceptor)
        },
        uri_error(endpoint@) is Some ==> (res matches Err(EmulatorError::InvalidUri(m)) && Some(m@)
            == uri_error(endpoint@)),
        uri_error(endpoint@) is None && dialed is Err ==> (res matches Err(
            EmulatorError::GrpcError(m),
        ) && m@ == dialed->Err_0@),
{
}

/// A token that a client exports is one that its provider exports, for the same
/// audiences and the same time; so is the reason why there is none.
pub proof fn law_client_exports_tokens_of_its_provider<I>(
    client: EmulatorClient<I>,
    auds: &[&str],
    ttl: Duration,
    res: Result<BearerToken, EmulatorError>,
)
    requires
        call_ensures(EmulatorClient::<I>::export_token, (&client, auds, ttl), res),
    ensures
        client@.provider.source() matches Provider::Jwt(p) ==> match res {
            Ok(bearer) => exists|minted_at: int, now: int| #[trigger]
                p.export_step(jwt::texts(auds@), ttl, minted_at, now, Ok(bearer)) && time::was_now(
                    minted_at,
                ) && time::was_now(now),
            Err(e) => e matches EmulatorError::AuthError(inner) && exists|
                minted_at: int,
                now: int,
            | #[trigger]
                p.export_step(jwt::texts(auds@), ttl, minted_at, now, Err(inner)) && time::was_now(
                    minted_at,
                ) && time::was_now(now),
        },
        client@.provider.source() !is Jwt ==> (res matches Err(EmulatorError::AuthError(
            auth::AuthError::Unsupported(what),
        )) && what@ == "export_token"@),
{
}

/// A wait for a boot goes on if and only if the emulator has not booted and the
/// timeout has not been reached; it then sleeps for the interval, which is two
/// seconds unless told otherwise, or for what is left until the timeout where
/// that is less.
pub proof fn law_boot_is_awaited<I>(
    client: EmulatorClient<I>,
    event: BootEvent,
    timeout: Duration,
    poll_interval: Option<Duration>,
    interval: int,
    res: BootAction,
)
    requires
        call_ensures(
            EmulatorClient::<I>::wait_until_booted,
            (&client, event, timeout, poll_interval),
            res,
        ),
        poll_interval matches Some(d) ==> interval == d@,
        poll_interval is None ==> interval == 2_000_000_000,
    ensures
        event matches BootEvent::Booted { elapsed } ==> res == BootAction::Done(Ok(elapsed)),
        event matches BootEvent::StatusFailed(e) ==> res == BootAction::Done(
            Err(EmulatorError::GrpcStatus(e)),
        ),
        event matches BootEvent::NotBooted { elapsed, later } ==> {
            &&& elapsed@ < timeout@ && later@ < timeout@ <==> res is Sleep
            &&& elapsed@ >= timeout@ || later@ >= timeout@ ==> res == BootAction::Done(
                Err(EmulatorError::ConnectionTimeout),
            )
            &&& res matches BootAction::Sleep(d) ==> {
                &&& d@ == interval || d@ == timeout@ - later@
                &&& d@ <= interval
                &&& d@ <= timeout@ - later@
            }
        },
{
}

/// A shutdown is over once the state of the machine is unknown or the
/// connection is lost, and fails if it could not be asked for. While the state
/// is known the wait goes on until the timeout, thirty seconds unless told
/// otherwise, in steps of half a second or what is left where that is less.
pub proof fn law_shutdown_is_awaited<I>(
    client: EmulatorClient<I>,
    event: ShutdownEvent,
    timeout: Option<Duration>,
    limit: int,
    res: ShutdownAction,
)
    requires
        call_ensures(EmulatorClient::<I>::shutdown, (&client, event, timeout), res),
        timeout matches Some(d) ==> limit == d@,
        timeout is None ==> limit == 30_000_000_000,
    ensures
        event is Requested ==> res is Look,
        event matches ShutdownEvent::RequestFailed(e) ==> (res matches ShutdownAction::Done(Err(
            EmulatorError::EmulatorKillFailed(m),
        )) && m@ == "Failed to set VM state to SHUTDOWN: "@ + e@),
        event is Unknown || event is Lost ==> res == ShutdownAction::Done(Ok(())),
        event matches ShutdownEvent::Known { elapsed, later } ==> {
            &&& elapsed@ < limit && later@ < limit <==> res is Sleep
            &&& elapsed@ >= limit || later@ >= limit ==> res == ShutdownAction::Done(
                Err(EmulatorError::ConnectionTimeout),
            )
            &&& res matches ShutdownAction::Sleep(d) ==> {
                &&& d@ == 500_000_000 || d@ == limit - later@
                &&& d@ <= 500_000_000
                &&& d@ <= limit - later@
            }
        },
{
}

/// An endpoint can be dialed if and only if it is a URI; what is wrong with it
/// is what the error says.
pub proof fn law_endpoint_is_checked<I>(endpoint: &str, res: Result<(), EmulatorError>)
    requires
        call_ensures(EmulatorClient::<I>::check_endpoint, (endpoint,), res),
    ensures
        res is Ok <==> uri_error(endpoint@) is None,
        res matches Err(e) ==> (e matches EmulatorError::InvalidUri(m) && Some(m@) == uri_error(
            endpoint@,
        )),
{
}

/// A client tells the endpoint, the scheme and the protocol that it was made
/// with.
pub proof fn law_client_tells<I>(
    client: EmulatorClient<I>,
    endpoint: &str,
    scheme: &AuthScheme,
    protocol: &I,
)
    requires
        call_ensures(EmulatorClient::<I>::endpoint, (&client,), endpoint),
        call_ensures(EmulatorClient::<I>::auth_scheme, (&client,), scheme),
        call_ensures(EmulatorClient::<I>::protocol, (&client,), protocol),
    ensures
        endpoint@ == client@.endpoint,
        *protocol == client@.interceptor,
        client@.provider.source() is NoOp ==> *scheme is NoAuth,
        client@.provider.source() is Bearer ==> *scheme is Bearer,
        client@.provider.source() matches Provider::Jwt(p) ==> *scheme == auth::TokenProvider::scheme(&p),
{
}

} // verus!
