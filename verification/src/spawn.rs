//! The start of an emulator, step by step.

use vstd::prelude::*;

use crate::auth::{self, GrpcAllowlist};
use crate::config::{self, ConfigView, EmulatorConfig, Launch};
use crate::discovery::Discovered;
use crate::emulator::{self, Emulator, EmulatorView};
use crate::error::{joined, EmulatorError};
use crate::ini;
use crate::text::{self, decimal_of};

verus! {

/// How far the start of an emulator has come. `S` is what its output can be
/// redirected to, `P` its process.
pub enum Spawning<S, P> {
    /// The SDK is being looked for.
    Home(EmulatorConfig<S>),
    /// The emulator tool is being looked for.
    Tool(EmulatorConfig<S>),
    /// A free port is being looked for.
    Port(EmulatorConfig<S>),
    /// The allowlist is being written.
    Allowlist(Launch<S>),
    /// The process is being started.
    Process { grpc_port: u16, issuer: Option<String> },
    /// The process runs; the emulator is to appear.
    Await { grpc_port: u16, issuer: Option<String>, process: P },
    /// There is nothing left to do.
    Ended,
}

/// What became of the last action.
pub enum SpawnEvent<P> {
    HomeFound,
    HomeMissing(EmulatorError),
    ToolFound,
    /// The tool is not at the path.
    ToolMissing(String),
    /// The free port, if one was found.
    FreePort(Option<u16>),
    AllowlistWritten,
    AllowlistNotSerialized(String),
    AllowlistNotWritten(String),
    ProcessStarted(P),
    ProcessNotStarted(String),
    EmulatorFound(Discovered),
    EmulatorNotFound(EmulatorError),
}

/// What to do next.
pub enum SpawnAction<S, P> {
    /// Look for the emulator tool in the SDK.
    LookForTool,
    /// Look for a free gRPC port.
    FindFreePort,
    /// Write the allowlist to a file of that name in the directory for
    /// temporary files.
    WriteAllowlist { file_name: String, allowlist: GrpcAllowlist },
    /// Start the process, without input.
    StartProcess(Launch<S>),
    /// Wait for the emulator to appear.
    AwaitEmulator { grpc_port: u16 },
    /// The start is over.
    Done(Result<Emulator<P>, EmulatorError>),
}

/// The name of the allowlist file of the process `pid`.
pub open spec fn allowlist_file_name(pid: u32) -> Seq<char> {
    "emulator-allowlist-"@ + text::decimal(pid as nat) + ".json"@
}

/// What follows once the port is known: the process is started, after the
/// allowlist has been written where there is one.
pub open spec fn launches<S, P>(
    config: ConfigView<S>,
    port: u16,
    pid: u32,
    post: Spawning<S, P>,
    action: SpawnAction<S, P>,
) -> bool {
    if config::issuer_for(config.grpc_auth, port) is Some {
        &&& post matches Spawning::Allowlist(launch)
        &&& action matches SpawnAction::WriteAllowlist { file_name, allowlist }
        &&& file_name@ == allowlist_file_name(pid)
        &&& launch.allowlist is None
        &&& (Launch { allowlist: Some(allowlist), ..launch }).starts(config, port)
    } else {
        &&& action matches SpawnAction::StartProcess(launch)
        &&& launch.starts(config, port)
        &&& post == (Spawning::<S, P>::Process { grpc_port: port, issuer: None })
    }
}

impl<S> EmulatorConfig<S> {
    /// Start an Android emulator with the given configuration: the search for
    /// the SDK comes first
    pub fn spawn<P>(self) -> (res: Spawning<S, P>)
        ensures
            res == Spawning::<S, P>::Home(self),
    {
        Spawning::Home(self)
    }
}

impl<S, P> Spawning<S, P> {
    /// Whether the event can come now.
    pub open spec fn expects(self, event: SpawnEvent<P>) -> bool {
        match event {
            SpawnEvent::HomeFound | SpawnEvent::HomeMissing(_) => self is Home,
            SpawnEvent::ToolFound | SpawnEvent::ToolMissing(_) => self is Tool,
            SpawnEvent::FreePort(_) => self is Port,
            SpawnEvent::AllowlistWritten | SpawnEvent::AllowlistNotSerialized(_)
            | SpawnEvent::AllowlistNotWritten(_) => self is Allowlist,
            SpawnEvent::ProcessStarted(_) | SpawnEvent::ProcessNotStarted(_) => self is Process,
            SpawnEvent::EmulatorFound(_) | SpawnEvent::EmulatorNotFound(_) => self is Await,
        }
    }

    /// What a step does.
    pub open spec fn spawn_step(
        pre: Self,
        event: SpawnEvent<P>,
        pid: u32,
        post: Self,
        action: SpawnAction<S, P>,
    ) -> bool {
        match (pre, event) {
            (Spawning::Home(c), SpawnEvent::HomeFound) => post == Spawning::<S, P>::Tool(c)
                && action is LookForTool,
            (Spawning::Home(_), SpawnEvent::HomeMissing(e)) => post is Ended && action
                == SpawnAction::<S, P>::Done(Err(e)),
            (Spawning::Tool(c), SpawnEvent::ToolFound) => match c@.grpc_port {
                Some(port) => launches(c@, port, pid, post, action),
                None => post == Spawning::<S, P>::Port(c) && action is FindFreePort,
            },
            (Spawning::Tool(_), SpawnEvent::ToolMissing(path)) => post is Ended && action
                == SpawnAction::<S, P>::Done(Err(EmulatorError::EmulatorToolNotFound(path))),
            (Spawning::Port(c), SpawnEvent::FreePort(free)) => launches(
                c@,
                c@.port(free),
                pid,
                post,
                action,
            ),
            (Spawning::Allowlist(launch), SpawnEvent::AllowlistWritten) => {
                &&& action == SpawnAction::<S, P>::StartProcess(launch)
                &&& post matches Spawning::Process { grpc_port, issuer }
                &&& grpc_port == launch.grpc_port
                &&& emulator::opt_view(issuer) == emulator::opt_view(launch.issuer)
            },
            (Spawning::Allowlist(_), SpawnEvent::AllowlistNotSerialized(e)) => post is Ended && (
            action matches SpawnAction::Done(Err(EmulatorError::EmulatorStartFailed(m))) && m@
                == "Failed to serialize allowlist: "@ + e@),
            (Spawning::Allowlist(_), SpawnEvent::AllowlistNotWritten(e)) => post is Ended && action
                == SpawnAction::<S, P>::Done(Err(EmulatorError::IoError(e))),
            (
                Spawning::Process { grpc_port, issuer },
                SpawnEvent::ProcessStarted(process),
            ) => post == (Spawning::<S, P>::Await { grpc_port, issuer, process }) && action == (
            SpawnAction::<S, P>::AwaitEmulator { grpc_port }),
            (Spawning::Process { .. }, SpawnEvent::ProcessNotStarted(e)) => post is Ended && action
                == SpawnAction::<S, P>::Done(Err(EmulatorError::EmulatorStartFailed(e))),
            (
                Spawning::Await { grpc_port, issuer, process },
                SpawnEvent::EmulatorFound(found),
            ) => post is Ended && (action matches SpawnAction::Done(Ok(e)) && e@ == (EmulatorView {
                owned_process: Some(Some(process)),
                serial: found.serial@,
                grpc_port,
                discovery_path: found.discovery_path,
                metadata: ini::values(found.metadata@),
                issuer: emulator::opt_view(issuer),
            })),
            (Spawning::Await { .. }, SpawnEvent::EmulatorNotFound(e)) => post is Ended && action
                == SpawnAction::<S, P>::Done(Err(e)),
            _ => false,
        }
    }

    /// Starts the process, after the allowlist has been written where there is
    /// one.
    fn launch(config: EmulatorConfig<S>, port: u16, pid: u32) -> (res: (
        Spawning<S, P>,
        SpawnAction<S, P>,
    ))
        ensures
            launches(config@, port, pid, res.0, res.1),
    {
        let Launch { args, stdout, stderr, grpc_port, issuer, allowlist } = config.launch(port);
        match allowlist {
            Some(allowlist) => {
                let mut file_name = "emulator-allowlist-".to_owned();
                file_name.append(decimal_of(pid as u64).as_str());
                file_name.append(".json");
                (
                    Spawning::Allowlist(
                        Launch { args, stdout, stderr, grpc_port, issuer, allowlist: None },
                    ),
                    SpawnAction::WriteAllowlist { file_name, allowlist },
                )
            },
            None => (
                Spawning::Process { grpc_port, issuer: None },
                SpawnAction::StartProcess(
                    Launch { args, stdout, stderr, grpc_port, issuer, allowlist: None },
                ),
            ),
        }
    }

    /// One step of the start. It begins with the search for the SDK; `pid` is
    /// the process that starts the emulator.
    pub fn step(self, event: SpawnEvent<P>, pid: u32) -> (res: (Spawning<S, P>, SpawnAction<S, P>))
        requires
            self.expects(event),
        ensures
            Spawning::spawn_step(self, event, pid, res.0, res.1),
    {
        match (self, event) {
            (Spawning::Home(c), SpawnEvent::HomeFound) => (
                Spawning::Tool(c),
                SpawnAction::LookForTool,
            ),
            (Spawning::Tool(c), SpawnEvent::ToolFound) => match c.grpc_port() {
                Some(port) => Spawning::launch(c, port, pid),
                None => (Spawning::Port(c), SpawnAction::FindFreePort),
            },
            (Spawning::Tool(_), SpawnEvent::ToolMissing(path)) => (
                Spawning::Ended,
                SpawnAction::Done(Err(EmulatorError::EmulatorToolNotFound(path))),
            ),
            (Spawning::Port(c), SpawnEvent::FreePort(free)) => {
                let port = match free {
                    Some(port) => port,
                    None => config::DEFAULT_GRPC_PORT,
                };
                let port: u16 = match c.grpc_port() {
                    Some(port) => port,
                    None => port,
                };
                Spawning::launch(c, port, pid)
            },
            (Spawning::Allowlist(launch), SpawnEvent::AllowlistWritten) => {
                let issuer = match &launch.issuer {
                    Some(issuer) => Some(issuer.clone()),
                    None => None,
                };
                (
                    Spawning::Process { grpc_port: launch.grpc_port, issuer },
                    SpawnAction::StartProcess(launch),
                )
            },
            (Spawning::Allowlist(_), SpawnEvent::AllowlistNotSerialized(e)) => (
                Spawning::Ended,
                SpawnAction::Done(
                    Err(
                        EmulatorError::EmulatorStartFailed(
                            joined("Failed to serialize allowlist: ", e.as_str()),
                        ),
                    ),
                ),
            ),
            (Spawning::Allowlist(_), SpawnEvent::AllowlistNotWritten(e)) => (
                Spawning::Ended,
                SpawnAction::Done(Err(EmulatorError::IoError(e))),
            ),
            (Spawning::Process { grpc_port, issuer }, SpawnEvent::ProcessStarted(process)) => (
                Spawning::Await { grpc_port, issuer, process },
                SpawnAction::AwaitEmulator { grpc_port },
            ),
            (Spawning::Process { .. }, SpawnEvent::ProcessNotStarted(e)) => (
                Spawning::Ended,
                SpawnAction::Done(Err(EmulatorError::EmulatorStartFailed(e))),
            ),
            (
                Spawning::Await { grpc_port, issuer, process },
                SpawnEvent::EmulatorFound(found),
            ) => {
                let Discovered { serial, metadata, discovery_path } = found;
                (
                    Spawning::Ended,
                    SpawnAction::Done(
                        Ok(
                            Emulator::spawned(
                                process,
                                serial,
                                grpc_port,
                                metadata,
                                discovery_path,
                                issuer,
                            ),
                        ),
                    ),
                )
            },
            (_, SpawnEvent::HomeMissing(e)) | (_, SpawnEvent::EmulatorNotFound(e)) => (
                Spawning::Ended,
                SpawnAction::Done(Err(e)),
            ),
            _ => vstd::pervasive::unreached(),
        }
    }
}

/// An emulator that was started has the port and the issuer that its process
/// was started with, and owns that process.
pub proof fn law_spawned_as_launched<S, P>(
    s0: Spawning<S, P>,
    event: SpawnEvent<P>,
    pid: u32,
    s1: Spawning<S, P>,
    launch: Launch<S>,
    process: P,
    s2: Spawning<S, P>,
    awaits: SpawnAction<S, P>,
    found: Discovered,
    s3: Spawning<S, P>,
    emulator: Emulator<P>,
)
    requires
        Spawning::spawn_step(s0, event, pid, s1, SpawnAction::StartProcess(launch)),
        Spawning::spawn_step(s1, SpawnEvent::ProcessStarted(process), pid, s2, awaits),
        Spawning::spawn_step(
            s2,
            SpawnEvent::EmulatorFound(found),
            pid,
            s3,
            SpawnAction::Done(Ok(emulator)),
        ),
    ensures
        awaits == (SpawnAction::<S, P>::AwaitEmulator { grpc_port: launch.grpc_port }),
        emulator@.grpc_port == launch.grpc_port,
        emulator@.issuer == emulator::opt_view(launch.issuer),
        emulator@.owned_process == Some(Some(process)),
{
}

/// A process that is to accept tokens of an issuer is started only after the
/// allowlist has been written.
pub proof fn law_allowlist_before_process<S, P>(
    pre: Spawning<S, P>,
    event: SpawnEvent<P>,
    pid: u32,
    post: Spawning<S, P>,
    launch: Launch<S>,
)
    requires
        Spawning::spawn_step(pre, event, pid, post, SpawnAction::StartProcess(launch)),
        launch.issuer is Some,
    ensures
        event is AllowlistWritten,
        pre is Allowlist,
{
}

/// The process is started as the configuration says, on the port that was
/// configured, else on the free one, else on the default. Where a port was
/// configured, it is started once the tool has been found; else once a free
/// port has been looked for.
pub proof fn law_started_as_configured<S, P>(
    config: EmulatorConfig<S>,
    free: Option<u16>,
    pid: u32,
    s0: Spawning<S, P>,
    event: SpawnEvent<P>,
    s1: Spawning<S, P>,
    action1: SpawnAction<S, P>,
    s2: Spawning<S, P>,
    action2: SpawnAction<S, P>,
    launch: Launch<S>,
)
    requires
        (s0 == Spawning::<S, P>::Tool(config) && event is ToolFound) || (s0
            == Spawning::<S, P>::Port(config) && event == SpawnEvent::<P>::FreePort(free)),
        Spawning::spawn_step(s0, event, pid, s1, action1),
        action1 == SpawnAction::<S, P>::StartProcess(launch) || (Spawning::spawn_step(
            s1,
            SpawnEvent::AllowlistWritten,
            pid,
            s2,
            action2,
        ) && action2 == SpawnAction::<S, P>::StartProcess(launch)),
    ensures
        config::arg_views(launch.args@) == config@.args(config@.port(free)),
        launch.grpc_port == config@.port(free),
        launch.stdout == config@.stdout,
        launch.stderr == config@.stderr,
        emulator::opt_view(launch.issuer) == config::issuer_for(
            config@.grpc_auth,
            config@.port(free),
        ),
{
}

/// How many steps a start can still take.
pub open spec fn steps_left<S, P>(state: Spawning<S, P>) -> nat {
    match state {
        Spawning::Home(_) => 6,
        Spawning::Tool(_) => 5,
        Spawning::Port(_) => 4,
        Spawning::Allowlist(_) => 3,
        Spawning::Process { .. } => 2,
        Spawning::Await { .. } => 1,
        Spawning::Ended => 0,
    }
}

/// A start is over after six steps at most, and it is over when and only when
/// nothing is left to do.
pub proof fn law_spawn_ends<S, P>(
    pre: Spawning<S, P>,
    event: SpawnEvent<P>,
    pid: u32,
    post: Spawning<S, P>,
    action: SpawnAction<S, P>,
)
    requires
        Spawning::spawn_step(pre, event, pid, post, action),
    ensures
        steps_left(post) < steps_left(pre),
        post is Ended <==> action is Done,
{
}

/// A start looks for the SDK, then for the tool, then, unless a port was
/// configured, for a free port. It is over with the error where the SDK or the
/// tool is missing. The configuration is not changed on the way.
pub proof fn law_start_prepares<S, P>(
    config: EmulatorConfig<S>,
    pid: u32,
    begun: Spawning<S, P>,
    why: EmulatorError,
    path: String,
    home: (Spawning<S, P>, SpawnAction<S, P>),
    no_home: (Spawning<S, P>, SpawnAction<S, P>),
    tool: (Spawning<S, P>, SpawnAction<S, P>),
    no_tool: (Spawning<S, P>, SpawnAction<S, P>),
)
    requires
        call_ensures(EmulatorConfig::<S>::spawn::<P>, (config,), begun),
        call_ensures(Spawning::<S, P>::step, (begun, SpawnEvent::HomeFound, pid), home),
        call_ensures(Spawning::<S, P>::step, (begun, SpawnEvent::HomeMissing(why), pid), no_home),
        call_ensures(Spawning::<S, P>::step, (home.0, SpawnEvent::ToolFound, pid), tool),
        call_ensures(Spawning::<S, P>::step, (home.0, SpawnEvent::ToolMissing(path), pid), no_tool),
    ensures
        home.1 is LookForTool,
        no_home.0 is Ended && no_home.1 == SpawnAction::<S, P>::Done(Err(why)),
        no_tool.0 is Ended && no_tool.1 == SpawnAction::<S, P>::Done(
            Err(EmulatorError::EmulatorToolNotFound(path)),
        ),
        config@.grpc_port is None ==> tool.0 == Spawning::<S, P>::Port(config)
            && tool.1 is FindFreePort,
        config@.grpc_port is Some && config@.grpc_auth is Jwt ==> tool.1 is WriteAllowlist,
        config@.grpc_port is Some && !(config@.grpc_auth is Jwt) ==> tool.1 is StartProcess,
{
}

/// Once the port is known, the process is started with the command line of the
/// configuration for that port. Where tokens of an issuer are taken, the
/// allowlist is written first, to a file that is named after the process that
/// starts the emulator: the one that was configured, else the default one for
/// the issuer.
pub proof fn law_process_is_started_as_configured<S, P>(
    config: EmulatorConfig<S>,
    pid: u32,
    from: Spawning<S, P>,
    event: SpawnEvent<P>,
    port: u16,
    direct: Launch<S>,
    res: (Spawning<S, P>, SpawnAction<S, P>),
    written: (Spawning<S, P>, SpawnAction<S, P>),
)
    requires
        call_ensures(EmulatorConfig::<S>::launch, (config, port), direct),
        call_ensures(Spawning::<S, P>::step, (from, event, pid), res),
        from == Spawning::<S, P>::Tool(config) && event is ToolFound && config@.grpc_port == Some(
            port,
        ) || from == Spawning::<S, P>::Port(config) && config@.grpc_port is None && (
        event == SpawnEvent::<P>::FreePort(Some(port)) || port == 8554 && event == SpawnEvent::<
            P,
        >::FreePort(None)),
        config@.grpc_auth is Jwt ==> call_ensures(
            Spawning::<S, P>::step,
            (res.0, SpawnEvent::AllowlistWritten, pid),
            written,
        ),
        !(config@.grpc_auth is Jwt) ==> written == res,
    ensures
        written.1 matches SpawnAction::StartProcess(launch) && {
            &&& launch.args@.len() == direct.args@.len()
            &&& forall|i: int|
                0 <= i < launch.args@.len() ==> (#[trigger] launch.args@[i])@ == direct.args@[i]@
            &&& launch.grpc_port == port
            &&& launch.stdout == config@.stdout
            &&& launch.stderr == config@.stderr
            &&& launch.issuer is Some <==> config@.grpc_auth is Jwt
            &&& written.0 matches Spawning::Process { grpc_port, issuer } && grpc_port == port
                && emulator::opt_view(issuer) == emulator::opt_view(launch.issuer)
            &&& config@.grpc_auth matches config::GrpcAuthConfig::Jwt { issuer: Some(given) } ==> (
            launch.issuer matches Some(issuer) && issuer@ == given@)
            &&& config@.grpc_auth matches config::GrpcAuthConfig::Jwt { issuer: None } ==> (
            launch.issuer matches Some(issuer) && issuer@ == "emulator-"@ + text::decimal(
                port as nat,
            ))
        },
        config@.grpc_auth is Jwt ==> (res.1 matches SpawnAction::WriteAllowlist {
            file_name,
            allowlist,
        } && {
            &&& file_name@ == "emulator-allowlist-"@ + text::decimal(pid as nat) + ".json"@
            &&& config@.grpc_allowlist matches Some(given) ==> allowlist == given
            &&& config@.grpc_allowlist is None ==> {
                &&& config@.grpc_auth matches config::GrpcAuthConfig::Jwt { issuer: Some(given) }
                    ==> auth::allows_two(allowlist, given@)
                &&& config@.grpc_auth matches config::GrpcAuthConfig::Jwt { issuer: None }
                    ==> auth::allows_two(allowlist, "emulator-"@ + text::decimal(port as nat))
            }
        }),
{
    if config@.grpc_auth is Jwt && config@.grpc_allowlist is None {
        if let SpawnAction::WriteAllowlist { allowlist, .. } = res.1 {
            auth::lemma_allows_two(allowlist, config::issuer_for(config@.grpc_auth, port)->0);
        }
    }
    if let SpawnAction::StartProcess(launch) = written.1 {
        assert(config::arg_views(launch.args@) == config::arg_views(direct.args@));
        assert(config::arg_views(launch.args@).len() == launch.args@.len());
        assert(config::arg_views(direct.args@).len() == direct.args@.len());
        assert forall|i: int| 0 <= i < launch.args@.len() implies (#[trigger] launch.args@[i])@
            == direct.args@[i]@ by {
            assert(config::arg_views(launch.args@)[i] == launch.args@[i]@);
            assert(config::arg_views(direct.args@)[i] == direct.args@[i]@);
        }
    }
}

/// A process that runs is waited for on its port; the emulator that appears is
/// owned, with that process, that port and that issuer, and is otherwise as it
/// was found. Each failure on the way is the error that comes out.
pub proof fn law_started_emulator_is_as_found<S, P>(
    grpc_port: u16,
    issuer: Option<String>,
    process: P,
    pid: u32,
    why: String,
    failure: EmulatorError,
    found: Discovered,
    started: (Spawning<S, P>, SpawnAction<S, P>),
    not_started: (Spawning<S, P>, SpawnAction<S, P>),
    appeared: (Spawning<S, P>, SpawnAction<S, P>),
    not_appeared: (Spawning<S, P>, SpawnAction<S, P>),
)
    requires
        call_ensures(
            Spawning::<S, P>::step,
            (Spawning::Process { grpc_port, issuer }, SpawnEvent::ProcessStarted(process), pid),
            started,
        ),
        call_ensures(
            Spawning::<S, P>::step,
            (Spawning::Process { grpc_port, issuer }, SpawnEvent::ProcessNotStarted(why), pid),
            not_started,
        ),
        call_ensures(
            Spawning::<S, P>::step,
            (started.0, SpawnEvent::EmulatorFound(found), pid),
            appeared,
        ),
        call_ensures(
            Spawning::<S, P>::step,
            (started.0, SpawnEvent::EmulatorNotFound(failure), pid),
            not_appeared,
        ),
    ensures
        started.1 == (SpawnAction::<S, P>::AwaitEmulator { grpc_port }),
        not_started.0 is Ended && not_started.1 == SpawnAction::<S, P>::Done(
            Err(EmulatorError::EmulatorStartFailed(why)),
        ),
        not_appeared.0 is Ended && not_appeared.1 == SpawnAction::<S, P>::Done(Err(failure)),
        appeared.0 is Ended,
        appeared.1 matches SpawnAction::Done(Ok(e)) && {
            &&& e@.owned_process == Some(Some(process))
            &&& e@.grpc_port == grpc_port
            &&& e@.serial == found.serial@
            &&& e@.discovery_path == found.discovery_path
            &&& e@.metadata == ini::values(found.metadata@)
            &&& issuer matches Some(i) ==> e@.issuer == Some(i@)
            &&& issuer is None ==> e@.issuer is None
        },
{
}

/// An allowlist that cannot be written as text, or to its file, is the end.
pub proof fn law_allowlist_failures<S, P>(
    launch: Launch<S>,
    pid: u32,
    why: String,
    not_serialized: (Spawning<S, P>, SpawnAction<S, P>),
    not_written: (Spawning<S, P>, SpawnAction<S, P>),
)
    requires
        call_ensures(
            Spawning::<S, P>::step,
            (Spawning::Allowlist(launch), SpawnEvent::AllowlistNotSerialized(why), pid),
            not_serialized,
        ),
        call_ensures(
            Spawning::<S, P>::step,
            (Spawning::Allowlist(launch), SpawnEvent::AllowlistNotWritten(why), pid),
            not_written,
        ),
    ensures
        not_serialized.0 is Ended,
        not_serialized.1 matches SpawnAction::Done(Err(EmulatorError::EmulatorStartFailed(m))) && m@
            == "Failed to serialize allowlist: "@ + why@,
        not_written.0 is Ended && not_written.1 == SpawnAction::<S, P>::Done(
            Err(EmulatorError::IoError(why)),
        ),
{
}

} // verus!
