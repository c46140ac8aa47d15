//! How an emulator is to be started: the configuration, and the command line
//! that it gives.

use vstd::prelude::*;

use crate::auth::{self, GrpcAllowlist};
use crate::text::{self, decimal_of};
use crate::time::{Duration, NANOS_PER_SEC};

verus! {

/// The port that is tried first, and taken where no free port can be found.
pub const DEFAULT_GRPC_PORT: u16 = 8554;

/// gRPC authentication configuration for the emulator
#[derive(Debug)]
pub enum GrpcAuthConfig {
    /// No authentication required
    NoAuth,
    /// Basic authentication using console auth token as bearer token
    Basic,
    /// JWKS + JWT authentication
    Jwt {
        /// Issuer identifier. If None, will be derived from the port as "emulator-{port}"
        issuer: Option<String>,
    },
}

impl Default for GrpcAuthConfig {
    fn default() -> (res: Self)
        ensures
            res == (GrpcAuthConfig::Jwt { issuer: None }),
    {
        GrpcAuthConfig::Jwt { issuer: None }
    }
}

impl Clone for GrpcAuthConfig {
    fn clone(&self) -> (res: Self)
        ensures
            res == *self,
    {
        match self {
            GrpcAuthConfig::NoAuth => GrpcAuthConfig::NoAuth,
            GrpcAuthConfig::Basic => GrpcAuthConfig::Basic,
            GrpcAuthConfig::Jwt { issuer: None } => GrpcAuthConfig::Jwt { issuer: None },
            GrpcAuthConfig::Jwt { issuer: Some(issuer) } => GrpcAuthConfig::Jwt {
                issuer: Some(issuer.clone()),
            },
        }
    }
}

/// Configuration for starting an Android emulator. `S` is what the output of
/// the process can be redirected to.
#[derive(Debug)]
pub struct EmulatorConfig<S> {
    avd_name: String,
    grpc_port: Option<u16>,
    grpc_auth: GrpcAuthConfig,
    no_window: bool,
    no_snapshot_load: bool,
    no_snapshot_save: bool,
    no_boot_anim: bool,
    no_acceleration: bool,
    dalvik_vm_check_jni: bool,
    read_only: bool,
    quit_after_boot: Option<Duration>,
    extra_args: Vec<String>,
    grpc_allowlist: Option<GrpcAllowlist>,
    stdout: Option<S>,
    stderr: Option<S>,
}

/// What a configuration says.
pub ghost struct ConfigView<S> {
    /// Name of the AVD to start.
    pub avd_name: Seq<char>,
    /// gRPC port. If None, a free port will be automatically selected.
    pub grpc_port: Option<u16>,
    /// gRPC authentication configuration
    pub grpc_auth: GrpcAuthConfig,
    /// Whether the emulator window is hidden
    pub no_window: bool,
    /// Whether no snapshot is loaded on startup
    pub no_snapshot_load: bool,
    /// Whether no snapshot is saved on exit
    pub no_snapshot_save: bool,
    /// Whether the boot animation is left out
    pub no_boot_anim: bool,
    /// Whether hardware acceleration is disabled
    pub no_acceleration: bool,
    /// Whether the -dalvik-vm-checkjni flag is passed
    pub dalvik_vm_check_jni: bool,
    /// Whether several instances of the AVD can run
    pub read_only: bool,
    /// How long after it has booted the emulator quits
    pub quit_after_boot: Option<Duration>,
    /// Additional command-line arguments
    pub extra_args: Seq<Seq<char>>,
    /// Custom allowlist configuration for JWT authentication
    pub grpc_allowlist: Option<GrpcAllowlist>,
    /// Stdout redirect configuration
    pub stdout: Option<S>,
    /// Stderr redirect configuration
    pub stderr: Option<S>,
}

impl<S> View for EmulatorConfig<S> {
    type V = ConfigView<S>;

    closed spec fn view(&self) -> ConfigView<S> {
        ConfigView {
            avd_name: self.avd_name@,
            grpc_port: self.grpc_port,
            grpc_auth: self.grpc_auth,
            no_window: self.no_window,
            no_snapshot_load: self.no_snapshot_load,
            no_snapshot_save: self.no_snapshot_save,
            no_boot_anim: self.no_boot_anim,
            no_acceleration: self.no_acceleration,
            dalvik_vm_check_jni: self.dalvik_vm_check_jni,
            read_only: self.read_only,
            quit_after_boot: self.quit_after_boot,
            extra_args: text::views(self.extra_args@),
            grpc_allowlist: self.grpc_allowlist,
            stdout: self.stdout,
            stderr: self.stderr,
        }
    }
}

impl<S> EmulatorConfig<S> {
    /// Create a new config with a specific AVD name
    pub fn new(avd_name: String) -> (res: Self)
        ensures
            res@ == (ConfigView::<S> {
                avd_name: avd_name@,
                grpc_port: None,
                grpc_auth: GrpcAuthConfig::Jwt { issuer: None },
                no_window: true,
                no_snapshot_load: false,
                no_snapshot_save: false,
                no_boot_anim: false,
                no_acceleration: false,
                dalvik_vm_check_jni: false,
                read_only: false,
                quit_after_boot: None,
                extra_args: seq![],
                grpc_allowlist: None,
                stdout: None,
                stderr: None,
            }),
    {
        let res = EmulatorConfig {
            avd_name,
            grpc_port: None,
            grpc_auth: GrpcAuthConfig::default(),
            no_window: true,
            no_snapshot_load: false,
            no_snapshot_save: false,
            no_boot_anim: false,
            no_acceleration: false,
            dalvik_vm_check_jni: false,
            read_only: false,
            quit_after_boot: None,
            extra_args: Vec::new(),
            grpc_allowlist: None,
            stdout: None,
            stderr: None,
        };
        assert(text::views(res.extra_args@) =~= seq![]);
        res
    }

    /// Get the AVD name that was specified
    pub fn avd_id(&self) -> (res: &str)
        ensures
            res@ == self@.avd_name,
    {
        self.avd_name.as_str()
    }

    /// Configure gRPC authentication
    pub fn with_grpc_auth(self, auth: GrpcAuthConfig) -> (res: Self)
        ensures
            res@ == (ConfigView { grpc_auth: auth, ..self@ }),
    {
        EmulatorConfig { grpc_auth: auth, ..self }
    }

    /// Set the gRPC port
    ///
    /// If not specified, a free port will be automatically selected.
    pub fn with_grpc_port(self, port: u16) -> (res: Self)
        ensures
            res@ == (ConfigView { grpc_port: Some(port), ..self@ }),
    {
        EmulatorConfig { grpc_port: Some(port), ..self }
    }

    /// Configure whether to show the emulator window
    ///
    /// Default is false (headless). Set to true to show the window.
    pub fn with_window(self, show: bool) -> (res: Self)
        ensures
            res@ == (ConfigView { no_window: !show, ..self@ }),
    {
        EmulatorConfig { no_window: !show, ..self }
    }

    /// Configure whether to load snapshots
    ///
    /// Default is true (load snapshots). Set to false to disable snapshot
    /// loading on startup.
    pub fn with_snapshot_load(self, load: bool) -> (res: Self)
        ensures
            res@ == (ConfigView { no_snapshot_load: !load, ..self@ }),
    {
        EmulatorConfig { no_snapshot_load: !load, ..self }
    }

    /// Configure whether to save snapshots on exit
    ///
    /// Default is true (save snapshots). Set to false to disable snapshot
    /// saving on exit.
    pub fn with_snapshot_save(self, save: bool) -> (res: Self)
        ensures
            res@ == (ConfigView { no_snapshot_save: !save, ..self@ }),
    {
        EmulatorConfig { no_snapshot_save: !save, ..self }
    }

    /// Configure whether to show the boot animation
    ///
    /// Default is true (show boot animation). Set to false to disable the boot
    /// animation for faster startup.
    pub fn with_boot_animation(self, show: bool) -> (res: Self)
        ensures
            res@ == (ConfigView { no_boot_anim: !show, ..self@ }),
    {
        EmulatorConfig { no_boot_anim: !show, ..self }
    }

    /// Configure whether to disable hardware acceleration (e.g., for running in
    /// CI without KVM)
    ///
    /// Default is false (use hardware acceleration if available). Set to true
    /// to disable hardware acceleration.
    pub fn with_acceleration(self, disable: bool) -> (res: Self)
        ensures
            res@ == (ConfigView { no_acceleration: disable, ..self@ }),
    {
        EmulatorConfig { no_acceleration: disable, ..self }
    }

    /// Configure whether to pass -dalvik-vm-checkjni flag to the emulator
    ///
    /// This can be useful for testing JNI-related functionality and catching
    /// errors early. Default is false (don't check JNI). Set to true to enable
    /// JNI checking.
    pub fn with_dalvik_vm_check_jni(self, enable: bool) -> (res: Self)
        ensures
            res@ == (ConfigView { dalvik_vm_check_jni: enable, ..self@ }),
    {
        EmulatorConfig { dalvik_vm_check_jni: enable, ..self }
    }

    /// Configure whether to allow running multiple instances of the same AVD
    /// (without support for snapshots)
    ///
    /// Default is false (don't allow multiple instances). Set to true to allow
    /// multiple instances of the same AVD, but note that snapshots will not
    /// work in this mode.
    pub fn with_read_only(self, read_only: bool) -> (res: Self)
        ensures
            res@ == (ConfigView { read_only, ..self@ }),
    {
        EmulatorConfig { read_only, ..self }
    }

    /// Configure the emulator to automatically quit after it has booted and
    /// been idle for the specified duration (for testing purposes)
    ///
    /// Default is None (don't quit automatically). Set to Some(duration) to
    /// enable this behavior.
    pub fn with_quit_after_boot(self, duration: Option<Duration>) -> (res: Self)
        ensures
            res@ == (ConfigView { quit_after_boot: duration, ..self@ }),
    {
        EmulatorConfig { quit_after_boot: duration, ..self }
    }

    /// Set additional command-line arguments, in place of any set before
    pub fn with_extra_args(self, args: Vec<String>) -> (res: Self)
        ensures
            res@ == (ConfigView { extra_args: text::views(args@), ..self@ }),
    {
        EmulatorConfig { extra_args: args, ..self }
    }

    /// Set a custom gRPC allowlist configuration for JWT authentication
    ///
    /// If you don't specify a custom allowlist, a default one will be generated
    /// using [`GrpcAllowlist::default_for_issuer`].
    pub fn with_grpc_allowlist(self, allowlist: GrpcAllowlist) -> (res: Self)
        ensures
            res@ == (ConfigView { grpc_allowlist: Some(allowlist), ..self@ }),
    {
        EmulatorConfig { grpc_allowlist: Some(allowlist), ..self }
    }

    /// Configure stdout for the emulator process
    pub fn stdout(self, cfg: S) -> (res: Self)
        ensures
            res@ == (ConfigView { stdout: Some(cfg), ..self@ }),
    {
        EmulatorConfig { stdout: Some(cfg), ..self }
    }

    /// Configure stderr for the emulator process
    pub fn stderr(self, cfg: S) -> (res: Self)
        ensures
            res@ == (ConfigView { stderr: Some(cfg), ..self@ }),
    {
        EmulatorConfig { stderr: Some(cfg), ..self }
    }
}

/// An argument of the emulator's command line.
#[derive(Debug)]
pub enum LaunchArg {
    Text(String),
    /// The path of the file that holds the allowlist.
    AllowlistPath,
}

impl View for LaunchArg {
    type V = Option<Seq<char>>;

    /// The text, or nothing for the path of the allowlist file.
    open spec fn view(&self) -> Option<Seq<char>> {
        match self {
            LaunchArg::Text(text) => Some(text@),
            LaunchArg::AllowlistPath => None,
        }
    }
}

/// The texts as arguments.
pub open spec fn as_args(texts: Seq<Seq<char>>) -> Seq<Option<Seq<char>>> {
    texts.map_values(|t: Seq<char>| Some(t))
}

/// What each argument is.
pub open spec fn arg_views(args: Seq<LaunchArg>) -> Seq<Option<Seq<char>>> {
    args.map_values(|a: LaunchArg| a@)
}

/// The texts, where they are wanted.
pub open spec fn only_if(wanted: bool, texts: Seq<Seq<char>>) -> Seq<Seq<char>> {
    if wanted {
        texts
    } else {
        seq![]
    }
}

/// The issuer of the tokens that an emulator on `port` accepts.
pub open spec fn issuer_for(auth: GrpcAuthConfig, port: u16) -> Option<Seq<char>> {
    match auth {
        GrpcAuthConfig::Jwt { issuer: Some(issuer) } => Some(issuer@),
        GrpcAuthConfig::Jwt { issuer: None } => Some("emulator-"@ + text::decimal(port as nat)),
        _ => None,
    }
}

impl<S> ConfigView<S> {
    /// The arguments that come before those on authentication.
    pub open spec fn basic_args(self, port: u16) -> Seq<Seq<char>> {
        seq!["-avd"@, self.avd_name] + only_if(self.no_window, seq!["-no-window"@]) + only_if(
            self.no_snapshot_load,
            seq!["-no-snapshot-load"@],
        ) + only_if(self.no_snapshot_save, seq!["-no-snapshot-save"@]) + only_if(
            self.no_acceleration,
            seq!["-accel"@, "off"@],
        ) + only_if(self.no_boot_anim, seq!["-no-boot-anim"@]) + only_if(
            self.dalvik_vm_check_jni,
            seq!["-dalvik-vm-checkjni"@],
        ) + only_if(self.read_only, seq!["-read-only"@]) + (match self.quit_after_boot {
            Some(after) => seq!["-quit-after-boot"@, text::decimal(after.spec_secs() as nat)],
            None => seq![],
        }) + seq!["-grpc"@, text::decimal(port as nat)]
    }

    /// The arguments on authentication.
    pub open spec fn auth_args(self) -> Seq<Option<Seq<char>>> {
        match self.grpc_auth {
            GrpcAuthConfig::NoAuth => seq![],
            GrpcAuthConfig::Basic => seq![Some("-grpc-use-token"@)],
            GrpcAuthConfig::Jwt { .. } => seq![
                Some("-grpc-allowlist"@),
                None,
                Some("-grpc-use-jwt"@),
            ],
        }
    }

    /// The whole command line.
    pub open spec fn args(self, port: u16) -> Seq<Option<Seq<char>>> {
        as_args(self.basic_args(port)) + self.auth_args() + as_args(self.extra_args)
    }

    /// Whether `allowlist` is what the emulator is to be given: the one that
    /// was configured, else the default one for the issuer. Only an emulator
    /// that takes tokens of an issuer is given one.
    pub open spec fn is_allowlist(self, port: u16, allowlist: Option<GrpcAllowlist>) -> bool {
        match issuer_for(self.grpc_auth, port) {
            None => allowlist is None,
            Some(issuer) => match self.grpc_allowlist {
                Some(given) => allowlist == Some(given),
                None => allowlist matches Some(a) && a.is_default_for(issuer),
            },
        }
    }

    /// The port that the emulator is told to use: the one that was configured,
    /// else the free one that was found, else the default.
    pub open spec fn port(self, free: Option<u16>) -> u16 {
        match (self.grpc_port, free) {
            (Some(port), _) => port,
            (None, Some(port)) => port,
            (None, None) => DEFAULT_GRPC_PORT,
        }
    }
}

/// What is needed to start the process: the command line, what its output is
/// redirected to, and the issuer and the allowlist for tokens. Output that is
/// not redirected is forwarded to the log.
pub struct Launch<S> {
    pub args: Vec<LaunchArg>,
    pub stdout: Option<S>,
    pub stderr: Option<S>,
    pub grpc_port: u16,
    pub issuer: Option<String>,
    pub allowlist: Option<GrpcAllowlist>,
}

impl<S> Launch<S> {
    /// Whether this is how the configuration is started on `port`.
    pub open spec fn starts(self, config: ConfigView<S>, port: u16) -> bool {
        &&& arg_views(self.args@) == config.args(port)
        &&& self.stdout == config.stdout
        &&& self.stderr == config.stderr
        &&& self.grpc_port == port
        &&& match self.issuer {
            Some(issuer) => issuer_for(config.grpc_auth, port) == Some(issuer@),
            None => issuer_for(config.grpc_auth, port) is None,
        }
        &&& config.is_allowlist(port, self.allowlist)
    }
}

fn push_text(args: &mut Vec<LaunchArg>, text: &str)
    ensures
        arg_views(final(args)@) == arg_views(old(args)@).push(Some(text@)),
{
    args.push(LaunchArg::Text(text.to_owned()));
    assert(arg_views(args@) =~= arg_views(old(args)@).push(Some(text@)));
}

/// Adds `text`, where it is wanted, to arguments that so far are `done`.
fn push_if(args: &mut Vec<LaunchArg>, Ghost(done): Ghost<Seq<Seq<char>>>, wanted: bool, text: &str)
    requires
        arg_views(old(args)@) == as_args(done),
    ensures
        arg_views(final(args)@) == as_args(done + only_if(wanted, seq![text@])),
{
    if wanted {
        push_text(args, text);
    }
    assert(arg_views(args@) =~= as_args(done + only_if(wanted, seq![text@])));
}

/// Adds `option` and its `value`, where they are wanted, to arguments that so
/// far are `done`.
fn push_option_if(
    args: &mut Vec<LaunchArg>,
    Ghost(done): Ghost<Seq<Seq<char>>>,
    wanted: bool,
    option: &str,
    value: &str,
)
    requires
        arg_views(old(args)@) == as_args(done),
    ensures
        arg_views(final(args)@) == as_args(done + only_if(wanted, seq![option@, value@])),
{
    if wanted {
        push_text(args, option);
        push_text(args, value);
    }
    assert(arg_views(args@) =~= as_args(done + only_if(wanted, seq![option@, value@])));
}

proof fn lemma_as_args_concat(a: Seq<Seq<char>>, b: Seq<Seq<char>>)
    ensures
        as_args(a + b) == as_args(a) + as_args(b),
{
    assert(as_args(a + b) =~= as_args(a) + as_args(b));
}

impl<S> EmulatorConfig<S> {
    /// The port that was configured, if one was.
    pub fn grpc_port(&self) -> (res: Option<u16>)
        ensures
            res == self@.grpc_port,
    {
        self.grpc_port
    }

    /// The arguments that come before those on authentication.
    fn basic_args(&self, port: u16) -> (res: Vec<LaunchArg>)
        ensures
            arg_views(res@) == as_args(self@.basic_args(port)),
    {
        let mut args: Vec<LaunchArg> = Vec::new();
        args.push(LaunchArg::Text("-avd".to_owned()));
        args.push(LaunchArg::Text(self.avd_name.clone()));
        let ghost c = self@;
        let ghost d0 = seq!["-avd"@, c.avd_name];
        assert(arg_views(args@) =~= as_args(d0));
        push_if(&mut args, Ghost(d0), self.no_window, "-no-window");
        let ghost d1 = d0 + only_if(c.no_window, seq!["-no-window"@]);
        push_if(&mut args, Ghost(d1), self.no_snapshot_load, "-no-snapshot-load");
        let ghost d2 = d1 + only_if(c.no_snapshot_load, seq!["-no-snapshot-load"@]);
        push_if(&mut args, Ghost(d2), self.no_snapshot_save, "-no-snapshot-save");
        let ghost d3 = d2 + only_if(c.no_snapshot_save, seq!["-no-snapshot-save"@]);
        push_option_if(&mut args, Ghost(d3), self.no_acceleration, "-accel", "off");
        let ghost d4 = d3 + only_if(c.no_acceleration, seq!["-accel"@, "off"@]);
        push_if(&mut args, Ghost(d4), self.no_boot_anim, "-no-boot-anim");
        let ghost d5 = d4 + only_if(c.no_boot_anim, seq!["-no-boot-anim"@]);
        push_if(&mut args, Ghost(d5), self.dalvik_vm_check_jni, "-dalvik-vm-checkjni");
        let ghost d6 = d5 + only_if(c.dalvik_vm_check_jni, seq!["-dalvik-vm-checkjni"@]);
        push_if(&mut args, Ghost(d6), self.read_only, "-read-only");
        let ghost d7 = d6 + only_if(c.read_only, seq!["-read-only"@]);
        let ghost mut quit: Seq<Seq<char>> = seq![];
        match self.quit_after_boot {
            Some(after) => {
                let secs = decimal_of(after.as_secs());
                push_option_if(&mut args, Ghost(d7), true, "-quit-after-boot", secs.as_str());
                proof {
                    quit = seq!["-quit-after-boot"@, text::decimal(after.spec_secs() as nat)];
                }
            },
            None => {
                assert(d7 + quit =~= d7);
            },
        }
        let ghost d8 = d7 + quit;
        push_option_if(&mut args, Ghost(d8), true, "-grpc", decimal_of(port as u64).as_str());
        args
    }

    /// How the emulator is started on `port`.
    pub fn launch(self, port: u16) -> (res: Launch<S>)
        ensures
            res.starts(self@, port),
    {
        let mut args = self.basic_args(port);
        let ghost before = arg_views(args@);
        let ghost config = self@;
        let issuer = match self.grpc_auth {
            GrpcAuthConfig::NoAuth => None,
            GrpcAuthConfig::Basic => {
                args.push(LaunchArg::Text("-grpc-use-token".to_owned()));
                None
            },
            GrpcAuthConfig::Jwt { issuer } => {
                args.push(LaunchArg::Text("-grpc-allowlist".to_owned()));
                args.push(LaunchArg::AllowlistPath);
                args.push(LaunchArg::Text("-grpc-use-jwt".to_owned()));
                match issuer {
                    Some(issuer) => Some(issuer),
                    None => {
                        let mut issuer = "emulator-".to_owned();
                        issuer.append(decimal_of(port as u64).as_str());
                        Some(issuer)
                    },
                }
            },
        };
        assert(arg_views(args@) =~= before + config.auth_args());
        let allowlist = match &issuer {
            None => None,
            Some(issuer) => match self.grpc_allowlist {
                Some(given) => Some(given),
                None => Some(GrpcAllowlist::default_for_issuer(issuer.as_str())),
            },
        };
        let ghost before = arg_views(args@);
        for i in 0..self.extra_args.len()
            invariant
                arg_views(args@) == before + as_args(text::views(self.extra_args@).take(i as int)),
        {
            let ghost all = text::views(self.extra_args@);
            push_text(&mut args, self.extra_args[i].as_str());
            assert(all.take(i + 1) =~= all.take(i as int) + seq![all[i as int]]);
            proof {
                lemma_as_args_concat(all.take(i as int), seq![all[i as int]]);
            }
            assert(arg_views(args@) =~= before + as_args(all.take(i + 1)));
        }
        assert(config.extra_args.take(config.extra_args.len() as int) =~= config.extra_args);
        Launch { args, stdout: self.stdout, stderr: self.stderr, grpc_port: port, issuer, allowlist }
    }
}

/// The command line names the port, in digits that are read back as it.
pub proof fn law_port_is_passed<S>(config: ConfigView<S>, port: u16)
    ensures
        exists|i: int|
            #![trigger config.args(port)[i]]
            {
                &&& 0 <= i < config.args(port).len() - 1
                &&& config.args(port)[i] == Some("-grpc"@)
                &&& config.args(port)[i + 1] matches Some(digits) && text::parse_u16(digits)
                    == Some(port)
            },
{
    let basic = config.basic_args(port);
    let i = basic.len() - 2;
    text::law_port_round_trip(port);
    assert(basic[i] == "-grpc"@);
    assert(basic[i + 1] == text::decimal(port as nat));
    assert(config.args(port)[i] == Some("-grpc"@));
    assert(config.args(port)[i + 1] == Some(text::decimal(port as nat)));
}

/// The extra arguments come last, in their order.
pub proof fn law_extra_args_come_last<S>(config: ConfigView<S>, port: u16)
    ensures
        config.args(port).len() >= config.extra_args.len(),
        config.args(port).skip(config.args(port).len() - config.extra_args.len()) == as_args(
            config.extra_args,
        ),
{
    assert(config.args(port).skip(config.args(port).len() - config.extra_args.len()) =~= as_args(
        config.extra_args,
    ));
}

/// The command line of a configuration to which nothing was added: headless,
/// with tokens of the issuer `emulator-` and the port.
pub proof fn law_default_command_line<S>(config: EmulatorConfig<S>, name: Seq<char>, port: u16)
    requires
        config@ == (ConfigView::<S> {
            avd_name: name,
            grpc_port: None,
            grpc_auth: GrpcAuthConfig::Jwt { issuer: None },
            no_window: true,
            no_snapshot_load: false,
            no_snapshot_save: false,
            no_boot_anim: false,
            no_acceleration: false,
            dalvik_vm_check_jni: false,
            read_only: false,
            quit_after_boot: None,
            extra_args: seq![],
            grpc_allowlist: None,
            stdout: None,
            stderr: None,
        }),
    ensures
        config@.args(port) == seq![
            Some("-avd"@),
            Some(name),
            Some("-no-window"@),
            Some("-grpc"@),
            Some(text::decimal(port as nat)),
            Some("-grpc-allowlist"@),
            None,
            Some("-grpc-use-jwt"@),
        ],
        issuer_for(config@.grpc_auth, port) == Some("emulator-"@ + text::decimal(port as nat)),
{
    let basic = seq!["-avd"@, name, "-no-window"@, "-grpc"@, text::decimal(port as nat)];
    assert(config@.basic_args(port) =~= basic);
    assert(config@.args(port) =~= as_args(basic) + config@.auth_args());
}

/// Whether `text` is one of the first `upto` arguments, other than the name of
/// the AVD, which is the second.
pub open spec fn passes(args: Seq<LaunchArg>, upto: int, text: Seq<char>) -> bool {
    exists|i: int|
        0 <= i < upto && i != 1 && ((#[trigger] args[i]) matches LaunchArg::Text(t) && t@ == text)
}

/// Whether the argument is `text`.
pub open spec fn is_arg(arg: LaunchArg, text: Seq<char>) -> bool {
    arg matches LaunchArg::Text(t) && t@ == text
}

/// One for what is wanted, nothing for what is not.
spec fn one_if(wanted: bool) -> int {
    if wanted {
        1
    } else {
        0
    }
}

/// Where the arguments begin that follow the `k`th of those which a
/// configuration may leave out.
#[verifier::opaque]
spec fn piece<S>(c: ConfigView<S>, k: int) -> int {
    let p1 = 2 + one_if(c.no_window);
    let p2 = p1 + one_if(c.no_snapshot_load);
    let p3 = p2 + one_if(c.no_snapshot_save);
    let p4 = p3 + 2 * one_if(c.no_acceleration);
    let p5 = p4 + one_if(c.no_boot_anim);
    let p6 = p5 + one_if(c.dalvik_vm_check_jni);
    let p7 = p6 + one_if(c.read_only);
    let p8 = p7 + 2 * one_if(c.quit_after_boot is Some);
    if k == 0 {
        2
    } else if k == 1 {
        p1
    } else if k == 2 {
        p2
    } else if k == 3 {
        p3
    } else if k == 4 {
        p4
    } else if k == 5 {
        p5
    } else if k == 6 {
        p6
    } else if k == 7 {
        p7
    } else {
        p8
    }
}

proof fn lemma_pieces<S>(c: ConfigView<S>)
    ensures
        piece(c, 0) == 2,
        piece(c, 1) == piece(c, 0) + one_if(c.no_window),
        piece(c, 2) == piece(c, 1) + one_if(c.no_snapshot_load),
        piece(c, 3) == piece(c, 2) + one_if(c.no_snapshot_save),
        piece(c, 4) == piece(c, 3) + 2 * one_if(c.no_acceleration),
        piece(c, 5) == piece(c, 4) + one_if(c.no_boot_anim),
        piece(c, 6) == piece(c, 5) + one_if(c.dalvik_vm_check_jni),
        piece(c, 7) == piece(c, 6) + one_if(c.read_only),
        piece(c, 8) == piece(c, 7) + 2 * one_if(c.quit_after_boot is Some),
{
    reveal(piece);
}

/// The argument at `i`.
spec fn basic_at<S>(c: ConfigView<S>, port: u16, i: int) -> Seq<char> {
    if i == 0 {
        "-avd"@
    } else if i == 1 {
        c.avd_name
    } else if i < piece(c, 1) {
        "-no-window"@
    } else if i < piece(c, 2) {
        "-no-snapshot-load"@
    } else if i < piece(c, 3) {
        "-no-snapshot-save"@
    } else if i < piece(c, 4) {
        if i == piece(c, 3) {
            "-accel"@
        } else {
            "off"@
        }
    } else if i < piece(c, 5) {
        "-no-boot-anim"@
    } else if i < piece(c, 6) {
        "-dalvik-vm-checkjni"@
    } else if i < piece(c, 7) {
        "-read-only"@
    } else if i < piece(c, 8) {
        if i == piece(c, 7) {
            "-quit-after-boot"@
        } else {
            text::decimal(c.quit_after_boot->0.spec_secs() as nat)
        }
    } else if i == piece(c, 8) {
        "-grpc"@
    } else {
        text::decimal(port as nat)
    }
}

proof fn lemma_grow(d: Seq<Seq<char>>, more: Seq<Seq<char>>, at: spec_fn(int) -> Seq<char>)
    requires
        forall|i: int| 0 <= i < d.len() ==> #[trigger] d[i] == at(i),
        forall|j: int| 0 <= j < more.len() ==> #[trigger] more[j] == at(d.len() + j),
    ensures
        forall|i: int| 0 <= i < (d + more).len() ==> #[trigger] (d + more)[i] == at(i),
{
    assert forall|i: int| 0 <= i < (d + more).len() implies #[trigger] (d + more)[i] == at(i) by {
        if i >= d.len() {
            assert(more[i - d.len()] == at(i));
        } else {
            assert(d[i] == at(i));
        }
    }
}

/// Arguments that so far are `d`, up to the `k`th piece, go on with `more`.
proof fn lemma_piece<S>(
    c: ConfigView<S>,
    port: u16,
    d: Seq<Seq<char>>,
    more: Seq<Seq<char>>,
    k: int,
)
    requires
        0 <= k < 8,
        d.len() == piece(c, k),
        forall|i: int| 0 <= i < d.len() ==> #[trigger] d[i] == basic_at(c, port, i),
        more == (if k == 0 {
            only_if(c.no_window, seq!["-no-window"@])
        } else if k == 1 {
            only_if(c.no_snapshot_load, seq!["-no-snapshot-load"@])
        } else if k == 2 {
            only_if(c.no_snapshot_save, seq!["-no-snapshot-save"@])
        } else if k == 3 {
            only_if(c.no_acceleration, seq!["-accel"@, "off"@])
        } else if k == 4 {
            only_if(c.no_boot_anim, seq!["-no-boot-anim"@])
        } else if k == 5 {
            only_if(c.dalvik_vm_check_jni, seq!["-dalvik-vm-checkjni"@])
        } else if k == 6 {
            only_if(c.read_only, seq!["-read-only"@])
        } else {
            match c.quit_after_boot {
                Some(after) => seq!["-quit-after-boot"@, text::decimal(after.spec_secs() as nat)],
                None => seq![],
            }
        }),
    ensures
        (d + more).len() == piece(c, k + 1),
        forall|i: int|
            0 <= i < (d + more).len() ==> #[trigger] (d + more)[i] == basic_at(c, port, i),
{
    lemma_pieces(c);
    let at = |i: int| basic_at(c, port, i);
    assert forall|j: int| 0 <= j < more.len() implies #[trigger] more[j] == at(d.len() + j) by {
        assert(more[j] == basic_at(c, port, piece(c, k) + j));
    }
    assert forall|i: int| 0 <= i < d.len() implies #[trigger] d[i] == at(i) by {}
    lemma_grow(d, more, at);
    assert forall|i: int| 0 <= i < (d + more).len() implies #[trigger] (d + more)[i] == basic_at(
        c,
        port,
        i,
    ) by {
        assert((d + more)[i] == at(i));
    }
}

proof fn lemma_basic_at<S>(c: ConfigView<S>, port: u16)
    ensures
        c.basic_args(port).len() == piece(c, 8) + 2,
        forall|i: int|
            0 <= i < piece(c, 8) + 2 ==> #[trigger] c.basic_args(port)[i] == basic_at(c, port, i),
{
    let d0 = seq!["-avd"@, c.avd_name];
    let m1 = only_if(c.no_window, seq!["-no-window"@]);
    let m2 = only_if(c.no_snapshot_load, seq!["-no-snapshot-load"@]);
    let m3 = only_if(c.no_snapshot_save, seq!["-no-snapshot-save"@]);
    let m4 = only_if(c.no_acceleration, seq!["-accel"@, "off"@]);
    let m5 = only_if(c.no_boot_anim, seq!["-no-boot-anim"@]);
    let m6 = only_if(c.dalvik_vm_check_jni, seq!["-dalvik-vm-checkjni"@]);
    let m7 = only_if(c.read_only, seq!["-read-only"@]);
    let m8 = match c.quit_after_boot {
        Some(after) => seq!["-quit-after-boot"@, text::decimal(after.spec_secs() as nat)],
        None => seq![],
    };
    let m9 = seq!["-grpc"@, text::decimal(port as nat)];
    let d1 = d0 + m1;
    let d2 = d1 + m2;
    let d3 = d2 + m3;
    let d4 = d3 + m4;
    let d5 = d4 + m5;
    let d6 = d5 + m6;
    let d7 = d6 + m7;
    let d8 = d7 + m8;
    lemma_pieces(c);
    lemma_piece(c, port, d0, m1, 0);
    lemma_piece(c, port, d1, m2, 1);
    lemma_piece(c, port, d2, m3, 2);
    lemma_piece(c, port, d3, m4, 3);
    lemma_piece(c, port, d4, m5, 4);
    lemma_piece(c, port, d5, m6, 5);
    lemma_piece(c, port, d6, m7, 6);
    lemma_piece(c, port, d7, m8, 7);
    assert(c.basic_args(port) == d8 + m9);
    assert forall|i: int| 0 <= i < piece(c, 8) + 2 implies #[trigger] c.basic_args(port)[i]
        == basic_at(c, port, i) by {
        if i < d8.len() {
            assert(d8[i] == basic_at(c, port, i));
        } else {
            assert(c.basic_args(port)[i] == m9[i - d8.len()]);
        }
    }
}

/// The lengths of the flags, and what tells those of one length apart.
proof fn lemma_flags_differ()
    ensures
        "-avd"@.len() == 4,
        "-no-window"@.len() == 10,
        "-no-snapshot-load"@.len() == 17,
        "-no-snapshot-save"@.len() == 17,
        "-accel"@.len() == 6,
        "off"@.len() == 3,
        "-no-boot-anim"@.len() == 13,
        "-dalvik-vm-checkjni"@.len() == 19,
        "-read-only"@.len() == 10,
        "-quit-after-boot"@.len() == 16,
        "-grpc"@.len() == 5,
        "-grpc-use-token"@.len() == 15,
        "-grpc-allowlist"@.len() == 15,
        "-grpc-use-jwt"@.len() == 13,
        "-no-window"@ != "-read-only"@,
        "-no-snapshot-load"@ != "-no-snapshot-save"@,
        "-no-boot-anim"@ != "-grpc-use-jwt"@,
        "-grpc-use-token"@ != "-grpc-allowlist"@,
        "-avd"@[0] == '-',
        "-no-window"@[0] == '-',
        "-no-snapshot-load"@[0] == '-',
        "-no-snapshot-save"@[0] == '-',
        "-accel"@[0] == '-',
        "off"@[0] == 'o',
        "-no-boot-anim"@[0] == '-',
        "-dalvik-vm-checkjni"@[0] == '-',
        "-read-only"@[0] == '-',
        "-quit-after-boot"@[0] == '-',
        "-grpc"@[0] == '-',
        "-grpc-use-token"@[0] == '-',
        "-grpc-allowlist"@[0] == '-',
        "-grpc-use-jwt"@[0] == '-',
{
    reveal_strlit("-avd");
    reveal_strlit("-no-window");
    reveal_strlit("-no-snapshot-load");
    reveal_strlit("-no-snapshot-save");
    reveal_strlit("-accel");
    reveal_strlit("off");
    reveal_strlit("-no-boot-anim");
    reveal_strlit("-dalvik-vm-checkjni");
    reveal_strlit("-read-only");
    reveal_strlit("-quit-after-boot");
    reveal_strlit("-grpc");
    reveal_strlit("-grpc-use-token");
    reveal_strlit("-grpc-allowlist");
    reveal_strlit("-grpc-use-jwt");
    assert("-no-window"@[1] == 'n' && "-read-only"@[1] == 'r');
    assert("-no-snapshot-load"@[13] == 'l' && "-no-snapshot-save"@[13] == 's');
    assert("-no-boot-anim"@[1] == 'n' && "-grpc-use-jwt"@[1] == 'g');
    assert("-grpc-use-token"@[6] == 'u' && "-grpc-allowlist"@[6] == 'a');
}

/// The argument at `i` of the command line of `c` on `port`.
proof fn lemma_arg_at<S>(args: Seq<LaunchArg>, c: ConfigView<S>, port: u16, i: int)
    requires
        arg_views(args) == c.args(port),
        0 <= i < args.len(),
    ensures
        args.len() == piece(c, 8) + 2 + c.auth_args().len() + c.extra_args.len(),
        i < piece(c, 8) + 2 ==> is_arg(args[i], basic_at(c, port, i)),
        piece(c, 8) + 2 <= i < piece(c, 8) + 2 + c.auth_args().len() ==> args[i]@ == c.auth_args()[i
            - piece(c, 8) - 2],
        piece(c, 8) + 2 + c.auth_args().len() <= i ==> is_arg(
            args[i],
            c.extra_args[i - piece(c, 8) - 2 - c.auth_args().len()],
        ),
{
    lemma_basic_at(c, port);
    let basic = as_args(c.basic_args(port));
    let auth = c.auth_args();
    let extra = as_args(c.extra_args);
    assert(arg_views(args).len() == args.len());
    assert(c.args(port).len() == basic.len() + auth.len() + extra.len());
    assert(arg_views(args)[i] == args[i]@);
    if i < basic.len() {
        assert(c.args(port)[i] == basic[i]);
        assert(basic[i] == Some(c.basic_args(port)[i]));
    } else if i < basic.len() + auth.len() {
        assert(c.args(port)[i] == auth[i - basic.len()]);
    } else {
        assert(c.args(port)[i] == extra[i - basic.len() - auth.len()]);
    }
}

/// What a flag on the command line of `c` is, and that `c` asks for it.
proof fn lemma_passed<S>(args: Seq<LaunchArg>, c: ConfigView<S>, port: u16, flag: Seq<char>)
    requires
        arg_views(args) == c.args(port),
        passes(args, piece(c, 8) + 2 + c.auth_args().len(), flag),
        args.len() >= piece(c, 8) + 2 + c.auth_args().len(),
        flag.len() > 3 && flag[0] == '-',
    ensures
        ({
            ||| flag == "-avd"@
            ||| flag == "-no-window"@ && c.no_window
            ||| flag == "-no-snapshot-load"@ && c.no_snapshot_load
            ||| flag == "-no-snapshot-save"@ && c.no_snapshot_save
            ||| flag == "-accel"@ && c.no_acceleration
            ||| flag == "-no-boot-anim"@ && c.no_boot_anim
            ||| flag == "-dalvik-vm-checkjni"@ && c.dalvik_vm_check_jni
            ||| flag == "-read-only"@ && c.read_only
            ||| flag == "-quit-after-boot"@ && c.quit_after_boot is Some
            ||| flag == "-grpc"@
            ||| flag == "-grpc-use-token"@ && c.grpc_auth is Basic
            ||| flag == "-grpc-allowlist"@ && c.grpc_auth is Jwt
            ||| flag == "-grpc-use-jwt"@ && c.grpc_auth is Jwt
        }),
{
    let upto = piece(c, 8) + 2 + c.auth_args().len();
    let i = choose|i: int|
        0 <= i < upto && i != 1 && ((#[trigger] args[i]) matches LaunchArg::Text(t) && t@ == flag);
    lemma_arg_at(args, c, port, i);
    lemma_pieces(c);
    lemma_no_flag(port as nat);
    reveal_strlit("off");
    if c.quit_after_boot is Some {
        lemma_no_flag(c.quit_after_boot->0.spec_secs() as nat);
    }
}

/// No number is a flag.
proof fn lemma_no_flag(n: nat)
    ensures
        text::decimal(n)[0] != '-',
{
    text::lemma_decimal_value(n);
    assert(text::is_digit(text::decimal(n)[0]));
}

/// Each flag is on the command line if and only if the configuration asks for
/// it, whatever else it asks for, and nothing stands there that it does not ask
/// for: the arguments are as many as are asked for, those that were added
/// included.
#[verifier::rlimit(50)]
pub proof fn law_flags_are_those_asked_for<S>(
    config: EmulatorConfig<S>,
    port: u16,
    launch: Launch<S>,
    upto: int,
)
    requires
        call_ensures(EmulatorConfig::<S>::launch, (config, port), launch),
        upto == launch.args@.len() - config@.extra_args.len(),
    ensures
        passes(launch.args@, upto, "-no-window"@) <==> config@.no_window,
        passes(launch.args@, upto, "-no-snapshot-load"@) <==> config@.no_snapshot_load,
        passes(launch.args@, upto, "-no-snapshot-save"@) <==> config@.no_snapshot_save,
        passes(launch.args@, upto, "-accel"@) <==> config@.no_acceleration,
        passes(launch.args@, upto, "-no-boot-anim"@) <==> config@.no_boot_anim,
        passes(launch.args@, upto, "-dalvik-vm-checkjni"@) <==> config@.dalvik_vm_check_jni,
        passes(launch.args@, upto, "-read-only"@) <==> config@.read_only,
        passes(launch.args@, upto, "-quit-after-boot"@) <==> config@.quit_after_boot is Some,
        passes(launch.args@, upto, "-grpc"@),
        passes(launch.args@, upto, "-grpc-use-token"@) <==> config@.grpc_auth is Basic,
        passes(launch.args@, upto, "-grpc-use-jwt"@) <==> config@.grpc_auth is Jwt,
        passes(launch.args@, upto, "-grpc-allowlist"@) <==> config@.grpc_auth is Jwt,
        upto == 4 + (if config@.no_window {
            1int
        } else {
            0
        }) + (if config@.no_snapshot_load {
            1int
        } else {
            0
        }) + (if config@.no_snapshot_save {
            1int
        } else {
            0
        }) + (if config@.no_acceleration {
            2int
        } else {
            0
        }) + (if config@.no_boot_anim {
            1int
        } else {
            0
        }) + (if config@.dalvik_vm_check_jni {
            1int
        } else {
            0
        }) + (if config@.read_only {
            1int
        } else {
            0
        }) + (if config@.quit_after_boot is Some {
            2int
        } else {
            0
        }) + (if config@.grpc_auth is Basic {
            1int
        } else if config@.grpc_auth is Jwt {
            3int
        } else {
            0
        }),
{
    let c = config@;
    let args = launch.args@;
    let n = piece(c, 8) + 2;
    assert(arg_views(args).len() == args.len());
    lemma_pieces(c);
    lemma_basic_at(c, port);
    lemma_arg_at(args, c, port, 0);
    assert(upto == n + c.auth_args().len());
    lemma_flags_differ();
    assert forall|flag: Seq<char>| #[trigger]
        passes(args, upto, flag) && flag.len() > 3 && flag[0] == '-' implies {
        ||| flag == "-avd"@
        ||| flag == "-no-window"@ && c.no_window
        ||| flag == "-no-snapshot-load"@ && c.no_snapshot_load
        ||| flag == "-no-snapshot-save"@ && c.no_snapshot_save
        ||| flag == "-accel"@ && c.no_acceleration
        ||| flag == "-no-boot-anim"@ && c.no_boot_anim
        ||| flag == "-dalvik-vm-checkjni"@ && c.dalvik_vm_check_jni
        ||| flag == "-read-only"@ && c.read_only
        ||| flag == "-quit-after-boot"@ && c.quit_after_boot is Some
        ||| flag == "-grpc"@
        ||| flag == "-grpc-use-token"@ && c.grpc_auth is Basic
        ||| flag == "-grpc-allowlist"@ && c.grpc_auth is Jwt
        ||| flag == "-grpc-use-jwt"@ && c.grpc_auth is Jwt
    } by {
        lemma_passed(args, c, port, flag);
    }
    if c.no_window {
        lemma_arg_at(args, c, port, piece(c, 0));
    }
    if c.no_snapshot_load {
        lemma_arg_at(args, c, port, piece(c, 1));
    }
    if c.no_snapshot_save {
        lemma_arg_at(args, c, port, piece(c, 2));
    }
    if c.no_acceleration {
        lemma_arg_at(args, c, port, piece(c, 3));
    }
    if c.no_boot_anim {
        lemma_arg_at(args, c, port, piece(c, 4));
    }
    if c.dalvik_vm_check_jni {
        lemma_arg_at(args, c, port, piece(c, 5));
    }
    if c.read_only {
        lemma_arg_at(args, c, port, piece(c, 6));
    }
    if c.quit_after_boot is Some {
        lemma_arg_at(args, c, port, piece(c, 7));
    }
    lemma_arg_at(args, c, port, piece(c, 8));
    if c.grpc_auth is Basic {
        lemma_arg_at(args, c, port, n);
    }
    if c.grpc_auth is Jwt {
        lemma_arg_at(args, c, port, n);
        lemma_arg_at(args, c, port, n + 2);
    }
}

/// Where the options with a value stand.
proof fn lemma_where<S>(args: Seq<LaunchArg>, c: ConfigView<S>, port: u16, i: int)
    requires
        arg_views(args) == c.args(port),
        0 <= i < piece(c, 8) + 2 + c.auth_args().len() <= args.len(),
        i != 1,
    ensures
        is_arg(args[i], "-accel"@) ==> c.no_acceleration && i == piece(c, 3),
        is_arg(args[i], "-quit-after-boot"@) ==> c.quit_after_boot is Some && i == piece(c, 7),
        is_arg(args[i], "-grpc"@) ==> i == piece(c, 8),
        is_arg(args[i], "-grpc-allowlist"@) ==> c.grpc_auth is Jwt && i == piece(c, 8) + 2,
        args[i] is AllowlistPath ==> c.grpc_auth is Jwt && i == piece(c, 8) + 3,
{
    lemma_arg_at(args, c, port, i);
    lemma_pieces(c);
    lemma_flags_differ();
    lemma_no_flag(port as nat);
    if c.quit_after_boot is Some {
        lemma_no_flag(c.quit_after_boot->0.spec_secs() as nat);
    }
}

/// What stands where the values of the options are.
proof fn lemma_values<S>(args: Seq<LaunchArg>, c: ConfigView<S>, port: u16)
    requires
        arg_views(args) == c.args(port),
    ensures
        piece(c, 8) >= piece(c, 7) >= piece(c, 3) >= 2,
        c.no_acceleration ==> piece(c, 3) + 2 <= piece(c, 8),
        c.quit_after_boot is Some ==> piece(c, 7) + 2 <= piece(c, 8),
        args.len() == piece(c, 8) + 2 + c.auth_args().len() + c.extra_args.len(),
        is_arg(args[0], "-avd"@),
        is_arg(args[1], c.avd_name),
        c.no_acceleration ==> is_arg(args[piece(c, 3) + 1], "off"@),
        c.quit_after_boot matches Some(after) ==> is_arg(
            args[piece(c, 7) + 1],
            text::decimal(after.spec_secs() as nat),
        ),
        is_arg(args[piece(c, 8) + 1], text::decimal(port as nat)),
        c.grpc_auth is Jwt ==> is_arg(args[piece(c, 8) + 2], "-grpc-allowlist"@) && args[piece(c, 8)
            + 3] is AllowlistPath,
{
    assert(arg_views(args).len() == args.len());
    lemma_basic_at(c, port);
    lemma_pieces(c);
    assert(args.len() == piece(c, 8) + 2 + c.auth_args().len() + c.extra_args.len());
    assert(is_arg(args[0], "-avd"@) && is_arg(args[1], c.avd_name)) by {
        lemma_arg_at(args, c, port, 0);
        lemma_arg_at(args, c, port, 1);
    }
    if c.no_acceleration {
        assert(is_arg(args[piece(c, 3) + 1], "off"@)) by {
            lemma_arg_at(args, c, port, piece(c, 3) + 1);
        }
    }
    if c.quit_after_boot is Some {
        assert(is_arg(
            args[piece(c, 7) + 1],
            text::decimal(c.quit_after_boot->0.spec_secs() as nat),
        )) by {
            lemma_arg_at(args, c, port, piece(c, 7) + 1);
        }
    }
    assert(is_arg(args[piece(c, 8) + 1], text::decimal(port as nat))) by {
        lemma_arg_at(args, c, port, piece(c, 8) + 1);
    }
    if c.grpc_auth is Jwt {
        lemma_arg_at(args, c, port, piece(c, 8) + 2);
        lemma_arg_at(args, c, port, piece(c, 8) + 3);
    }
}

/// What stands behind an option is its value: the AVD that was named, `off` for
/// the acceleration, the whole seconds until the emulator quits, the port, and
/// the file of the allowlist. What was added stands at the end, as it was
/// given.
pub proof fn law_options_have_their_values<S>(
    config: EmulatorConfig<S>,
    port: u16,
    launch: Launch<S>,
    upto: int,
    i: int,
)
    requires
        call_ensures(EmulatorConfig::<S>::launch, (config, port), launch),
        upto == launch.args@.len() - config@.extra_args.len(),
        0 <= i < launch.args@.len(),
    ensures
        i == 0 ==> is_arg(launch.args@[0], "-avd"@),
        i == 1 ==> is_arg(launch.args@[1], config@.avd_name),
        i != 1 && i < upto && is_arg(launch.args@[i], "-accel"@) ==> i + 1 < upto && is_arg(
            launch.args@[i + 1],
            "off"@,
        ),
        i != 1 && i < upto && is_arg(launch.args@[i], "-quit-after-boot"@) ==> {
            &&& i + 1 < upto
            &&& config@.quit_after_boot matches Some(after)
            &&& launch.args@[i + 1] matches LaunchArg::Text(digits)
            &&& digits@.len() > 0 && text::all_digits(digits@)
            &&& after@ >= 0 ==> text::digits_value(digits@) * 1_000_000_000 <= after@ < (
            text::digits_value(digits@) + 1) * 1_000_000_000
        },
        i != 1 && i < upto && is_arg(launch.args@[i], "-grpc"@) ==> {
            &&& i + 1 < upto
            &&& launch.args@[i + 1] matches LaunchArg::Text(digits)
            &&& text::parse_u16(digits@) == Some(port)
        },
        i != 1 && i < upto && is_arg(launch.args@[i], "-grpc-allowlist"@) ==> i + 1 < upto
            && launch.args@[i + 1] is AllowlistPath,
        i < upto && launch.args@[i] is AllowlistPath ==> i > 1 && is_arg(
            launch.args@[i - 1],
            "-grpc-allowlist"@,
        ),
        upto <= i ==> is_arg(launch.args@[i], config@.extra_args[i - upto]),
{
    let c = config@;
    lemma_values(launch.args@, c, port);
    if i >= upto {
        lemma_arg_at(launch.args@, c, port, i);
    } else if i != 1 {
        lemma_where(launch.args@, c, port, i);
    }
    text::law_port_round_trip(port);
    if c.quit_after_boot is Some {
        text::lemma_decimal_value(c.quit_after_boot->0.spec_secs() as nat);
    }
}

/// A launch is on the port that it was asked for, with the output of the
/// configuration. Only where tokens of an issuer are taken does it have an
/// issuer, the configured one or else one that is named after the port, and an
/// allowlist, the configured one or else the default one for that issuer.
pub proof fn law_launch_is_for_its_issuer<S>(
    config: EmulatorConfig<S>,
    port: u16,
    launch: Launch<S>,
)
    requires
        call_ensures(EmulatorConfig::<S>::launch, (config, port), launch),
    ensures
        launch.grpc_port == port,
        launch.stdout == config@.stdout,
        launch.stderr == config@.stderr,
        launch.issuer is Some <==> config@.grpc_auth is Jwt,
        launch.allowlist is Some <==> config@.grpc_auth is Jwt,
        config@.grpc_auth matches GrpcAuthConfig::Jwt { issuer: Some(given) } ==> (
        launch.issuer matches Some(issuer) && issuer@ == given@),
        config@.grpc_auth matches GrpcAuthConfig::Jwt { issuer: None } ==> (
        launch.issuer matches Some(issuer) && issuer@ == "emulator-"@ + text::decimal(port as nat)),
        config@.grpc_auth is Jwt && config@.grpc_allowlist is Some ==> launch.allowlist
            == config@.grpc_allowlist,
        config@.grpc_auth is Jwt && config@.grpc_allowlist is None ==> {
            &&& launch.allowlist matches Some(list)
            &&& launch.issuer matches Some(issuer)
            &&& auth::allows_two(list, issuer@)
        },
{
    if config@.grpc_auth is Jwt && config@.grpc_allowlist is None {
        auth::lemma_allows_two(launch.allowlist->0, launch.issuer->0@);
    }
}

/// Each setting changes what it is named after and nothing else: showing the
/// window, loading and saving snapshots and the boot animation turn off the
/// flags that suppress them; the other settings turn theirs on.
pub proof fn law_settings<S>(
    before: EmulatorConfig<S>,
    on: bool,
    port: u16,
    auth: GrpcAuthConfig,
    after_boot: Option<Duration>,
    args: Vec<String>,
    list: GrpcAllowlist,
    output: S,
    after: EmulatorConfig<S>,
)
    ensures
        call_ensures(EmulatorConfig::<S>::with_window, (before, on), after) ==> after@ == (
        ConfigView { no_window: !on, ..before@ }),
        call_ensures(EmulatorConfig::<S>::with_snapshot_load, (before, on), after) ==> after@ == (
        ConfigView { no_snapshot_load: !on, ..before@ }),
        call_ensures(EmulatorConfig::<S>::with_snapshot_save, (before, on), after) ==> after@ == (
        ConfigView { no_snapshot_save: !on, ..before@ }),
        call_ensures(EmulatorConfig::<S>::with_boot_animation, (before, on), after) ==> after@ == (
        ConfigView { no_boot_anim: !on, ..before@ }),
        call_ensures(EmulatorConfig::<S>::with_acceleration, (before, on), after) ==> after@ == (
        ConfigView { no_acceleration: on, ..before@ }),
        call_ensures(EmulatorConfig::<S>::with_dalvik_vm_check_jni, (before, on), after)
            ==> after@ == (ConfigView { dalvik_vm_check_jni: on, ..before@ }),
        call_ensures(EmulatorConfig::<S>::with_read_only, (before, on), after) ==> after@ == (
        ConfigView { read_only: on, ..before@ }),
        call_ensures(EmulatorConfig::<S>::with_grpc_port, (before, port), after) ==> after@ == (
        ConfigView { grpc_port: Some(port), ..before@ }),
        call_ensures(EmulatorConfig::<S>::with_grpc_auth, (before, auth), after) ==> after@ == (
        ConfigView { grpc_auth: auth, ..before@ }),
        call_ensures(EmulatorConfig::<S>::with_quit_after_boot, (before, after_boot), after)
            ==> after@ == (ConfigView { quit_after_boot: after_boot, ..before@ }),
        call_ensures(EmulatorConfig::<S>::with_grpc_allowlist, (before, list), after) ==> after@
            == (ConfigView { grpc_allowlist: Some(list), ..before@ }),
        call_ensures(EmulatorConfig::<S>::stdout, (before, output), after) ==> after@ == (
        ConfigView { stdout: Some(output), ..before@ }),
        call_ensures(EmulatorConfig::<S>::stderr, (before, output), after) ==> after@ == (
        ConfigView { stderr: Some(output), ..before@ }),
        call_ensures(EmulatorConfig::<S>::with_extra_args, (before, args), after) ==> {
            &&& after@ == (ConfigView { extra_args: after@.extra_args, ..before@ })
            &&& after@.extra_args.len() == args@.len()
            &&& forall|i: int|
                0 <= i < args@.len() ==> #[trigger] after@.extra_args[i] == args@[i]@
        },
{
}

/// A new configuration starts the AVD that it names, headless and with tokens
/// of a key, and asks for nothing else.
pub proof fn law_new_configuration<S>(
    name: String,
    config: EmulatorConfig<S>,
    avd: &str,
    port: Option<u16>,
)
    requires
        call_ensures(EmulatorConfig::<S>::new, (name,), config),
        call_ensures(EmulatorConfig::<S>::avd_id, (&config,), avd),
        call_ensures(EmulatorConfig::<S>::grpc_port, (&config,), port),
    ensures
        avd@ == name@,
        port is None,
        config@.avd_name == name@,
        config@.grpc_port is None,
        config@.grpc_auth == (GrpcAuthConfig::Jwt { issuer: None }),
        config@.no_window,
        !config@.no_snapshot_load && !config@.no_snapshot_save && !config@.no_boot_anim,
        !config@.no_acceleration && !config@.dalvik_vm_check_jni && !config@.read_only,
        config@.quit_after_boot is None,
        config@.extra_args.len() == 0,
        config@.grpc_allowlist is None && config@.stdout is None && config@.stderr is None,
{
}

/// The port is the one that was configured; where none was, it is the free one;
/// where there is none either, it is 8554.
pub proof fn law_port_is_chosen<S>(config: ConfigView<S>, free: Option<u16>)
    ensures
        config.grpc_port matches Some(port) ==> config.port(free) == port,
        config.grpc_port is None && free is Some ==> Some(config.port(free)) == free,
        config.grpc_port is None && free is None ==> config.port(free) == 8554,
{
}

} // verus!
