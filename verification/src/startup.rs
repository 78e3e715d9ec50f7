//! Bringing the local server up: a state machine that decides, from what the
//! shell observed last, what to show and what to do next. The shell performs
//! each request (file checks, commands, spawning, health pings, the clock)
//! and feeds the outcome back as the next event.
use vstd::prelude::*;

use crate::credentials::{
    bundled_setup_credentials, opt_creds_view, parse_setup_credentials,
    spec_parse_setup_credentials, SetupCredentials,
};
use crate::path::{opt_path_view, paths_view, FileSnapshot, FsPath, PathView, Platform};
use crate::paths::{
    desktop_log_file, desktop_log_path, setup_creds_file, setup_creds_path, venv_python,
    venv_python_path, venv_ready_marker, venv_ready_marker_path,
};
use crate::python::{using_python_message, using_python_text, venv_creation_args};
use crate::server::{
    bootstrap_paths, command_failure, command_failure_text, data_file_paths, data_files,
    exited_early_message, exited_early_text, notice, notice_text,
    spec_needs_bootstrap, spec_needs_data_setup, still_starting_message, still_starting_text,
    CommandKind, CommandResult, Notice, ServerConfig, ServerManager,
};
use crate::status::{info_view, statuses_view, StatusPayload, StatusView};

verus! {

/// How long the server may take to answer its first health check.
pub const STARTUP_TIMEOUT_MS: u64 = 180_000;

/// The pause between two health checks while waiting.
pub const HEALTH_POLL_MS: u64 = 500;

pub type CredsView = Option<(Seq<char>, Seq<char>)>;

/// Which server to start.
pub enum Launch {
    /// The native server executable.
    Bundled(FsPath),
    /// uvicorn through the interpreter of the virtual environment.
    Venv { python: FsPath, repo_root: FsPath },
}

pub enum LaunchView {
    Bundled(PathView),
    Venv(PathView, PathView),
}

impl View for Launch {
    type V = LaunchView;

    open spec fn view(&self) -> LaunchView {
        match self {
            Launch::Bundled(p) => LaunchView::Bundled(p@),
            Launch::Venv { python, repo_root } => LaunchView::Venv(python@, repo_root@),
        }
    }
}

/// What to do once the server answers.
pub enum Resume {
    /// Native server: report these credentials, or else those of the
    /// credentials file.
    Bundled(Option<SetupCredentials>),
    /// Virtual environment: report these credentials.
    Venv(Option<SetupCredentials>),
}

pub enum ResumeView {
    Bundled(CredsView),
    Venv(CredsView),
}

impl View for Resume {
    type V = ResumeView;

    open spec fn view(&self) -> ResumeView {
        match self {
            Resume::Bundled(c) => ResumeView::Bundled(opt_creds_view(*c)),
            Resume::Venv(c) => ResumeView::Venv(opt_creds_view(*c)),
        }
    }
}

/// Where the machine stands: which outcome it waits for, and what it knows.
pub enum Phase {
    Begin,
    DirsPrepared,
    InitialHealth,
    BusyProbe,
    BundledProbe(FsPath),
    NativeInstalled,
    BundledBootstrap(FsPath),
    BundledSetupRan(FsPath),
    BundledCredsRead(FsPath, String),
    SpawnHealth(Launch, Option<SetupCredentials>),
    Spawned(Resume),
    Clock(Resume),
    WaitHealth(Resume),
    ChildExit(Resume),
    FinalCredsRead,
    VenvPythonProbe(FsPath, bool),
    InstallDirMade(FsPath),
    PythonFound(FsPath),
    VenvCreated(FsPath),
    MarkerProbe(FsPath),
    PipUpgraded(FsPath),
    PackagesInstalled(FsPath),
    SetupRan(FsPath, bool),
    MarkerWritten(FsPath, Option<SetupCredentials>),
    Finished,
}

pub enum PhaseView {
    Begin,
    DirsPrepared,
    InitialHealth,
    BusyProbe,
    BundledProbe(PathView),
    NativeInstalled,
    BundledBootstrap(PathView),
    BundledSetupRan(PathView),
    BundledCredsRead(PathView, Seq<char>),
    SpawnHealth(LaunchView, CredsView),
    Spawned(ResumeView),
    Clock(ResumeView),
    WaitHealth(ResumeView),
    ChildExit(ResumeView),
    FinalCredsRead,
    VenvPythonProbe(PathView, bool),
    InstallDirMade(PathView),
    PythonFound(PathView),
    VenvCreated(PathView),
    MarkerProbe(PathView),
    PipUpgraded(PathView),
    PackagesInstalled(PathView),
    SetupRan(PathView, bool),
    MarkerWritten(PathView, CredsView),
    Finished,
}

impl View for Phase {
    type V = PhaseView;

    open spec fn view(&self) -> PhaseView {
        match self {
            Phase::Begin => PhaseView::Begin,
            Phase::DirsPrepared => PhaseView::DirsPrepared,
            Phase::InitialHealth => PhaseView::InitialHealth,
            Phase::BusyProbe => PhaseView::BusyProbe,
            Phase::BundledProbe(p) => PhaseView::BundledProbe(p@),
            Phase::NativeInstalled => PhaseView::NativeInstalled,
            Phase::BundledBootstrap(p) => PhaseView::BundledBootstrap(p@),
            Phase::BundledSetupRan(p) => PhaseView::BundledSetupRan(p@),
            Phase::BundledCredsRead(p, s) => PhaseView::BundledCredsRead(p@, s@),
            Phase::SpawnHealth(l, c) => PhaseView::SpawnHealth(l@, opt_creds_view(*c)),
            Phase::Spawned(r) => PhaseView::Spawned(r@),
            Phase::Clock(r) => PhaseView::Clock(r@),
            Phase::WaitHealth(r) => PhaseView::WaitHealth(r@),
            Phase::ChildExit(r) => PhaseView::ChildExit(r@),
            Phase::FinalCredsRead => PhaseView::FinalCredsRead,
            Phase::VenvPythonProbe(p, b) => PhaseView::VenvPythonProbe(p@, *b),
            Phase::InstallDirMade(p) => PhaseView::InstallDirMade(p@),
            Phase::PythonFound(p) => PhaseView::PythonFound(p@),
            Phase::VenvCreated(p) => PhaseView::VenvCreated(p@),
            Phase::MarkerProbe(p) => PhaseView::MarkerProbe(p@),
            Phase::PipUpgraded(p) => PhaseView::PipUpgraded(p@),
            Phase::PackagesInstalled(p) => PhaseView::PackagesInstalled(p@),
            Phase::SetupRan(p, b) => PhaseView::SetupRan(p@, *b),
            Phase::MarkerWritten(p, c) => PhaseView::MarkerWritten(p@, opt_creds_view(*c)),
            Phase::Finished => PhaseView::Finished,
        }
    }
}

/// A command to run to completion, capturing its output.
pub struct CommandSpec {
    pub program: FsPath,
    pub args: Vec<String>,
    /// The working directory, if it is to be set.
    pub workdir: Option<FsPath>,
    /// The value of `ODYSSEUS_DATA_DIR` for the command, if it is to be set.
    pub data_dir_env: Option<FsPath>,
    /// On Windows, start the command without a console window.
    pub hide_window: bool,
}

pub struct CommandView {
    pub program: PathView,
    pub args: Seq<Seq<char>>,
    pub workdir: Option<PathView>,
    pub data_dir_env: Option<PathView>,
    pub hide_window: bool,
}

pub open spec fn strings_view(v: Seq<String>) -> Seq<Seq<char>> {
    v.map_values(|s: String| s@)
}

impl View for CommandSpec {
    type V = CommandView;

    open spec fn view(&self) -> CommandView {
        CommandView {
            program: self.program@,
            args: strings_view(self.args@),
            workdir: opt_path_view(self.workdir),
            data_dir_env: opt_path_view(self.data_dir_env),
            hide_window: self.hide_window,
        }
    }
}

/// What the shell is asked to do; its outcome is the next event.
pub enum Request {
    /// Create these folders, ignoring failures; answer `Done`.
    CreateDirs(Vec<FsPath>),
    /// Ping the server's health endpoint; answer `Health`.
    CheckHealth,
    /// Look at which of these paths are files; answer `Files`.
    Probe(Vec<FsPath>),
    /// Install the native server from the installer; answer `NativeServer`.
    InstallNativeServer,
    /// Run a command to completion; answer `Command`.
    RunCommand(CommandSpec),
    /// Read the setup credentials file; answer `CredsFile`.
    ReadCredsFile(FsPath),
    /// Start the server process; answer `Outcome`.
    Spawn(Launch),
    /// After sleeping `sleep_ms` (and restarting the clock when asked), read
    /// the milliseconds since the clock started; answer `Clock`.
    ReadClock { restart: bool, sleep_ms: u64 },
    /// Ask whether the server process has exited; answer `ChildExit`.
    CheckChildExit,
    /// Create this folder and its parents; answer `Outcome`.
    CreateDir(FsPath),
    /// Search for a Python 3.11+ interpreter; answer `Python`.
    FindPython,
    /// Create the folder of this marker and write `ready` into it, ignoring
    /// failures; answer `Done`.
    WriteReadyMarker(FsPath),
    /// Stop: this is the result of bringing the server up.
    Finish(Result<Option<SetupCredentials>, String>),
}

pub enum RequestView {
    CreateDirs(Seq<PathView>),
    CheckHealth,
    Probe(Seq<PathView>),
    InstallNativeServer,
    RunCommand(CommandView),
    ReadCredsFile(PathView),
    Spawn(LaunchView),
    ReadClock { restart: bool, sleep_ms: u64 },
    CheckChildExit,
    CreateDir(PathView),
    FindPython,
    WriteReadyMarker(PathView),
    Finish(Result<CredsView, Seq<char>>),
}

impl View for Request {
    type V = RequestView;

    open spec fn view(&self) -> RequestView {
        match self {
            Request::CreateDirs(v) => RequestView::CreateDirs(paths_view(v@)),
            Request::CheckHealth => RequestView::CheckHealth,
            Request::Probe(v) => RequestView::Probe(paths_view(v@)),
            Request::InstallNativeServer => RequestView::InstallNativeServer,
            Request::RunCommand(c) => RequestView::RunCommand(c@),
            Request::ReadCredsFile(p) => RequestView::ReadCredsFile(p@),
            Request::Spawn(l) => RequestView::Spawn(l@),
            Request::ReadClock { restart, sleep_ms } => RequestView::ReadClock {
                restart: *restart,
                sleep_ms: *sleep_ms,
            },
            Request::CheckChildExit => RequestView::CheckChildExit,
            Request::CreateDir(p) => RequestView::CreateDir(p@),
            Request::FindPython => RequestView::FindPython,
            Request::WriteReadyMarker(p) => RequestView::WriteReadyMarker(p@),
            Request::Finish(r) => RequestView::Finish(
                match r {
                    Ok(c) => Ok(opt_creds_view(*c)),
                    Err(e) => Err(e@),
                },
            ),
        }
    }
}

/// What the shell observed.
pub enum StartupEvent {
    /// The machine is started.
    Started,
    /// Whether the server answered its health check.
    Health(bool),
    /// Which of the probed paths are files.
    Files(FileSnapshot),
    /// The installed native server, or why installing failed.
    NativeServer(Result<FsPath, String>),
    /// How a command ended.
    Command(CommandResult),
    /// The credentials read from the credentials file, if any.
    CredsFile(Option<SetupCredentials>),
    /// Whether an action succeeded, and why not.
    Outcome(Result<(), String>),
    /// Milliseconds since the clock started.
    Clock(u64),
    /// The exit status of the server process as debug text, if it exited.
    ChildExit(Option<String>),
    /// The interpreter found and its arguments, if any.
    Python(Option<(FsPath, Vec<String>)>),
    /// A request that reports nothing is done.
    Done,
}

/// The event that answers the request the machine made to reach `phase`.
pub open spec fn expects(phase: PhaseView, e: StartupEvent) -> bool {
    match phase {
        PhaseView::Begin => e is Started,
        PhaseView::DirsPrepared => e is Done,
        PhaseView::InitialHealth => e is Health,
        PhaseView::BusyProbe => e is Files,
        PhaseView::BundledProbe(_) => e is Files,
        PhaseView::NativeInstalled => e is NativeServer,
        PhaseView::BundledBootstrap(_) => e is Files,
        PhaseView::BundledSetupRan(_) => e is Command,
        PhaseView::BundledCredsRead(_, _) => e is CredsFile,
        PhaseView::SpawnHealth(_, _) => e is Health,
        PhaseView::Spawned(_) => e is Outcome,
        PhaseView::Clock(_) => e is Clock,
        PhaseView::WaitHealth(_) => e is Health,
        PhaseView::ChildExit(_) => e is ChildExit,
        PhaseView::FinalCredsRead => e is CredsFile,
        PhaseView::VenvPythonProbe(_, _) => e is Files,
        PhaseView::InstallDirMade(_) => e is Outcome,
        PhaseView::PythonFound(_) => e is Python,
        PhaseView::VenvCreated(_) => e is Command,
        PhaseView::MarkerProbe(_) => e is Files,
        PhaseView::PipUpgraded(_) => e is Command,
        PhaseView::PackagesInstalled(_) => e is Command,
        PhaseView::SetupRan(_, _) => e is Command,
        PhaseView::MarkerWritten(_, _) => e is Done,
        PhaseView::Finished => false,
    }
}

/// One move of the machine: its next phase, the status updates to show, and
/// the request to perform.
pub struct StepView {
    pub phase: PhaseView,
    pub statuses: Seq<StatusView>,
    pub request: RequestView,
}

pub open spec fn info(n: Notice) -> StatusView {
    info_view(notice_text(n))
}

pub open spec fn finish_err(msg: Seq<char>) -> StepView {
    StepView { phase: PhaseView::Finished, statuses: seq![], request: RequestView::Finish(Err(msg)) }
}

pub open spec fn finish_ok(c: CredsView) -> StepView {
    StepView { phase: PhaseView::Finished, statuses: seq![], request: RequestView::Finish(Ok(c)) }
}

/// Announce the start and check whether a server already answers.
pub open spec fn start_server(launch: LaunchView, creds: CredsView) -> StepView {
    StepView {
        phase: PhaseView::SpawnHealth(launch, creds),
        statuses: seq![info(Notice::Starting)],
        request: RequestView::CheckHealth,
    }
}

pub open spec fn resume_of(launch: LaunchView, creds: CredsView) -> ResumeView {
    match launch {
        LaunchView::Bundled(_) => ResumeView::Bundled(creds),
        LaunchView::Venv(_, _) => ResumeView::Venv(creds),
    }
}

/// Announce the wait and start the clock.
pub open spec fn start_wait(r: ResumeView) -> StepView {
    StepView {
        phase: PhaseView::Clock(r),
        statuses: seq![info(Notice::Waiting)],
        request: RequestView::ReadClock { restart: true, sleep_ms: 0 },
    }
}

/// The server answers: report the credentials (for the native server, those
/// of the credentials file when none are known yet).
pub open spec fn server_ready(c: ServerConfig, r: ResumeView) -> StepView {
    match r {
        ResumeView::Bundled(Some(x)) => finish_ok(Some(x)),
        ResumeView::Bundled(None) => StepView {
            phase: PhaseView::FinalCredsRead,
            statuses: seq![],
            request: RequestView::ReadCredsFile(setup_creds_path(c.data_root)),
        },
        ResumeView::Venv(x) => finish_ok(x),
    }
}

pub open spec fn log_text(c: ServerConfig, platform: Platform) -> Seq<char> {
    desktop_log_path(c.data_root).rendered(platform.separator())
}

/// The folders created before anything else: the data root and the folder
/// of the server log.
pub open spec fn initial_dirs(c: ServerConfig) -> Seq<PathView> {
    seq![c.data_root, desktop_log_path(c.data_root).parent()->0]
}

/// The command that runs first-time setup of the native server.
pub open spec fn bundled_setup_command(c: ServerConfig, exe: PathView) -> CommandView {
    CommandView {
        program: exe,
        args: seq!["--setup-only"@],
        workdir: Some(
            match exe.parent() {
                Some(d) => d,
                None => crate::paths::current_dir_path(),
            },
        ),
        data_dir_env: Some(c.data_root),
        hide_window: true,
    }
}

pub open spec fn python_command(python: PathView, root: PathView, args: Seq<Seq<char>>) -> CommandView {
    CommandView { program: python, args, workdir: Some(root), data_dir_env: None, hide_window: false }
}

pub open spec fn pip_upgrade_args() -> Seq<Seq<char>> {
    seq!["-m"@, "pip"@, "install"@, "--upgrade"@, "pip"@]
}

pub open spec fn requirements_args(root: PathView, platform: Platform) -> Seq<Seq<char>> {
    seq![
        "-m"@,
        "pip"@,
        "install"@,
        "-r"@,
        root.child("requirements.txt"@).rendered(platform.separator()),
    ]
}

pub open spec fn setup_py_args() -> Seq<Seq<char>> {
    seq!["setup.py"@]
}

/// What the machine does when, in `phase`, it observes `e`.
pub open spec fn spec_step(c: ServerConfig, platform: Platform, phase: PhaseView, e: StartupEvent) -> StepView {
    match phase {
        PhaseView::Begin => StepView {
            phase: PhaseView::DirsPrepared,
            statuses: seq![],
            request: RequestView::CreateDirs(initial_dirs(c)),
        },
        PhaseView::DirsPrepared => StepView {
            phase: PhaseView::InitialHealth,
            statuses: seq![],
            request: RequestView::CheckHealth,
        },
        PhaseView::InitialHealth => match e {
            StartupEvent::Health(true) => StepView {
                phase: PhaseView::BusyProbe,
                statuses: seq![],
                request: RequestView::Probe(bootstrap_paths(c, platform)),
            },
            _ => {
                let prep = if c.native_bundle_expected {
                    info(Notice::PreparingNative)
                } else {
                    info(Notice::CheckingPython)
                };
                if c.bundled_mode() {
                    match c.bundled_server {
                        Some(p) => StepView {
                            phase: PhaseView::BundledProbe(p),
                            statuses: seq![prep],
                            request: RequestView::Probe(seq![p]),
                        },
                        None => StepView {
                            phase: PhaseView::NativeInstalled,
                            statuses: seq![prep, info(Notice::InstallingNativeServer)],
                            request: RequestView::InstallNativeServer,
                        },
                    }
                } else {
                    match c.venv_root {
                        None => StepView {
                            phase: PhaseView::Finished,
                            statuses: seq![prep],
                            request: RequestView::Finish(
                                Err(notice_text(Notice::RuntimeRootMissing)),
                            ),
                        },
                        Some(root) => StepView {
                            phase: PhaseView::VenvPythonProbe(root, true),
                            statuses: seq![prep],
                            request: RequestView::Probe(seq![venv_python_path(root, platform)]),
                        },
                    }
                }
            },
        },
        PhaseView::BusyProbe => match e {
            StartupEvent::Files(fs) => if spec_needs_bootstrap(c, fs, platform) {
                finish_err(notice_text(Notice::PortBusy))
            } else {
                StepView {
                    phase: PhaseView::Finished,
                    statuses: seq![info(Notice::Connecting)],
                    request: RequestView::Finish(Ok(None)),
                }
            },
            _ => finish_err(seq![]),
        },
        PhaseView::BundledProbe(p) => match e {
            StartupEvent::Files(fs) => if fs.has_file(p) {
                StepView {
                    phase: PhaseView::BundledBootstrap(p),
                    statuses: seq![],
                    request: RequestView::Probe(bootstrap_paths(c, platform)),
                }
            } else if !c.native_bundle_expected {
                finish_err(notice_text(Notice::BundledServerMissing))
            } else {
                StepView {
                    phase: PhaseView::NativeInstalled,
                    statuses: seq![info(Notice::InstallingNativeServer)],
                    request: RequestView::InstallNativeServer,
                }
            },
            _ => finish_err(seq![]),
        },
        PhaseView::NativeInstalled => match e {
            StartupEvent::NativeServer(Ok(p)) => StepView {
                phase: PhaseView::BundledBootstrap(p@),
                statuses: seq![],
                request: RequestView::Probe(bootstrap_paths(c, platform)),
            },
            StartupEvent::NativeServer(Err(msg)) => finish_err(msg@),
            _ => finish_err(seq![]),
        },
        PhaseView::BundledBootstrap(p) => match e {
            StartupEvent::Files(fs) => if spec_needs_bootstrap(c, fs, platform) {
                StepView {
                    phase: PhaseView::BundledSetupRan(p),
                    statuses: seq![info(Notice::RunningFirstSetup)],
                    request: RequestView::RunCommand(bundled_setup_command(c, p)),
                }
            } else {
                start_server(LaunchView::Bundled(p), None)
            },
            _ => finish_err(seq![]),
        },
        PhaseView::BundledSetupRan(p) => match e {
            StartupEvent::Command(r) => match command_failure_text(
                CommandKind::BundledSetup,
                r@,
                seq![],
                log_text(c, platform),
            ) {
                Some(msg) => finish_err(msg),
                None => StepView {
                    phase: PhaseView::BundledCredsRead(
                        p,
                        match r {
                            CommandResult::Exited { stdout, .. } => stdout@,
                            _ => seq![],
                        },
                    ),
                    statuses: seq![],
                    request: RequestView::ReadCredsFile(setup_creds_path(c.data_root)),
                },
            },
            _ => finish_err(seq![]),
        },
        PhaseView::BundledCredsRead(p, stdout) => match e {
            StartupEvent::CredsFile(f) => start_server(
                LaunchView::Bundled(p),
                match opt_creds_view(f) {
                    Some(x) => Some(x),
                    None => spec_parse_setup_credentials(stdout),
                },
            ),
            _ => finish_err(seq![]),
        },
        PhaseView::SpawnHealth(launch, creds) => match e {
            StartupEvent::Health(true) => start_wait(resume_of(launch, creds)),
            _ => StepView {
                phase: PhaseView::Spawned(resume_of(launch, creds)),
                statuses: seq![],
                request: RequestView::Spawn(launch),
            },
        },
        PhaseView::Spawned(r) => match e {
            StartupEvent::Outcome(Ok(())) => start_wait(r),
            StartupEvent::Outcome(Err(msg)) => finish_err(msg@),
            _ => finish_err(seq![]),
        },
        PhaseView::Clock(r) => match e {
            StartupEvent::Clock(ms) => if ms >= STARTUP_TIMEOUT_MS {
                StepView {
                    phase: PhaseView::Finished,
                    statuses: seq![info_view(still_starting_text(c.port))],
                    request: RequestView::Finish(Err(notice_text(Notice::TimedOut))),
                }
            } else {
                StepView {
                    phase: PhaseView::WaitHealth(r),
                    statuses: seq![],
                    request: RequestView::CheckHealth,
                }
            },
            _ => finish_err(seq![]),
        },
        PhaseView::WaitHealth(r) => match e {
            StartupEvent::Health(true) => server_ready(c, r),
            _ => StepView {
                phase: PhaseView::ChildExit(r),
                statuses: seq![],
                request: RequestView::CheckChildExit,
            },
        },
        PhaseView::ChildExit(r) => match e {
            StartupEvent::ChildExit(Some(code)) => finish_err(
                exited_early_text(code@, log_text(c, platform)),
            ),
            _ => StepView {
                phase: PhaseView::Clock(r),
                statuses: seq![],
                request: RequestView::ReadClock { restart: false, sleep_ms: HEALTH_POLL_MS },
            },
        },
        PhaseView::FinalCredsRead => match e {
            StartupEvent::CredsFile(f) => finish_ok(opt_creds_view(f)),
            _ => finish_err(seq![]),
        },
        PhaseView::VenvPythonProbe(root, first) => match e {
            StartupEvent::Files(fs) => if fs.has_file(venv_python_path(root, platform)) {
                StepView {
                    phase: PhaseView::MarkerProbe(root),
                    statuses: seq![],
                    request: RequestView::Probe(
                        seq![
                            venv_ready_marker_path(root),
                            data_file_paths(c.data_root).0,
                            data_file_paths(c.data_root).1,
                        ],
                    ),
                }
            } else if first {
                StepView {
                    phase: PhaseView::InstallDirMade(root),
                    statuses: seq![info(Notice::CreatingVenv)],
                    request: RequestView::CreateDir(root),
                }
            } else {
                finish_err(notice_text(Notice::VenvNotCreated))
            },
            _ => finish_err(seq![]),
        },
        PhaseView::InstallDirMade(root) => match e {
            StartupEvent::Outcome(Ok(())) => StepView {
                phase: PhaseView::PythonFound(root),
                statuses: seq![],
                request: RequestView::FindPython,
            },
            StartupEvent::Outcome(Err(msg)) => finish_err(
                install_dir_failed_text(root.rendered(platform.separator()), msg@),
            ),
            _ => finish_err(seq![]),
        },
        PhaseView::PythonFound(root) => match e {
            StartupEvent::Python(Some((launcher, args))) => StepView {
                phase: PhaseView::VenvCreated(root),
                statuses: seq![
                    info_view(using_python_text(launcher@.rendered(platform.separator()))),
                ],
                request: RequestView::RunCommand(
                    CommandView {
                        program: launcher@,
                        args: strings_view(args@) + seq![
                            "-m"@,
                            "venv"@,
                            root.child("venv"@).rendered(platform.separator()),
                        ],
                        workdir: None,
                        data_dir_env: None,
                        hide_window: true,
                    },
                ),
            },
            _ => finish_err(crate::python::python_missing_text()),
        },
        PhaseView::VenvCreated(root) => match e {
            StartupEvent::Command(r) => match command_failure_text(
                CommandKind::CreateVenv,
                r@,
                seq![],
                log_text(c, platform),
            ) {
                Some(msg) => finish_err(msg),
                None => StepView {
                    phase: PhaseView::VenvPythonProbe(root, false),
                    statuses: seq![],
                    request: RequestView::Probe(seq![venv_python_path(root, platform)]),
                },
            },
            _ => finish_err(seq![]),
        },
        PhaseView::MarkerProbe(root) => match e {
            StartupEvent::Files(fs) => {
                let python = venv_python_path(root, platform);
                if !fs.has_file(venv_ready_marker_path(root)) {
                    StepView {
                        phase: PhaseView::PipUpgraded(root),
                        statuses: seq![
                            info(Notice::InstallingDependencies),
                            info(Notice::UpgradingPip),
                        ],
                        request: RequestView::RunCommand(
                            python_command(python, root, pip_upgrade_args()),
                        ),
                    }
                } else if spec_needs_data_setup(c, fs) {
                    StepView {
                        phase: PhaseView::SetupRan(root, false),
                        statuses: seq![info(Notice::RunningSetup), info(Notice::RunningSetupPy)],
                        request: RequestView::RunCommand(
                            python_command(python, root, setup_py_args()),
                        ),
                    }
                } else {
                    start_server(LaunchView::Venv(python, root), None)
                }
            },
            _ => finish_err(seq![]),
        },
        PhaseView::PipUpgraded(root) => match e {
            StartupEvent::Command(r) => {
                let python = venv_python_path(root, platform);
                match command_failure_text(
                    CommandKind::Pip,
                    r@,
                    python.rendered(platform.separator()),
                    log_text(c, platform),
                ) {
                    Some(msg) => finish_err(msg),
                    None => StepView {
                        phase: PhaseView::PackagesInstalled(root),
                        statuses: seq![
                            info(Notice::InstallingRequirements),
                            info(Notice::InstallingPackages),
                        ],
                        request: RequestView::RunCommand(
                            python_command(python, root, requirements_args(root, platform)),
                        ),
                    },
                }
            },
            _ => finish_err(seq![]),
        },
        PhaseView::PackagesInstalled(root) => match e {
            StartupEvent::Command(r) => {
                let python = venv_python_path(root, platform);
                match command_failure_text(
                    CommandKind::Pip,
                    r@,
                    python.rendered(platform.separator()),
                    log_text(c, platform),
                ) {
                    Some(msg) => finish_err(msg),
                    None => StepView {
                        phase: PhaseView::SetupRan(root, true),
                        statuses: seq![info(Notice::RunningFirstSetup), info(Notice::RunningSetupPy)],
                        request: RequestView::RunCommand(
                            python_command(python, root, setup_py_args()),
                        ),
                    },
                }
            },
            _ => finish_err(seq![]),
        },
        PhaseView::SetupRan(root, first) => match e {
            StartupEvent::Command(r) => match command_failure_text(
                CommandKind::SetupPy,
                r@,
                seq![],
                log_text(c, platform),
            ) {
                Some(msg) => finish_err(msg),
                None => {
                    let creds = spec_parse_setup_credentials(
                        match r {
                            CommandResult::Exited { stdout, .. } => stdout@,
                            _ => seq![],
                        },
                    );
                    if first {
                        StepView {
                            phase: PhaseView::MarkerWritten(root, creds),
                            statuses: seq![],
                            request: RequestView::WriteReadyMarker(venv_ready_marker_path(root)),
                        }
                    } else {
                        start_server(LaunchView::Venv(venv_python_path(root, platform), root), creds)
                    }
                },
            },
            _ => finish_err(seq![]),
        },
        PhaseView::MarkerWritten(root, creds) => start_server(
            LaunchView::Venv(venv_python_path(root, platform), root),
            creds,
        ),
        PhaseView::Finished => finish_err(seq![]),
    }
}

pub open spec fn install_dir_failed_text(root: Seq<char>, err: Seq<char>) -> Seq<char> {
    "Could not prepare install folder "@ + root + ": "@ + err
}

/// The outcome of one move: the status updates to show, in order, and the
/// request to perform.
pub struct Step {
    pub statuses: Vec<StatusPayload>,
    pub request: Request,
}

pub open spec fn move_view(p: Phase, statuses: Seq<StatusPayload>, r: Request) -> StepView {
    StepView { phase: p@, statuses: statuses_view(statuses), request: r@ }
}

type Move = (Phase, Vec<StatusPayload>, Request);

pub open spec fn mv(m: (Phase, Vec<StatusPayload>, Request)) -> StepView {
    move_view(m.0, m.1@, m.2)
}

fn no_status() -> (r: Vec<StatusPayload>)
    ensures
        statuses_view(r@) == Seq::<StatusView>::empty(),
{
    let r: Vec<StatusPayload> = Vec::new();
    proof {
        assert(statuses_view(r@) =~= Seq::<StatusView>::empty());
    }
    r
}

fn one_status(a: StatusPayload) -> (r: Vec<StatusPayload>)
    ensures
        statuses_view(r@) == seq![a@],
{
    let ghost av = a@;
    let mut r: Vec<StatusPayload> = Vec::new();
    r.push(a);
    proof {
        assert(statuses_view(r@) =~= seq![av]);
    }
    r
}

fn two_statuses(a: StatusPayload, b: StatusPayload) -> (r: Vec<StatusPayload>)
    ensures
        statuses_view(r@) == seq![a@, b@],
{
    let ghost av = a@;
    let ghost bv = b@;
    let mut r: Vec<StatusPayload> = Vec::new();
    r.push(a);
    r.push(b);
    proof {
        assert(statuses_view(r@) =~= seq![av, bv]);
    }
    r
}

fn info_status(n: Notice) -> (r: StatusPayload)
    ensures
        r@ == info(n),
{
    StatusPayload::info(notice(n))
}

fn finish_with_error(msg: String) -> (r: Move)
    ensures
        mv(r) == finish_err(msg@),
{
    (Phase::Finished, no_status(), Request::Finish(Err(msg)))
}

fn finish_with(creds: Option<SetupCredentials>) -> (r: Move)
    ensures
        mv(r) == finish_ok(opt_creds_view(creds)),
{
    (Phase::Finished, no_status(), Request::Finish(Ok(creds)))
}

fn start_server_move(launch: Launch, creds: Option<SetupCredentials>) -> (r: Move)
    ensures
        mv(r) == start_server(launch@, opt_creds_view(creds)),
{
    (Phase::SpawnHealth(launch, creds), one_status(info_status(Notice::Starting)), Request::CheckHealth)
}

fn resume_for(launch: &Launch, creds: Option<SetupCredentials>) -> (r: Resume)
    ensures
        r@ == resume_of(launch@, opt_creds_view(creds)),
{
    match launch {
        Launch::Bundled(_) => Resume::Bundled(creds),
        Launch::Venv { .. } => Resume::Venv(creds),
    }
}

fn start_wait_move(r: Resume) -> (out: Move)
    ensures
        mv(out) == start_wait(r@),
{
    (
        Phase::Clock(r),
        one_status(info_status(Notice::Waiting)),
        Request::ReadClock { restart: true, sleep_ms: 0 },
    )
}

fn copy_creds(c: &Option<SetupCredentials>) -> (r: Option<SetupCredentials>)
    ensures
        opt_creds_view(r) == opt_creds_view(*c),
{
    match c {
        Some(x) => Some(x.copy()),
        None => None,
    }
}

fn copy_resume(r: &Resume) -> (out: Resume)
    ensures
        out@ == r@,
{
    match r {
        Resume::Bundled(c) => Resume::Bundled(copy_creds(c)),
        Resume::Venv(c) => Resume::Venv(copy_creds(c)),
    }
}

fn copy_launch(l: &Launch) -> (out: Launch)
    ensures
        out@ == l@,
{
    match l {
        Launch::Bundled(p) => Launch::Bundled(p.copy()),
        Launch::Venv { python, repo_root } => Launch::Venv {
            python: python.copy(),
            repo_root: repo_root.copy(),
        },
    }
}

fn one_path(p: FsPath) -> (r: Vec<FsPath>)
    ensures
        paths_view(r@) == seq![p@],
{
    let ghost pv = p@;
    let mut r: Vec<FsPath> = Vec::new();
    r.push(p);
    proof {
        assert(paths_view(r@) =~= seq![pv]);
    }
    r
}

fn literal_args1(a: &str) -> (r: Vec<String>)
    ensures
        strings_view(r@) == seq![a@],
{
    let mut r: Vec<String> = Vec::new();
    r.push(a.to_owned());
    proof {
        assert(strings_view(r@) =~= seq![a@]);
    }
    r
}

fn pip_upgrade() -> (r: Vec<String>)
    ensures
        strings_view(r@) == pip_upgrade_args(),
{
    let mut r: Vec<String> = Vec::new();
    r.push("-m".to_owned());
    r.push("pip".to_owned());
    r.push("install".to_owned());
    r.push("--upgrade".to_owned());
    r.push("pip".to_owned());
    proof {
        assert(strings_view(r@) =~= pip_upgrade_args());
    }
    r
}

fn requirements_install(root: &FsPath, platform: Platform) -> (r: Vec<String>)
    ensures
        strings_view(r@) == requirements_args(root@, platform),
{
    proof {
        reveal_strlit("requirements.txt");
    }
    let mut r: Vec<String> = Vec::new();
    r.push("-m".to_owned());
    r.push("pip".to_owned());
    r.push("install".to_owned());
    r.push("-r".to_owned());
    r.push(root.join("requirements.txt").display(platform));
    proof {
        assert(strings_view(r@) =~= requirements_args(root@, platform));
    }
    r
}

fn python_run(python: FsPath, root: &FsPath, args: Vec<String>) -> (r: CommandSpec)
    ensures
        r@ == python_command(python@, root@, strings_view(args@)),
{
    CommandSpec { program: python, args, workdir: Some(root.copy()), data_dir_env: None, hide_window: false }
}

/// Brings the local server up, one observation at a time.
pub struct StartupMachine {
    manager: ServerManager,
    platform: Platform,
    phase: Phase,
}

impl StartupMachine {
    pub closed spec fn config(&self) -> ServerConfig {
        self.manager.config()
    }

    pub closed spec fn platform(&self) -> Platform {
        self.platform
    }

    pub closed spec fn phase(&self) -> PhaseView {
        self.phase@
    }

    /// A machine about to bring up the server that `manager` describes.
    pub fn new(manager: ServerManager, platform: Platform) -> (r: StartupMachine)
        ensures
            r.config() == manager.config(),
            r.platform() == platform,
            r.phase() == PhaseView::Begin,
    {
        StartupMachine { manager, platform, phase: Phase::Begin }
    }

    /// Whether `e` answers the machine's last request.
    pub fn expects(&self, e: &StartupEvent) -> (r: bool)
        ensures
            r == expects(self.phase(), *e),
    {
        match (&self.phase, e) {
            (Phase::Begin, StartupEvent::Started) => true,
            (Phase::DirsPrepared, StartupEvent::Done) => true,
            (Phase::InitialHealth, StartupEvent::Health(_)) => true,
            (Phase::BusyProbe, StartupEvent::Files(_)) => true,
            (Phase::BundledProbe(_), StartupEvent::Files(_)) => true,
            (Phase::NativeInstalled, StartupEvent::NativeServer(_)) => true,
            (Phase::BundledBootstrap(_), StartupEvent::Files(_)) => true,
            (Phase::BundledSetupRan(_), StartupEvent::Command(_)) => true,
            (Phase::BundledCredsRead(_, _), StartupEvent::CredsFile(_)) => true,
            (Phase::SpawnHealth(_, _), StartupEvent::Health(_)) => true,
            (Phase::Spawned(_), StartupEvent::Outcome(_)) => true,
            (Phase::Clock(_), StartupEvent::Clock(_)) => true,
            (Phase::WaitHealth(_), StartupEvent::Health(_)) => true,
            (Phase::ChildExit(_), StartupEvent::ChildExit(_)) => true,
            (Phase::FinalCredsRead, StartupEvent::CredsFile(_)) => true,
            (Phase::VenvPythonProbe(_, _), StartupEvent::Files(_)) => true,
            (Phase::InstallDirMade(_), StartupEvent::Outcome(_)) => true,
            (Phase::PythonFound(_), StartupEvent::Python(_)) => true,
            (Phase::VenvCreated(_), StartupEvent::Command(_)) => true,
            (Phase::MarkerProbe(_), StartupEvent::Files(_)) => true,
            (Phase::PipUpgraded(_), StartupEvent::Command(_)) => true,
            (Phase::PackagesInstalled(_), StartupEvent::Command(_)) => true,
            (Phase::SetupRan(_, _), StartupEvent::Command(_)) => true,
            (Phase::MarkerWritten(_, _), StartupEvent::Done) => true,
            _ => false,
        }
    }

    /// Whether the machine has given its result.
    pub fn is_finished(&self) -> (r: bool)
        ensures
            r == (self.phase() is Finished),
    {
        match self.phase {
            Phase::Finished => true,
            _ => false,
        }
    }

    /// Takes in the outcome of the last request (or `Started`), and says what
    /// to show and what to do next, as [`spec_step`] lays down.
    pub fn step(&mut self, e: StartupEvent) -> (r: Step)
        requires
            expects(old(self).phase(), e),
        ensures
            final(self).config() == old(self).config(),
            final(self).platform() == old(self).platform(),
            final(self).phase() == spec_step(
                old(self).config(),
                old(self).platform(),
                old(self).phase(),
                e,
            ).phase,
            statuses_view(r.statuses@) == spec_step(
                old(self).config(),
                old(self).platform(),
                old(self).phase(),
                e,
            ).statuses,
            r.request@ == spec_step(
                old(self).config(),
                old(self).platform(),
                old(self).phase(),
                e,
            ).request,
    {
        let mut phase = Phase::Finished;
        core::mem::swap(&mut phase, &mut self.phase);
        let out = transition(&self.manager, self.platform, phase, e);
        self.phase = out.0;
        Step { statuses: out.1, request: out.2 }
    }
}

fn on_initial_health(m: &ServerManager, platform: Platform, healthy: bool) -> (r: Move)
    ensures
        mv(r) == spec_step(
            m.config(),
            platform,
            PhaseView::InitialHealth,
            StartupEvent::Health(healthy),
        ),
{
    if healthy {
        return (Phase::BusyProbe, no_status(), Request::Probe(m.bootstrap_files(platform)));
    }
    let prep = if m.native_bundle_expected() {
        info_status(Notice::PreparingNative)
    } else {
        info_status(Notice::CheckingPython)
    };
    if m.bundled_mode() {
        match m.bundled_server() {
            Some(p) => (Phase::BundledProbe(p.copy()), one_status(prep), Request::Probe(one_path(p.copy()))),
            None => (
                Phase::NativeInstalled,
                two_statuses(prep, info_status(Notice::InstallingNativeServer)),
                Request::InstallNativeServer,
            ),
        }
    } else {
        match m.venv_root() {
            None => (
                Phase::Finished,
                one_status(prep),
                Request::Finish(Err(notice(Notice::RuntimeRootMissing))),
            ),
            Some(root) => (
                Phase::VenvPythonProbe(root.copy(), true),
                one_status(prep),
                Request::Probe(one_path(venv_python(root, platform))),
            ),
        }
    }
}

fn on_busy_probe(m: &ServerManager, platform: Platform, fs: FileSnapshot) -> (r: Move)
    ensures
        mv(r) == spec_step(m.config(), platform, PhaseView::BusyProbe, StartupEvent::Files(fs)),
{
    if m.needs_bootstrap(&fs, platform) {
        finish_with_error(notice(Notice::PortBusy))
    } else {
        (Phase::Finished, one_status(info_status(Notice::Connecting)), Request::Finish(Ok(None)))
    }
}

fn on_bundled_probe(m: &ServerManager, platform: Platform, p: FsPath, fs: FileSnapshot) -> (r:
    Move)
    ensures
        mv(r) == spec_step(
            m.config(),
            platform,
            PhaseView::BundledProbe(p@),
            StartupEvent::Files(fs),
        ),
{
    if fs.is_file(&p) {
        (Phase::BundledBootstrap(p), no_status(), Request::Probe(m.bootstrap_files(platform)))
    } else if !m.native_bundle_expected() {
        finish_with_error(notice(Notice::BundledServerMissing))
    } else {
        (
            Phase::NativeInstalled,
            one_status(info_status(Notice::InstallingNativeServer)),
            Request::InstallNativeServer,
        )
    }
}

fn bundled_setup_spec(m: &ServerManager, exe: &FsPath) -> (r: CommandSpec)
    ensures
        r@ == bundled_setup_command(m.config(), exe@),
{
    proof {
        reveal_strlit("--setup-only");
        reveal_strlit(".");
    }
    let workdir = match exe.parent() {
        Some(d) => d,
        None => {
            let mut parts: Vec<String> = Vec::new();
            parts.push(".".to_owned());
            let dot = FsPath::new(String::new(), parts);
            proof {
                assert(dot@.parts =~= seq!["."@]);
                assert(dot@.root =~= Seq::<char>::empty());
                assert(dot@ == crate::paths::current_dir_path());
            }
            dot
        },
    };
    CommandSpec {
        program: exe.copy(),
        args: literal_args1("--setup-only"),
        workdir: Some(workdir),
        data_dir_env: Some(m.data_root().copy()),
        hide_window: true,
    }
}

fn on_bundled_bootstrap(m: &ServerManager, platform: Platform, p: FsPath, fs: FileSnapshot) -> (r:
    Move)
    ensures
        mv(r) == spec_step(
            m.config(),
            platform,
            PhaseView::BundledBootstrap(p@),
            StartupEvent::Files(fs),
        ),
{
    if m.needs_bootstrap(&fs, platform) {
        let cmd = bundled_setup_spec(m, &p);
        (
            Phase::BundledSetupRan(p),
            one_status(info_status(Notice::RunningFirstSetup)),
            Request::RunCommand(cmd),
        )
    } else {
        start_server_move(Launch::Bundled(p), None)
    }
}

fn log_display(m: &ServerManager, platform: Platform) -> (r: String)
    ensures
        r@ == log_text(m.config(), platform),
{
    desktop_log_file(m.data_root()).display(platform)
}

fn on_bundled_setup_ran(m: &ServerManager, platform: Platform, p: FsPath, res: CommandResult) -> (r:
    Move)
    ensures
        mv(r) == spec_step(
            m.config(),
            platform,
            PhaseView::BundledSetupRan(p@),
            StartupEvent::Command(res),
        ),
{
    let log = log_display(m, platform);
    match command_failure(CommandKind::BundledSetup, &res, "", log.as_str()) {
        Some(msg) => {
            proof {
                assert(""@ =~= Seq::<char>::empty()) by {
                    reveal_strlit("");
                }
            }
            finish_with_error(msg)
        },
        None => {
            proof {
                assert(""@ =~= Seq::<char>::empty()) by {
                    reveal_strlit("");
                }
            }
            let stdout = match res {
                CommandResult::Exited { stdout, .. } => stdout,
                CommandResult::SpawnFailed(_) => String::new(),
            };
            (
                Phase::BundledCredsRead(p, stdout),
                no_status(),
                Request::ReadCredsFile(setup_creds_file(m.data_root())),
            )
        },
    }
}

fn on_spawn_health(launch: Launch, creds: Option<SetupCredentials>, healthy: bool) -> (r: Move)
    ensures
        forall|c: ServerConfig, platform: Platform|
            mv(r) == #[trigger] spec_step(
                c,
                platform,
                PhaseView::SpawnHealth(launch@, opt_creds_view(creds)),
                StartupEvent::Health(healthy),
            ),
{
    let resume = resume_for(&launch, creds);
    if healthy {
        start_wait_move(resume)
    } else {
        (Phase::Spawned(resume), no_status(), Request::Spawn(launch))
    }
}

fn on_clock(m: &ServerManager, platform: Platform, resume: Resume, ms: u64) -> (r: Move)
    ensures
        mv(r) == spec_step(m.config(), platform, PhaseView::Clock(resume@), StartupEvent::Clock(ms)),
{
    if ms >= STARTUP_TIMEOUT_MS {
        (
            Phase::Finished,
            one_status(StatusPayload::info(still_starting_message(m.port()))),
            Request::Finish(Err(notice(Notice::TimedOut))),
        )
    } else {
        (Phase::WaitHealth(resume), no_status(), Request::CheckHealth)
    }
}

fn on_wait_health(m: &ServerManager, platform: Platform, resume: Resume, healthy: bool) -> (r: Move)
    ensures
        mv(r) == spec_step(
            m.config(),
            platform,
            PhaseView::WaitHealth(resume@),
            StartupEvent::Health(healthy),
        ),
{
    if !healthy {
        return (Phase::ChildExit(resume), no_status(), Request::CheckChildExit);
    }
    match resume {
        Resume::Bundled(Some(x)) => finish_with(Some(x)),
        Resume::Bundled(None) => (
            Phase::FinalCredsRead,
            no_status(),
            Request::ReadCredsFile(setup_creds_file(m.data_root())),
        ),
        Resume::Venv(x) => finish_with(x),
    }
}

fn on_child_exit(m: &ServerManager, platform: Platform, resume: Resume, code: Option<String>) -> (r:
    Move)
    ensures
        mv(r) == spec_step(
            m.config(),
            platform,
            PhaseView::ChildExit(resume@),
            StartupEvent::ChildExit(code),
        ),
{
    match code {
        Some(c) => finish_with_error(
            exited_early_message(c.as_str(), &desktop_log_file(m.data_root()), platform),
        ),
        None => (
            Phase::Clock(resume),
            no_status(),
            Request::ReadClock { restart: false, sleep_ms: HEALTH_POLL_MS },
        ),
    }
}

fn on_venv_python_probe(
    m: &ServerManager,
    platform: Platform,
    root: FsPath,
    first: bool,
    fs: FileSnapshot,
) -> (r: Move)
    ensures
        mv(r) == spec_step(
            m.config(),
            platform,
            PhaseView::VenvPythonProbe(root@, first),
            StartupEvent::Files(fs),
        ),
{
    if fs.is_file(&venv_python(&root, platform)) {
        let (db, auth) = data_files(m.data_root());
        let mut probe: Vec<FsPath> = Vec::new();
        probe.push(venv_ready_marker(&root));
        probe.push(db);
        probe.push(auth);
        proof {
            assert(paths_view(probe@) =~= seq![
                venv_ready_marker_path(root@),
                data_file_paths(m.config().data_root).0,
                data_file_paths(m.config().data_root).1,
            ]);
        }
        (Phase::MarkerProbe(root), no_status(), Request::Probe(probe))
    } else if first {
        let dir = root.copy();
        (Phase::InstallDirMade(root), one_status(info_status(Notice::CreatingVenv)), Request::CreateDir(dir))
    } else {
        finish_with_error(notice(Notice::VenvNotCreated))
    }
}

fn on_install_dir_made(m: &ServerManager, platform: Platform, root: FsPath, res: Result<(), String>)
    -> (r: Move)
    ensures
        mv(r) == spec_step(
            m.config(),
            platform,
            PhaseView::InstallDirMade(root@),
            StartupEvent::Outcome(res),
        ),
{
    match res {
        Ok(()) => (Phase::PythonFound(root), no_status(), Request::FindPython),
        Err(e) => finish_with_error(
            "Could not prepare install folder ".to_owned().concat(root.display(platform).as_str()).concat(
                ": ",
            ).concat(e.as_str()),
        ),
    }
}

fn on_python_found(
    m: &ServerManager,
    platform: Platform,
    root: FsPath,
    found: Option<(FsPath, Vec<String>)>,
) -> (r: Move)
    ensures
        mv(r) == spec_step(
            m.config(),
            platform,
            PhaseView::PythonFound(root@),
            StartupEvent::Python(found),
        ),
{
    proof {
        reveal_strlit("venv");
    }
    match found {
        None => finish_with_error(crate::python::python_missing_message()),
        Some((launcher, args)) => {
            let status = StatusPayload::info(using_python_message(&launcher, platform));
            let mut all = venv_creation_args(&args);
            let ghost before = all@;
            let shown = root.join("venv").display(platform);
            let ghost sv = shown@;
            all.push(shown);
            proof {
                assert(strings_view(all@) =~= strings_view(before).push(sv));
                assert(strings_view(before) == strings_view(args@) + seq!["-m"@, "venv"@]);
                assert(strings_view(all@) =~= strings_view(args@) + seq![
                    "-m"@,
                    "venv"@,
                    root@.child("venv"@).rendered(platform.separator()),
                ]);
            }
            let cmd = CommandSpec {
                program: launcher,
                args: all,
                workdir: None,
                data_dir_env: None,
                hide_window: true,
            };
            (Phase::VenvCreated(root), one_status(status), Request::RunCommand(cmd))
        },
    }
}

fn on_venv_created(m: &ServerManager, platform: Platform, root: FsPath, res: CommandResult) -> (r:
    Move)
    ensures
        mv(r) == spec_step(
            m.config(),
            platform,
            PhaseView::VenvCreated(root@),
            StartupEvent::Command(res),
        ),
{
    proof {
        reveal_strlit("");
    }
    let log = log_display(m, platform);
    match command_failure(CommandKind::CreateVenv, &res, "", log.as_str()) {
        Some(msg) => finish_with_error(msg),
        None => {
            let python = venv_python(&root, platform);
            (Phase::VenvPythonProbe(root, false), no_status(), Request::Probe(one_path(python)))
        },
    }
}

fn on_marker_probe(m: &ServerManager, platform: Platform, root: FsPath, fs: FileSnapshot) -> (r:
    Move)
    ensures
        mv(r) == spec_step(
            m.config(),
            platform,
            PhaseView::MarkerProbe(root@),
            StartupEvent::Files(fs),
        ),
{
    let python = venv_python(&root, platform);
    if !fs.is_file(&venv_ready_marker(&root)) {
        let cmd = python_run(python, &root, pip_upgrade());
        (
            Phase::PipUpgraded(root),
            two_statuses(info_status(Notice::InstallingDependencies), info_status(Notice::UpgradingPip)),
            Request::RunCommand(cmd),
        )
    } else if m.needs_data_setup(&fs) {
        let cmd = python_run(python, &root, literal_args1("setup.py"));
        (
            Phase::SetupRan(root, false),
            two_statuses(info_status(Notice::RunningSetup), info_status(Notice::RunningSetupPy)),
            Request::RunCommand(cmd),
        )
    } else {
        start_server_move(Launch::Venv { python, repo_root: root }, None)
    }
}

fn on_pip_ran(
    m: &ServerManager,
    platform: Platform,
    root: FsPath,
    upgraded: bool,
    res: CommandResult,
) -> (r: Move)
    ensures
        mv(r) == spec_step(
            m.config(),
            platform,
            if upgraded {
                PhaseView::PipUpgraded(root@)
            } else {
                PhaseView::PackagesInstalled(root@)
            },
            StartupEvent::Command(res),
        ),
{
    let python = venv_python(&root, platform);
    let log = log_display(m, platform);
    let shown = python.display(platform);
    match command_failure(CommandKind::Pip, &res, shown.as_str(), log.as_str()) {
        Some(msg) => finish_with_error(msg),
        None => {
            if upgraded {
                let cmd = python_run(python, &root, requirements_install(&root, platform));
                (
                    Phase::PackagesInstalled(root),
                    two_statuses(
                        info_status(Notice::InstallingRequirements),
                        info_status(Notice::InstallingPackages),
                    ),
                    Request::RunCommand(cmd),
                )
            } else {
                let cmd = python_run(python, &root, literal_args1("setup.py"));
                (
                    Phase::SetupRan(root, true),
                    two_statuses(
                        info_status(Notice::RunningFirstSetup),
                        info_status(Notice::RunningSetupPy),
                    ),
                    Request::RunCommand(cmd),
                )
            }
        },
    }
}

fn on_setup_ran(m: &ServerManager, platform: Platform, root: FsPath, first: bool, res: CommandResult)
    -> (r: Move)
    ensures
        mv(r) == spec_step(
            m.config(),
            platform,
            PhaseView::SetupRan(root@, first),
            StartupEvent::Command(res),
        ),
{
    proof {
        reveal_strlit("");
    }
    let log = log_display(m, platform);
    match command_failure(CommandKind::SetupPy, &res, "", log.as_str()) {
        Some(msg) => finish_with_error(msg),
        None => {
            let creds = match &res {
                CommandResult::Exited { stdout, .. } => parse_setup_credentials(stdout.as_str()),
                CommandResult::SpawnFailed(_) => None,
            };
            if first {
                let marker = venv_ready_marker(&root);
                (Phase::MarkerWritten(root, creds), no_status(), Request::WriteReadyMarker(marker))
            } else {
                let python = venv_python(&root, platform);
                start_server_move(Launch::Venv { python, repo_root: root }, creds)
            }
        },
    }
}

fn initial_dirs_exec(m: &ServerManager) -> (r: Vec<FsPath>)
    ensures
        paths_view(r@) == initial_dirs(m.config()),
{
    let log = desktop_log_file(m.data_root());
    let mut r: Vec<FsPath> = Vec::new();
    r.push(m.data_root().copy());
    match log.parent() {
        Some(p) => r.push(p),
        None => {},
    }
    proof {
        assert(paths_view(r@) =~= initial_dirs(m.config()));
    }
    r
}

fn transition(m: &ServerManager, platform: Platform, phase: Phase, e: StartupEvent) -> (r: Move)
    requires
        expects(phase@, e),
    ensures
        mv(r) == spec_step(m.config(), platform, phase@, e),
{
    match phase {
        Phase::Begin => (Phase::DirsPrepared, no_status(), Request::CreateDirs(initial_dirs_exec(m))),
        Phase::DirsPrepared => (Phase::InitialHealth, no_status(), Request::CheckHealth),
        Phase::InitialHealth => match e {
            StartupEvent::Health(h) => on_initial_health(m, platform, h),
            _ => finish_with_error(String::new()),
        },
        Phase::BusyProbe => match e {
            StartupEvent::Files(fs) => on_busy_probe(m, platform, fs),
            _ => finish_with_error(String::new()),
        },
        Phase::BundledProbe(p) => match e {
            StartupEvent::Files(fs) => on_bundled_probe(m, platform, p, fs),
            _ => finish_with_error(String::new()),
        },
        Phase::NativeInstalled => match e {
            StartupEvent::NativeServer(Ok(p)) => (
                Phase::BundledBootstrap(p),
                no_status(),
                Request::Probe(m.bootstrap_files(platform)),
            ),
            StartupEvent::NativeServer(Err(msg)) => finish_with_error(msg),
            _ => finish_with_error(String::new()),
        },
        Phase::BundledBootstrap(p) => match e {
            StartupEvent::Files(fs) => on_bundled_bootstrap(m, platform, p, fs),
            _ => finish_with_error(String::new()),
        },
        Phase::BundledSetupRan(p) => match e {
            StartupEvent::Command(res) => on_bundled_setup_ran(m, platform, p, res),
            _ => finish_with_error(String::new()),
        },
        Phase::BundledCredsRead(p, stdout) => match e {
            StartupEvent::CredsFile(f) => {
                let creds = bundled_setup_credentials(f, stdout.as_str());
                start_server_move(Launch::Bundled(p), creds)
            },
            _ => finish_with_error(String::new()),
        },
        Phase::SpawnHealth(launch, creds) => match e {
            StartupEvent::Health(h) => {
                let r = on_spawn_health(launch, creds, h);
                r
            },
            _ => finish_with_error(String::new()),
        },
        Phase::Spawned(resume) => match e {
            StartupEvent::Outcome(Ok(())) => start_wait_move(resume),
            StartupEvent::Outcome(Err(msg)) => finish_with_error(msg),
            _ => finish_with_error(String::new()),
        },
        Phase::Clock(resume) => match e {
            StartupEvent::Clock(ms) => on_clock(m, platform, resume, ms),
            _ => finish_with_error(String::new()),
        },
        Phase::WaitHealth(resume) => match e {
            StartupEvent::Health(h) => on_wait_health(m, platform, resume, h),
            _ => finish_with_error(String::new()),
        },
        Phase::ChildExit(resume) => match e {
            StartupEvent::ChildExit(code) => on_child_exit(m, platform, resume, code),
            _ => finish_with_error(String::new()),
        },
        Phase::FinalCredsRead => match e {
            StartupEvent::CredsFile(f) => finish_with(f),
            _ => finish_with_error(String::new()),
        },
        Phase::VenvPythonProbe(root, first) => match e {
            StartupEvent::Files(fs) => on_venv_python_probe(m, platform, root, first, fs),
            _ => finish_with_error(String::new()),
        },
        Phase::InstallDirMade(root) => match e {
            StartupEvent::Outcome(res) => on_install_dir_made(m, platform, root, res),
            _ => finish_with_error(String::new()),
        },
        Phase::PythonFound(root) => match e {
            StartupEvent::Python(found) => on_python_found(m, platform, root, found),
            _ => finish_with_error(String::new()),
        },
        Phase::VenvCreated(root) => match e {
            StartupEvent::Command(res) => on_venv_created(m, platform, root, res),
            _ => finish_with_error(String::new()),
        },
        Phase::MarkerProbe(root) => match e {
            StartupEvent::Files(fs) => on_marker_probe(m, platform, root, fs),
            _ => finish_with_error(String::new()),
        },
        Phase::PipUpgraded(root) => match e {
            StartupEvent::Command(res) => on_pip_ran(m, platform, root, true, res),
            _ => finish_with_error(String::new()),
        },
        Phase::PackagesInstalled(root) => match e {
            StartupEvent::Command(res) => on_pip_ran(m, platform, root, false, res),
            _ => finish_with_error(String::new()),
        },
        Phase::SetupRan(root, first) => match e {
            StartupEvent::Command(res) => on_setup_ran(m, platform, root, first, res),
            _ => finish_with_error(String::new()),
        },
        Phase::MarkerWritten(root, creds) => {
            let python = venv_python(&root, platform);
            start_server_move(Launch::Venv { python, repo_root: root }, creds)
        },
        Phase::Finished => finish_with_error(String::new()),
    }
}

/// The machine stops exactly when it gives its result: a move requests
/// `Finish` if and only if it leads to the `Finished` phase.
pub proof fn law_finish_is_final(c: ServerConfig, platform: Platform, phase: PhaseView, e: StartupEvent)
    requires
        expects(phase, e),
    ensures
        (spec_step(c, platform, phase, e).request is Finish) <==> (spec_step(
            c,
            platform,
            phase,
            e,
        ).phase is Finished),
{
}

/// A plain progress update: not a failure report and without credentials.
pub open spec fn is_progress(s: StatusView) -> bool {
    !s.error && s.admin_user is None && s.admin_password is None
}

/// Bringing the server up only ever shows progress: no status update of any
/// move, in any phase and on any event, reports a failure or carries
/// credentials. Failures leave only through `Finish(Err(..))`, credentials
/// only through `Finish(Ok(..))`.
pub proof fn law_statuses_are_progress(c: ServerConfig, platform: Platform, phase: PhaseView, e: StartupEvent)
    ensures
        forall|k: int|
            0 <= k < spec_step(c, platform, phase, e).statuses.len() ==> #[trigger] is_progress(
                spec_step(c, platform, phase, e).statuses[k],
            ),
{
}

/// First-time setup never runs while another server holds the port: when a
/// server already answers and setup is still needed, bringing the server up
/// fails with the port-busy error, without starting anything.
pub proof fn law_port_busy_refuses_setup(c: ServerConfig, platform: Platform, fs: FileSnapshot)
    requires
        spec_needs_bootstrap(c, fs, platform),
    ensures
        spec_step(c, platform, PhaseView::InitialHealth, StartupEvent::Health(true)).phase
            == PhaseView::BusyProbe,
        spec_step(c, platform, PhaseView::BusyProbe, StartupEvent::Files(fs)) == finish_err(
            notice_text(Notice::PortBusy),
        ),
{
}

/// A server that already answers is used as it is when no setup is needed.
pub proof fn law_running_server_is_reused(c: ServerConfig, platform: Platform, fs: FileSnapshot)
    requires
        !spec_needs_bootstrap(c, fs, platform),
    ensures
        spec_step(c, platform, PhaseView::BusyProbe, StartupEvent::Files(fs)).request
            == RequestView::Finish(Ok(None)),
{
}

/// Setup runs when needed: once the interpreter of the virtual environment
/// is there, the server is started straight away exactly when the ready
/// marker exists and the data root is set up; otherwise dependencies are
/// installed (no marker) or `setup.py` runs (data root not set up) first.
pub proof fn law_setup_when_needed(c: ServerConfig, platform: Platform, root: PathView, fs: FileSnapshot)
    ensures
        (spec_step(c, platform, PhaseView::MarkerProbe(root), StartupEvent::Files(fs)).phase is SpawnHealth)
            <==> (fs.has_file(venv_ready_marker_path(root)) && !spec_needs_data_setup(c, fs)),
        !fs.has_file(venv_ready_marker_path(root)) ==> spec_step(
            c,
            platform,
            PhaseView::MarkerProbe(root),
            StartupEvent::Files(fs),
        ).request == RequestView::RunCommand(
            python_command(venv_python_path(root, platform), root, pip_upgrade_args()),
        ),
        fs.has_file(venv_ready_marker_path(root)) && spec_needs_data_setup(c, fs) ==> spec_step(
            c,
            platform,
            PhaseView::MarkerProbe(root),
            StartupEvent::Files(fs),
        ).request == RequestView::RunCommand(
            python_command(venv_python_path(root, platform), root, setup_py_args()),
        ),
{
}

pub open spec fn succeeded(r: CommandResult) -> bool {
    r matches CommandResult::Exited { success, .. } && success
}

/// On first launch the dependencies are installed and first-time setup runs
/// before the server starts, and the ready marker is written: with no ready
/// marker and every command succeeding, the machine upgrades pip, installs the
/// requirements, runs `setup.py`, writes the marker, and then starts the
/// server with the credentials that setup printed.
pub proof fn law_first_launch_installs_then_starts(
    c: ServerConfig,
    platform: Platform,
    root: PathView,
    fs: FileSnapshot,
    pip: CommandResult,
    requirements: CommandResult,
    setup: CommandResult,
)
    requires
        !fs.has_file(venv_ready_marker_path(root)),
        succeeded(pip),
        succeeded(requirements),
        succeeded(setup),
    ensures
        ({
            let python = venv_python_path(root, platform);
            let s1 = spec_step(c, platform, PhaseView::MarkerProbe(root), StartupEvent::Files(fs));
            let s2 = spec_step(c, platform, s1.phase, StartupEvent::Command(pip));
            let s3 = spec_step(c, platform, s2.phase, StartupEvent::Command(requirements));
            let s4 = spec_step(c, platform, s3.phase, StartupEvent::Command(setup));
            let s5 = spec_step(c, platform, s4.phase, StartupEvent::Done);
            &&& s1.request == RequestView::RunCommand(
                python_command(python, root, pip_upgrade_args()),
            )
            &&& s2.request == RequestView::RunCommand(
                python_command(python, root, requirements_args(root, platform)),
            )
            &&& s3.request == RequestView::RunCommand(python_command(python, root, setup_py_args()))
            &&& s4.request == RequestView::WriteReadyMarker(venv_ready_marker_path(root))
            &&& s5 == start_server(
                LaunchView::Venv(python, root),
                spec_parse_setup_credentials(
                    match setup {
                        CommandResult::Exited { stdout, .. } => stdout@,
                        _ => seq![],
                    },
                ),
            )
        }),
{
}

/// What every phase the machine reaches satisfies: the virtual environment
/// it works on is the configured runtime root, and a server started from it
/// runs that root's interpreter.
pub open spec fn phase_inv(c: ServerConfig, platform: Platform, phase: PhaseView) -> bool {
    match phase {
        PhaseView::VenvPythonProbe(root, _) => c.venv_root == Some(root),
        PhaseView::InstallDirMade(root) => c.venv_root == Some(root),
        PhaseView::PythonFound(root) => c.venv_root == Some(root),
        PhaseView::VenvCreated(root) => c.venv_root == Some(root),
        PhaseView::MarkerProbe(root) => c.venv_root == Some(root),
        PhaseView::PipUpgraded(root) => c.venv_root == Some(root),
        PhaseView::PackagesInstalled(root) => c.venv_root == Some(root),
        PhaseView::SetupRan(root, _) => c.venv_root == Some(root),
        PhaseView::MarkerWritten(root, _) => c.venv_root == Some(root),
        PhaseView::SpawnHealth(LaunchView::Venv(python, root), _) => c.venv_root == Some(root)
            && python == venv_python_path(root, platform),
        _ => true,
    }
}

/// The machine keeps [`phase_inv`]: it holds at the start and after every
/// move, and the server it spawns from a virtual environment is always the
/// configured root's interpreter.
pub proof fn law_phase_inv(c: ServerConfig, platform: Platform, phase: PhaseView, e: StartupEvent)
    requires
        phase_inv(c, platform, phase),
        expects(phase, e),
    ensures
        phase_inv(c, platform, PhaseView::Begin),
        phase_inv(c, platform, spec_step(c, platform, phase, e).phase),
        spec_step(c, platform, phase, e).request matches RequestView::Spawn(
            LaunchView::Venv(python, root),
        ) ==> c.venv_root == Some(root) && python == venv_python_path(root, platform),
{
}

/// The arguments the server is started with: uvicorn serving `app:app` for
/// the virtual environment, the executable's own options for the native
/// server; both on 127.0.0.1 at `port`.
pub open spec fn spawn_args_view(launch: LaunchView, port: u16) -> Seq<Seq<char>> {
    let serve = seq!["--host"@, "127.0.0.1"@, "--port"@, crate::paths::decimal(port as nat)];
    match launch {
        LaunchView::Bundled(_) => serve,
        LaunchView::Venv(_, _) => seq!["-m"@, "uvicorn"@, "app:app"@] + serve,
    }
}

pub fn spawn_args(launch: &Launch, port: u16) -> (r: Vec<String>)
    ensures
        strings_view(r@) == spawn_args_view(launch@, port),
{
    let mut r: Vec<String> = Vec::new();
    match launch {
        Launch::Venv { .. } => {
            r.push("-m".to_owned());
            r.push("uvicorn".to_owned());
            r.push("app:app".to_owned());
        },
        Launch::Bundled(_) => {},
    }
    r.push("--host".to_owned());
    r.push("127.0.0.1".to_owned());
    r.push("--port".to_owned());
    r.push(crate::paths::decimal_string(port));
    proof {
        assert(strings_view(r@) =~= spawn_args_view(launch@, port));
    }
    r
}

/// The environment flags the server is started with, besides
/// `ODYSSEUS_DATA_DIR`: Hugging Face downloads without symbolic links.
pub fn spawn_flags() -> (r: Vec<(String, String)>)
    ensures
        r@.len() == 2,
        r@[0].0@ == "HF_HUB_DISABLE_SYMLINKS"@ && r@[0].1@ == "1"@,
        r@[1].0@ == "HF_HUB_DISABLE_SYMLINKS_WARNING"@ && r@[1].1@ == "1"@,
{
    let mut r: Vec<(String, String)> = Vec::new();
    r.push(("HF_HUB_DISABLE_SYMLINKS".to_owned(), "1".to_owned()));
    r.push(("HF_HUB_DISABLE_SYMLINKS_WARNING".to_owned(), "1".to_owned()));
    r
}

/// What a command printed on standard output (nothing when it could not be
/// started).
pub open spec fn printed(r: CommandResult) -> Seq<char> {
    match r {
        CommandResult::Exited { stdout, .. } => stdout@,
        _ => seq![],
    }
}

/// Every successful `setup.py` run reports the credentials it printed: on a
/// first launch (after the ready marker is written) and when only the data
/// root needed setup alike, once the server is spawned and answers, the
/// machine finishes with the credentials read from what setup printed.
pub proof fn law_setup_credentials_reported(
    c: ServerConfig,
    platform: Platform,
    root: PathView,
    first: bool,
    setup: CommandResult,
)
    requires
        succeeded(setup),
    ensures
        ({
            let s1 = spec_step(c, platform, PhaseView::SetupRan(root, first), StartupEvent::Command(setup));
            let s2 = if first {
                spec_step(c, platform, s1.phase, StartupEvent::Done)
            } else {
                s1
            };
            let s3 = spec_step(c, platform, s2.phase, StartupEvent::Health(false));
            let s4 = spec_step(c, platform, s3.phase, StartupEvent::Outcome(Ok(())));
            let s5 = spec_step(c, platform, s4.phase, StartupEvent::Clock(0));
            let s6 = spec_step(c, platform, s5.phase, StartupEvent::Health(true));
            &&& s3.request == RequestView::Spawn(
                LaunchView::Venv(venv_python_path(root, platform), root),
            )
            &&& s6.request == RequestView::Finish(Ok(spec_parse_setup_credentials(printed(setup))))
        }),
{
}

/// The native server never starts before its first-time setup: once it is
/// installed and the data root holds neither `app.db` nor `auth.json`, the
/// machine probes those files and then runs the installed executable with
/// `--setup-only` on the data root, spawning nothing; after that setup
/// succeeds (and no credentials file was left), the server is started with
/// the credentials the setup printed.
pub proof fn law_native_setup_before_start(
    c: ServerConfig,
    platform: Platform,
    p: FsPath,
    fs: FileSnapshot,
    setup: CommandResult,
)
    requires
        c.native_bundle_expected,
        spec_needs_data_setup(c, fs),
        succeeded(setup),
    ensures
        ({
            let s1 = spec_step(c, platform, PhaseView::NativeInstalled, StartupEvent::NativeServer(Ok(p)));
            let s2 = spec_step(c, platform, s1.phase, StartupEvent::Files(fs));
            let s3 = spec_step(c, platform, s2.phase, StartupEvent::Command(setup));
            let s4 = spec_step(c, platform, s3.phase, StartupEvent::CredsFile(None));
            let s5 = spec_step(c, platform, s4.phase, StartupEvent::Health(false));
            &&& s1.request == RequestView::Probe(
                seq![data_file_paths(c.data_root).0, data_file_paths(c.data_root).1],
            )
            &&& s2.request matches RequestView::RunCommand(cmd) && cmd.program == p@
                && cmd.args == seq!["--setup-only"@] && cmd.data_dir_env == Some(c.data_root)
            &&& !(s1.request is Spawn) && !(s2.request is Spawn) && !(s3.request is Spawn)
            &&& s5.request == RequestView::Spawn(LaunchView::Bundled(p@))
            &&& s5.phase == PhaseView::Spawned(
                ResumeView::Bundled(spec_parse_setup_credentials(printed(setup))),
            )
        }),
{
}

/// The virtual environment is made by the interpreter that was found, started
/// the way it was found: the command runs the found launcher with the found
/// arguments first (such as the `py` selector), then `-m venv` and the
/// `venv` folder of the runtime root.
pub proof fn law_venv_made_by_found_python(
    c: ServerConfig,
    platform: Platform,
    root: PathView,
    launcher: FsPath,
    args: Vec<String>,
)
    ensures
        spec_step(
            c,
            platform,
            PhaseView::PythonFound(root),
            StartupEvent::Python(Some((launcher, args))),
        ).request matches RequestView::RunCommand(cmd) && cmd.program == launcher@
            && cmd.args.len() == args@.len() + 3
            && (forall|k: int| 0 <= k < args@.len() ==> #[trigger] cmd.args[k] == args@[k]@)
            && cmd.args[args@.len() as int] == "-m"@
            && cmd.args[args@.len() + 1int] == "venv"@
            && cmd.args[args@.len() + 2int] == root.child("venv"@).rendered(platform.separator()),
{
    let s = spec_step(c, platform, PhaseView::PythonFound(root), StartupEvent::Python(Some((launcher, args))));
    let n = args@.len() as int;
    let a = strings_view(args@);
    assert(a.len() == n);
    assert forall|k: int| 0 <= k < n implies #[trigger] a[k] == args@[k]@ by {}
}

} // verus!
