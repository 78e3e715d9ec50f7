//! The server's configuration, the decisions that depend on what is on disk,
//! and the texts shown while it starts.
use vstd::prelude::*;

use crate::path::{opt_path_view, FileSnapshot, FsPath, PathView, Platform};
use crate::paths::{
    server_url, server_url_text, venv_python, venv_python_path, venv_ready_marker,
    venv_ready_marker_path, DEFAULT_PORT,
};

verus! {

/// What the server manager is configured with.
pub struct ServerConfig {
    pub port: u16,
    pub data_root: PathView,
    pub bundled_server: Option<PathView>,
    pub venv_root: Option<PathView>,
    pub native_bundle_expected: bool,
}

impl ServerConfig {
    /// The server comes from the installer's native bundle rather than from a
    /// Python virtual environment.
    pub open spec fn bundled_mode(self) -> bool {
        self.native_bundle_expected || self.bundled_server is Some
    }
}

/// Starts and watches the local Odysseus server.
pub struct ServerManager {
    port: u16,
    data_root: FsPath,
    bundled_server: Option<FsPath>,
    venv_root: Option<FsPath>,
    native_bundle_expected: bool,
}

impl ServerManager {
    pub closed spec fn config(&self) -> ServerConfig {
        ServerConfig {
            port: self.port,
            data_root: self.data_root@,
            bundled_server: opt_path_view(self.bundled_server),
            venv_root: opt_path_view(self.venv_root),
            native_bundle_expected: self.native_bundle_expected,
        }
    }

    /// A manager for the server on the default port.
    pub fn new(
        data_root: FsPath,
        bundled_server: Option<FsPath>,
        venv_root: Option<FsPath>,
        native_bundle_expected: bool,
    ) -> (r: ServerManager)
        ensures
            r.config() == (ServerConfig {
                port: DEFAULT_PORT,
                data_root: data_root@,
                bundled_server: opt_path_view(bundled_server),
                venv_root: opt_path_view(venv_root),
                native_bundle_expected,
            }),
    {
        ServerManager { port: DEFAULT_PORT, data_root, bundled_server, venv_root, native_bundle_expected }
    }

    pub fn port(&self) -> (r: u16)
        ensures
            r == self.config().port,
    {
        self.port
    }

    /// The address of the server's web UI.
    pub fn app_url(&self) -> (r: String)
        ensures
            r@ == server_url_text(self.config().port),
    {
        server_url(self.port)
    }

    pub fn data_root(&self) -> (r: &FsPath)
        ensures
            r@ == self.config().data_root,
    {
        &self.data_root
    }

    pub fn bundled_server(&self) -> (r: &Option<FsPath>)
        ensures
            opt_path_view(*r) == self.config().bundled_server,
    {
        &self.bundled_server
    }

    pub fn venv_root(&self) -> (r: &Option<FsPath>)
        ensures
            opt_path_view(*r) == self.config().venv_root,
    {
        &self.venv_root
    }

    pub fn native_bundle_expected(&self) -> (r: bool)
        ensures
            r == self.config().native_bundle_expected,
    {
        self.native_bundle_expected
    }

    /// Whether the server comes from the native bundle.
    pub fn bundled_mode(&self) -> (r: bool)
        ensures
            r == self.config().bundled_mode(),
    {
        self.native_bundle_expected || self.bundled_server.is_some()
    }

    /// Whether the data root has no database and no auth file yet.
    pub fn needs_data_setup(&self, fs: &FileSnapshot) -> (r: bool)
        ensures
            r == spec_needs_data_setup(self.config(), *fs),
    {
        let (db, auth) = data_files(&self.data_root);
        !fs.is_file(&db) && !fs.is_file(&auth)
    }

    /// Whether first-time setup still has to run.
    pub fn needs_bootstrap(&self, fs: &FileSnapshot, platform: Platform) -> (r: bool)
        ensures
            r == spec_needs_bootstrap(self.config(), *fs, platform),
    {
        if self.native_bundle_expected || self.bundled_server.is_some() {
            return self.needs_data_setup(fs);
        }
        let repo_root = match &self.venv_root {
            Some(path) => path,
            None => return true,
        };
        let python = venv_python(repo_root, platform);
        let marker = venv_ready_marker(repo_root);
        !fs.is_file(&python) || !fs.is_file(&marker) || self.needs_data_setup(fs)
    }

    /// The files that [`Self::needs_bootstrap`] looks at.
    pub fn bootstrap_files(&self, platform: Platform) -> (r: Vec<FsPath>)
        ensures
            crate::path::paths_view(r@) == bootstrap_paths(self.config(), platform),
    {
        let (db, auth) = data_files(&self.data_root);
        let mut r: Vec<FsPath> = Vec::new();
        r.push(db);
        r.push(auth);
        if !(self.native_bundle_expected || self.bundled_server.is_some()) {
            if let Some(root) = &self.venv_root {
                r.push(venv_python(root, platform));
                r.push(venv_ready_marker(root));
            }
        }
        proof {
            assert(crate::path::paths_view(r@) =~= bootstrap_paths(self.config(), platform));
        }
        r
    }
}

/// The database and the auth file in the data root.
pub open spec fn data_file_paths(data_root: PathView) -> (PathView, PathView) {
    (data_root.child("app.db"@), data_root.child("auth.json"@))
}

pub fn data_files(data_root: &FsPath) -> (r: (FsPath, FsPath))
    ensures
        (r.0@, r.1@) == data_file_paths(data_root@),
{
    proof {
        reveal_strlit("app.db");
        reveal_strlit("auth.json");
    }
    (data_root.join("app.db"), data_root.join("auth.json"))
}

/// Setup has not run on the data root: it holds neither `app.db` nor
/// `auth.json`.
pub open spec fn spec_needs_data_setup(c: ServerConfig, fs: FileSnapshot) -> bool {
    !fs.has_file(data_file_paths(c.data_root).0) && !fs.has_file(data_file_paths(c.data_root).1)
}

/// First-time setup still has to run: for the native bundle, when the data
/// root is not set up; otherwise when there is no runtime root, or its
/// interpreter or ready marker is missing, or the data root is not set up.
pub open spec fn spec_needs_bootstrap(c: ServerConfig, fs: FileSnapshot, platform: Platform) -> bool {
    if c.bundled_mode() {
        spec_needs_data_setup(c, fs)
    } else {
        match c.venv_root {
            None => true,
            Some(root) => !fs.has_file(venv_python_path(root, platform)) || !fs.has_file(
                venv_ready_marker_path(root),
            ) || spec_needs_data_setup(c, fs),
        }
    }
}

pub open spec fn bootstrap_paths(c: ServerConfig, platform: Platform) -> Seq<PathView> {
    let data = seq![data_file_paths(c.data_root).0, data_file_paths(c.data_root).1];
    if !c.bundled_mode() && c.venv_root is Some {
        data + seq![
            venv_python_path(c.venv_root->0, platform),
            venv_ready_marker_path(c.venv_root->0),
        ]
    } else {
        data
    }
}

/// The fixed texts shown or returned while the server starts.
#[derive(Clone, Copy, PartialEq, Eq, Structural, Debug)]
pub enum Notice {
    PortBusy,
    Connecting,
    PreparingNative,
    CheckingPython,
    RuntimeRootMissing,
    CreatingVenv,
    VenvNotCreated,
    InstallingDependencies,
    RunningFirstSetup,
    RunningSetup,
    BundledServerMissing,
    InstallingNativeServer,
    Starting,
    Waiting,
    TimedOut,
    UpgradingPip,
    InstallingRequirements,
    InstallingPackages,
    RunningSetupPy,
}

pub open spec fn notice_text(n: Notice) -> Seq<char> {
    match n {
        Notice::PortBusy => "First-time setup cannot continue while another server is using port 7000. Close launch-windows.ps1 or any other Odysseus instance, then restart Omschrift Odysseus."@,
        Notice::Connecting => "Connecting to Omschrift Odysseus server…"@,
        Notice::PreparingNative => "Preparing Omschrift Odysseus (native bundle, no Python install required)…"@,
        Notice::CheckingPython => "Checking Python environment…"@,
        Notice::RuntimeRootMissing => "Python runtime root was not configured."@,
        Notice::CreatingVenv => "Creating virtual environment (first run)…"@,
        Notice::VenvNotCreated => "Virtual environment was not created. Install Python 3.11+ and try again."@,
        Notice::InstallingDependencies => "Installing Python dependencies (first run can take several minutes)…"@,
        Notice::RunningFirstSetup => "Running first-time setup…"@,
        Notice::RunningSetup => "Running setup…"@,
        Notice::BundledServerMissing => "Bundled Odysseus server was not found. Reinstall Omschrift Odysseus."@,
        Notice::InstallingNativeServer => "Installing native server files (first run may take a minute)…"@,
        Notice::Starting => "Starting Omschrift Odysseus server…"@,
        Notice::Waiting => "Waiting for Omschrift Odysseus to become ready…"@,
        Notice::TimedOut => "Timed out waiting for Odysseus to start."@,
        Notice::UpgradingPip => "Upgrading pip…"@,
        Notice::InstallingRequirements => "Installing requirements.txt…"@,
        Notice::InstallingPackages => "Installing Python packages…"@,
        Notice::RunningSetupPy => "Running setup.py…"@,
    }
}

/// The text of `n`.
pub fn notice(n: Notice) -> (r: String)
    ensures
        r@ == notice_text(n),
{
    match n {
        Notice::PortBusy => "First-time setup cannot continue while another server is using port 7000. Close launch-windows.ps1 or any other Odysseus instance, then restart Omschrift Odysseus.".to_owned(),
        Notice::Connecting => "Connecting to Omschrift Odysseus server…".to_owned(),
        Notice::PreparingNative => "Preparing Omschrift Odysseus (native bundle, no Python install required)…".to_owned(),
        Notice::CheckingPython => "Checking Python environment…".to_owned(),
        Notice::RuntimeRootMissing => "Python runtime root was not configured.".to_owned(),
        Notice::CreatingVenv => "Creating virtual environment (first run)…".to_owned(),
        Notice::VenvNotCreated => "Virtual environment was not created. Install Python 3.11+ and try again.".to_owned(),
        Notice::InstallingDependencies => "Installing Python dependencies (first run can take several minutes)…".to_owned(),
        Notice::RunningFirstSetup => "Running first-time setup…".to_owned(),
        Notice::RunningSetup => "Running setup…".to_owned(),
        Notice::BundledServerMissing => "Bundled Odysseus server was not found. Reinstall Omschrift Odysseus.".to_owned(),
        Notice::InstallingNativeServer => "Installing native server files (first run may take a minute)…".to_owned(),
        Notice::Starting => "Starting Omschrift Odysseus server…".to_owned(),
        Notice::Waiting => "Waiting for Omschrift Odysseus to become ready…".to_owned(),
        Notice::TimedOut => "Timed out waiting for Odysseus to start.".to_owned(),
        Notice::UpgradingPip => "Upgrading pip…".to_owned(),
        Notice::InstallingRequirements => "Installing requirements.txt…".to_owned(),
        Notice::InstallingPackages => "Installing Python packages…".to_owned(),
        Notice::RunningSetupPy => "Running setup.py…".to_owned(),
    }
}

pub open spec fn still_starting_text(port: u16) -> Seq<char> {
    "Server is still starting. You can open "@ + server_url_text(port) + " manually once ready."@
}

/// The update shown when the server did not answer in time.
pub fn still_starting_message(port: u16) -> (r: String)
    ensures
        r@ == still_starting_text(port),
{
    "Server is still starting. You can open ".to_owned().concat(server_url(port).as_str()).concat(
        " manually once ready.",
    )
}

pub open spec fn exited_early_text(code: Seq<char>, log_display: Seq<char>) -> Seq<char> {
    "Odysseus server exited early (code "@ + code + "). See "@ + log_display
}

/// The error given when the server process ended before answering; `code`
/// is its exit status as debug text.
pub fn exited_early_message(code: &str, log: &FsPath, platform: Platform) -> (r: String)
    ensures
        r@ == exited_early_text(code@, log@.rendered(platform.separator())),
{
    "Odysseus server exited early (code ".to_owned().concat(code).concat("). See ").concat(
        log.display(platform).as_str(),
    )
}

/// What came of running a command to completion.
pub enum CommandResult {
    /// The command could not be started; the error as text.
    SpawnFailed(String),
    /// The command ran: whether it succeeded, its exit status as text, and
    /// what it printed.
    Exited { success: bool, status: String, stdout: String, stderr: String },
}

pub enum CommandResultView {
    SpawnFailed(Seq<char>),
    Exited { success: bool, status: Seq<char>, stdout: Seq<char>, stderr: Seq<char> },
}

impl View for CommandResult {
    type V = CommandResultView;

    open spec fn view(&self) -> CommandResultView {
        match self {
            CommandResult::SpawnFailed(e) => CommandResultView::SpawnFailed(e@),
            CommandResult::Exited { success, status, stdout, stderr } => CommandResultView::Exited {
                success: *success,
                status: status@,
                stdout: stdout@,
                stderr: stderr@,
            },
        }
    }
}

/// Which command ran; each reports its failure in its own words.
#[derive(Clone, Copy, PartialEq, Eq, Structural, Debug)]
pub enum CommandKind {
    BundledSetup,
    CreateVenv,
    Pip,
    SetupPy,
}

/// `.\n<stderr>\n<stdout>`, the tail of every report of a failed command.
pub open spec fn output_tail(stderr: Seq<char>, stdout: Seq<char>) -> Seq<char> {
    "\n"@ + stderr + "\n"@ + stdout
}

/// The error a failed command gives, or `None` when it succeeded.
/// `python` is the interpreter run by pip, `log` the server log.
pub open spec fn command_failure_text(
    kind: CommandKind,
    r: CommandResultView,
    python: Seq<char>,
    log: Seq<char>,
) -> Option<Seq<char>> {
    match r {
        CommandResultView::SpawnFailed(e) => Some(
            match kind {
                CommandKind::BundledSetup => "Failed to run bundled setup: "@ + e,
                CommandKind::CreateVenv => "Failed to create virtual environment: "@ + e,
                CommandKind::Pip => "Failed to run "@ + python + ": "@ + e,
                CommandKind::SetupPy => "Failed to run setup.py: "@ + e,
            },
        ),
        CommandResultView::Exited { success, status, stdout, stderr } => if success {
            None
        } else {
            Some(
                match kind {
                    CommandKind::BundledSetup => "Bundled setup failed ("@ + status + ")."@
                        + output_tail(stderr, stdout) + "\n\nLog file: "@ + log,
                    CommandKind::CreateVenv => "Failed to create the virtual environment."@
                        + output_tail(stderr, stdout) + "\n\nLog file: "@ + log,
                    CommandKind::Pip => "Command failed ("@ + status + ")."@ + output_tail(
                        stderr,
                        stdout,
                    ),
                    CommandKind::SetupPy => "setup.py failed ("@ + status + ")."@ + output_tail(
                        stderr,
                        stdout,
                    ),
                },
            )
        },
    }
}

fn with_output_tail(head: String, stderr: &String, stdout: &String) -> (r: String)
    ensures
        r@ == head@ + output_tail(stderr@, stdout@),
{
    head.concat("\n").concat(stderr.as_str()).concat("\n").concat(stdout.as_str())
}

/// The error a failed command gives, or `None` when it succeeded.
pub fn command_failure(kind: CommandKind, r: &CommandResult, python: &str, log: &str) -> (out:
    Option<String>)
    ensures
        opt_text_view(out) == command_failure_text(kind, r@, python@, log@),
{
    match r {
        CommandResult::SpawnFailed(e) => Some(
            match kind {
                CommandKind::BundledSetup => "Failed to run bundled setup: ".to_owned().concat(
                    e.as_str(),
                ),
                CommandKind::CreateVenv => "Failed to create virtual environment: ".to_owned().concat(
                    e.as_str(),
                ),
                CommandKind::Pip => "Failed to run ".to_owned().concat(python).concat(": ").concat(
                    e.as_str(),
                ),
                CommandKind::SetupPy => "Failed to run setup.py: ".to_owned().concat(e.as_str()),
            },
        ),
        CommandResult::Exited { success, status, stdout, stderr } => {
            if *success {
                None
            } else {
                Some(
                    match kind {
                        CommandKind::BundledSetup => with_output_tail(
                            "Bundled setup failed (".to_owned().concat(status.as_str()).concat(
                                ").",
                            ),
                            stderr,
                            stdout,
                        ).concat("\n\nLog file: ").concat(log),
                        CommandKind::CreateVenv => with_output_tail(
                            "Failed to create the virtual environment.".to_owned(),
                            stderr,
                            stdout,
                        ).concat("\n\nLog file: ").concat(log),
                        CommandKind::Pip => with_output_tail(
                            "Command failed (".to_owned().concat(status.as_str()).concat(")."),
                            stderr,
                            stdout,
                        ),
                        CommandKind::SetupPy => with_output_tail(
                            "setup.py failed (".to_owned().concat(status.as_str()).concat(")."),
                            stderr,
                            stdout,
                        ),
                    },
                )
            }
        },
    }
}

pub open spec fn opt_text_view(s: Option<String>) -> Option<Seq<char>> {
    match s {
        Some(x) => Some(x@),
        None => None,
    }
}

/// Whether `a` comes after `b` in the order of `String`'s `>` (character by
/// character, a longer text after its prefixes).
pub open spec fn text_after(a: Seq<char>, b: Seq<char>) -> bool
    decreases a.len(),
{
    if a.len() == 0 {
        false
    } else if b.len() == 0 {
        true
    } else if a[0] != b[0] {
        (a[0] as u32) > (b[0] as u32)
    } else {
        text_after(a.drop_first(), b.drop_first())
    }
}

proof fn lemma_text_after_skip(a: Seq<char>, b: Seq<char>, i: int)
    requires
        0 <= i <= a.len(),
        i <= b.len(),
        forall|k: int| 0 <= k < i ==> a[k] == b[k],
    ensures
        text_after(a, b) == text_after(a.skip(i), b.skip(i)),
    decreases i,
{
    if i > 0 {
        lemma_text_after_skip(a.drop_first(), b.drop_first(), i - 1);
        assert(a.drop_first().skip(i - 1) =~= a.skip(i));
        assert(b.drop_first().skip(i - 1) =~= b.skip(i));
    } else {
        assert(a.skip(0) =~= a);
        assert(b.skip(0) =~= b);
    }
}

/// Whether `a > b` as `String`s.
pub fn is_text_after(a: &String, b: &String) -> (r: bool)
    ensures
        r == text_after(a@, b@),
{
    let x = crate::text::chars_of(a.as_str());
    let y = crate::text::chars_of(b.as_str());
    let mut i: usize = 0;
    while i < x.len() && i < y.len() && x[i] == y[i]
        invariant
            x@ == a@,
            y@ == b@,
            i <= x.len(),
            i <= y.len(),
            forall|k: int| 0 <= k < i ==> x@[k] == y@[k],
        decreases x.len() - i,
    {
        i = i + 1;
    }
    proof {
        lemma_text_after_skip(a@, b@, i as int);
        let sa = a@.skip(i as int);
        let sb = b@.skip(i as int);
        if i < x.len() && i < y.len() {
            assert(sa[0] == x@[i as int]);
            assert(sb[0] == y@[i as int]);
        }
    }
    if i >= x.len() {
        false
    } else if i >= y.len() {
        true
    } else {
        (x[i] as u32) > (y[i] as u32)
    }
}

/// A folder of the CUDA toolkit's install folder.
pub struct CudaCandidate {
    pub dir: FsPath,
    /// The folder's name.
    pub name: String,
    /// Whether it holds a `bin` folder.
    pub has_bin: bool,
}

/// The index of the CUDA version chosen among the first `k` candidates: the
/// one with a `bin` folder whose name comes last (the first of equal names).
pub open spec fn best_cuda(cs: Seq<CudaCandidate>, k: int) -> Option<int>
    decreases k,
{
    if k <= 0 {
        None
    } else {
        let before = best_cuda(cs, k - 1);
        let c = cs[k - 1];
        if c.has_bin && match before {
            None => true,
            Some(b) => text_after(c.name@, cs[b].name@),
        } {
            Some(k - 1)
        } else {
            before
        }
    }
}

proof fn lemma_best_cuda_bounds(cs: Seq<CudaCandidate>, k: int)
    requires
        0 <= k <= cs.len(),
    ensures
        best_cuda(cs, k) matches Some(b) ==> 0 <= b < k,
    decreases k,
{
    if k > 0 {
        lemma_best_cuda_bounds(cs, k - 1);
    }
}

/// The folder to use as `CUDA_PATH`: of the toolkit's version folders that
/// hold a `bin` folder, the one whose name comes last.
pub fn pick_cuda_toolkit(cs: &Vec<CudaCandidate>) -> (r: Option<FsPath>)
    ensures
        opt_path_view(r) == match best_cuda(cs@, cs@.len() as int) {
            Some(b) => Some(cs@[b].dir@),
            None => None,
        },
{
    let mut best: Option<usize> = None;
    let mut k: usize = 0;
    while k < cs.len()
        invariant
            k <= cs.len(),
            best == match best_cuda(cs@, k as int) {
                Some(b) => Some(b as usize),
                None => None::<usize>,
            },
            best matches Some(b) ==> b < k,
        decreases cs.len() - k,
    {
        proof {
            lemma_best_cuda_bounds(cs@, k as int);
        }
        let take = cs[k].has_bin && match best {
            None => true,
            Some(b) => is_text_after(&cs[k].name, &cs[b].name),
        };
        if take {
            best = Some(k);
        }
        k = k + 1;
    }
    proof {
        lemma_best_cuda_bounds(cs@, cs@.len() as int);
    }
    match best {
        Some(b) => Some(cs[b].dir.copy()),
        None => None,
    }
}

/// `C:\Program Files\NVIDIA GPU Computing Toolkit\CUDA`, where the CUDA
/// toolkit installs its versions.
pub open spec fn cuda_toolkit_base_path() -> PathView {
    PathView {
        root: "C:\\"@,
        parts: seq!["Program Files"@, "NVIDIA GPU Computing Toolkit"@, "CUDA"@],
    }
}

pub fn cuda_toolkit_base() -> (r: FsPath)
    ensures
        r@ == cuda_toolkit_base_path(),
{
    proof {
        reveal_strlit("Program Files");
        reveal_strlit("NVIDIA GPU Computing Toolkit");
        reveal_strlit("CUDA");
    }
    let r = FsPath::new("C:\\".to_owned(), Vec::new()).join("Program Files").join(
        "NVIDIA GPU Computing Toolkit",
    ).join("CUDA");
    proof {
        assert(r@.parts =~= cuda_toolkit_base_path().parts);
    }
    r
}

/// The `bin` folder of a CUDA version folder.
pub fn cuda_bin(dir: &FsPath) -> (r: FsPath)
    ensures
        r@ == dir@.child("bin"@),
{
    proof {
        reveal_strlit("bin");
    }
    dir.join("bin")
}

} // verus!
