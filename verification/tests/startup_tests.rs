use odysseus_desktop::credentials::SetupCredentials;
use odysseus_desktop::path::{FileSnapshot, FsPath, Platform};
use odysseus_desktop::server::{CommandResult, ServerManager};
use odysseus_desktop::startup::{
    spawn_args, spawn_flags, Launch, Request, StartupEvent, StartupMachine, Step,
};

fn path(root: &str, parts: &[&str]) -> FsPath {
    FsPath::new(root.to_string(), parts.iter().map(|s| s.to_string()).collect())
}

fn shown(p: &FsPath) -> String {
    p.display(Platform::Unix)
}

fn ok_command(stdout: &str) -> StartupEvent {
    StartupEvent::Command(CommandResult::Exited {
        success: true,
        status: "exit status: 0".to_string(),
        stdout: stdout.to_string(),
        stderr: String::new(),
    })
}

fn files(paths: &[FsPath]) -> StartupEvent {
    let mut fs = FileSnapshot::new();
    for p in paths {
        fs.add_file(p.copy());
    }
    StartupEvent::Files(fs)
}

fn messages(step: &Step) -> Vec<String> {
    step.statuses.iter().map(|s| s.message.clone()).collect()
}

fn begin(m: &mut StartupMachine) {
    let s = m.step(StartupEvent::Started);
    match &s.request {
        Request::CreateDirs(d) => {
            let texts: Vec<String> = d.iter().map(shown).collect();
            assert_eq!(texts, vec!["/home/u/data", "/home/u/logs"]);
        }
        _ => panic!("expected folders to be created first"),
    }
    let s = m.step(StartupEvent::Done);
    assert!(matches!(s.request, Request::CheckHealth));
}

fn venv_machine() -> StartupMachine {
    let m = ServerManager::new(path("/", &["home", "u", "data"]), None, Some(path("/", &["repo"])), false);
    StartupMachine::new(m, Platform::Unix)
}

#[test]
fn running_server_is_reused() {
    let mut m = venv_machine();
    begin(&mut m);
    let s = m.step(StartupEvent::Health(true));
    assert!(matches!(s.request, Request::Probe(_)));
    let s = m.step(files(&[
        path("/", &["home", "u", "data", "app.db"]),
        path("/", &["repo", "venv", "bin", "python"]),
        path("/", &["repo", "venv", ".odysseus-desktop-ready"]),
    ]));
    assert_eq!(messages(&s), vec!["Connecting to Omschrift Odysseus server…"]);
    assert!(matches!(s.request, Request::Finish(Ok(None))));
    assert!(m.is_finished());
}

#[test]
fn busy_port_refuses_first_time_setup() {
    let mut m = venv_machine();
    begin(&mut m);
    m.step(StartupEvent::Health(true));
    let s = m.step(files(&[]));
    match s.request {
        Request::Finish(Err(e)) => assert!(e.starts_with("First-time setup cannot continue while another server is using port 7000.")),
        _ => panic!("expected the port-busy error"),
    }
}

#[test]
fn first_launch_creates_venv_installs_and_sets_up() {
    let mut m = venv_machine();
    begin(&mut m);
    let s = m.step(StartupEvent::Health(false));
    assert_eq!(messages(&s), vec!["Checking Python environment…"]);
    let s = m.step(files(&[]));
    assert_eq!(messages(&s), vec!["Creating virtual environment (first run)…"]);
    assert!(matches!(s.request, Request::CreateDir(_)));
    let s = m.step(StartupEvent::Outcome(Ok(())));
    assert!(matches!(s.request, Request::FindPython));
    let s = m.step(StartupEvent::Python(Some((path("", &["python3"]), vec![]))));
    assert_eq!(messages(&s), vec!["Using python3 to create virtual environment…"]);
    match &s.request {
        Request::RunCommand(c) => {
            assert_eq!(c.args, vec!["-m".to_string(), "venv".to_string(), "/repo/venv".to_string()]);
            assert!(c.workdir.is_none());
        }
        _ => panic!("expected the venv command"),
    }
    let s = m.step(ok_command(""));
    assert!(matches!(s.request, Request::Probe(_)));
    let python = path("/", &["repo", "venv", "bin", "python"]);
    let s = m.step(files(&[python.copy()]));
    assert!(matches!(s.request, Request::Probe(_)));
    let s = m.step(files(&[python.copy()]));
    assert_eq!(messages(&s), vec!["Installing Python dependencies (first run can take several minutes)…", "Upgrading pip…"]);
    let s = m.step(ok_command(""));
    assert_eq!(messages(&s), vec!["Installing requirements.txt…", "Installing Python packages…"]);
    match &s.request {
        Request::RunCommand(c) => assert_eq!(c.args[4], "/repo/requirements.txt"),
        _ => panic!("expected pip install -r"),
    }
    let s = m.step(ok_command(""));
    assert_eq!(messages(&s), vec!["Running first-time setup…", "Running setup.py…"]);
    let s = m.step(ok_command("  [ok] Initial admin user created (admin)\n        Temporary password: pw\n"));
    match &s.request {
        Request::WriteReadyMarker(p) => assert_eq!(shown(p), "/repo/venv/.odysseus-desktop-ready"),
        _ => panic!("expected the ready marker"),
    }
    let s = m.step(StartupEvent::Done);
    assert_eq!(messages(&s), vec!["Starting Omschrift Odysseus server…"]);
    let s = m.step(StartupEvent::Health(false));
    match &s.request {
        Request::Spawn(Launch::Venv { python, repo_root }) => {
            assert_eq!(shown(python), "/repo/venv/bin/python");
            assert_eq!(shown(repo_root), "/repo");
        }
        _ => panic!("expected the server to be spawned"),
    }
    let s = m.step(StartupEvent::Outcome(Ok(())));
    assert_eq!(messages(&s), vec!["Waiting for Omschrift Odysseus to become ready…"]);
    let s = m.step(StartupEvent::Clock(0));
    assert!(matches!(s.request, Request::CheckHealth));
    let s = m.step(StartupEvent::Health(true));
    match s.request {
        Request::Finish(Ok(Some(c))) => {
            assert_eq!(c.username, "admin");
            assert_eq!(c.password, "pw");
        }
        _ => panic!("expected the credentials"),
    }
}

#[test]
fn venv_not_created_is_reported() {
    let mut m = venv_machine();
    begin(&mut m);
    m.step(StartupEvent::Health(false));
    m.step(files(&[]));
    m.step(StartupEvent::Outcome(Ok(())));
    m.step(StartupEvent::Python(Some((path("", &["python"]), vec![]))));
    m.step(ok_command(""));
    let s = m.step(files(&[]));
    match s.request {
        Request::Finish(Err(e)) => assert_eq!(e, "Virtual environment was not created. Install Python 3.11+ and try again."),
        _ => panic!("expected the error"),
    }
}

#[test]
fn missing_python_is_reported() {
    let mut m = venv_machine();
    begin(&mut m);
    m.step(StartupEvent::Health(false));
    m.step(files(&[]));
    m.step(StartupEvent::Outcome(Ok(())));
    let s = m.step(StartupEvent::Python(None));
    match s.request {
        Request::Finish(Err(e)) => assert!(e.starts_with("Python 3.11+ was not found on this PC.")),
        _ => panic!("expected the error"),
    }
}

#[test]
fn install_folder_failure_is_reported() {
    let mut m = venv_machine();
    begin(&mut m);
    m.step(StartupEvent::Health(false));
    m.step(files(&[]));
    let s = m.step(StartupEvent::Outcome(Err("denied".to_string())));
    match s.request {
        Request::Finish(Err(e)) => assert_eq!(e, "Could not prepare install folder /repo: denied"),
        _ => panic!("expected the error"),
    }
}

#[test]
fn ready_venv_starts_directly_and_times_out() {
    let mut m = venv_machine();
    begin(&mut m);
    m.step(StartupEvent::Health(false));
    let python = path("/", &["repo", "venv", "bin", "python"]);
    m.step(files(&[python.copy()]));
    let s = m.step(files(&[
        path("/", &["repo", "venv", ".odysseus-desktop-ready"]),
        path("/", &["home", "u", "data", "auth.json"]),
    ]));
    assert_eq!(messages(&s), vec!["Starting Omschrift Odysseus server…"]);
    m.step(StartupEvent::Health(false));
    m.step(StartupEvent::Outcome(Ok(())));
    m.step(StartupEvent::Clock(0));
    m.step(StartupEvent::Health(false));
    let s = m.step(StartupEvent::ChildExit(None));
    assert!(matches!(s.request, Request::ReadClock { restart: false, sleep_ms: 500 }));
    let s = m.step(StartupEvent::Clock(180_000));
    assert_eq!(messages(&s), vec!["Server is still starting. You can open http://127.0.0.1:7000 manually once ready."]);
    match s.request {
        Request::Finish(Err(e)) => assert_eq!(e, "Timed out waiting for Odysseus to start."),
        _ => panic!("expected the timeout"),
    }
}

#[test]
fn data_setup_runs_setup_only() {
    let mut m = venv_machine();
    begin(&mut m);
    m.step(StartupEvent::Health(false));
    let python = path("/", &["repo", "venv", "bin", "python"]);
    m.step(files(&[python.copy()]));
    let s = m.step(files(&[path("/", &["repo", "venv", ".odysseus-desktop-ready"])]));
    assert_eq!(messages(&s), vec!["Running setup…", "Running setup.py…"]);
    let s = m.step(StartupEvent::Command(CommandResult::Exited {
        success: false,
        status: "exit status: 2".to_string(),
        stdout: "o".to_string(),
        stderr: "e".to_string(),
    }));
    match s.request {
        Request::Finish(Err(e)) => assert_eq!(e, "setup.py failed (exit status: 2).\ne\no"),
        _ => panic!("expected the setup error"),
    }
}

#[test]
fn early_exit_is_reported() {
    let mut m = venv_machine();
    begin(&mut m);
    m.step(StartupEvent::Health(false));
    let python = path("/", &["repo", "venv", "bin", "python"]);
    m.step(files(&[python.copy()]));
    m.step(files(&[
        path("/", &["repo", "venv", ".odysseus-desktop-ready"]),
        path("/", &["home", "u", "data", "app.db"]),
    ]));
    m.step(StartupEvent::Health(false));
    m.step(StartupEvent::Outcome(Ok(())));
    m.step(StartupEvent::Clock(10));
    m.step(StartupEvent::Health(false));
    let s = m.step(StartupEvent::ChildExit(Some("ExitStatus(unix_wait_status(256))".to_string())));
    match s.request {
        Request::Finish(Err(e)) => assert_eq!(e, "Odysseus server exited early (code ExitStatus(unix_wait_status(256))). See /home/u/logs/odysseus-desktop-server.log"),
        _ => panic!("expected the early-exit error"),
    }
}

#[test]
fn bundled_first_run_reads_credentials_file() {
    let exe = path("/", &["opt", "srv", "server.exe"]);
    let m = ServerManager::new(path("/", &["home", "u", "data"]), Some(exe.copy()), None, true);
    let mut m = StartupMachine::new(m, Platform::Unix);
    begin(&mut m);
    let s = m.step(StartupEvent::Health(false));
    assert_eq!(messages(&s), vec!["Preparing Omschrift Odysseus (native bundle, no Python install required)…"]);
    let s = m.step(files(&[exe.copy()]));
    assert!(matches!(s.request, Request::Probe(_)));
    let s = m.step(files(&[]));
    assert_eq!(messages(&s), vec!["Running first-time setup…"]);
    match &s.request {
        Request::RunCommand(c) => {
            assert_eq!(c.args, vec!["--setup-only".to_string()]);
            assert_eq!(shown(c.workdir.as_ref().unwrap()), "/opt/srv");
            assert_eq!(shown(c.data_dir_env.as_ref().unwrap()), "/home/u/data");
            assert!(c.hide_window);
        }
        _ => panic!("expected bundled setup"),
    }
    let s = m.step(ok_command(""));
    assert!(matches!(s.request, Request::ReadCredsFile(_)));
    let s = m.step(StartupEvent::CredsFile(Some(SetupCredentials::new("a".to_string(), "b".to_string()))));
    assert_eq!(messages(&s), vec!["Starting Omschrift Odysseus server…"]);
    let s = m.step(StartupEvent::Health(true));
    assert_eq!(messages(&s), vec!["Waiting for Omschrift Odysseus to become ready…"]);
    m.step(StartupEvent::Clock(0));
    let s = m.step(StartupEvent::Health(true));
    match s.request {
        Request::Finish(Ok(Some(c))) => assert_eq!(c.username, "a"),
        _ => panic!("expected the credentials"),
    }
}

#[test]
fn native_bundle_without_exe_installs_it() {
    let m = ServerManager::new(path("/", &["home", "u", "data"]), None, None, true);
    let mut m = StartupMachine::new(m, Platform::Unix);
    begin(&mut m);
    let s = m.step(StartupEvent::Health(false));
    assert_eq!(messages(&s).len(), 2);
    assert_eq!(messages(&s)[1], "Installing native server files (first run may take a minute)…");
    assert!(matches!(s.request, Request::InstallNativeServer));
    let s = m.step(StartupEvent::NativeServer(Err("Native server bundle was not found in the install. Reinstall Omschrift Odysseus.".to_string())));
    assert!(matches!(s.request, Request::Finish(Err(_))));
}

#[test]
fn missing_bundled_server_without_native_bundle() {
    let exe = path("/", &["opt", "srv", "server.exe"]);
    let m = ServerManager::new(path("/", &["home", "u", "data"]), Some(exe), None, false);
    let mut m = StartupMachine::new(m, Platform::Unix);
    begin(&mut m);
    m.step(StartupEvent::Health(false));
    let s = m.step(files(&[]));
    match s.request {
        Request::Finish(Err(e)) => assert_eq!(e, "Bundled Odysseus server was not found. Reinstall Omschrift Odysseus."),
        _ => panic!("expected the error"),
    }
}

#[test]
fn runtime_root_must_be_configured() {
    let m = ServerManager::new(path("/", &["home", "u", "data"]), None, None, false);
    let mut m = StartupMachine::new(m, Platform::Unix);
    begin(&mut m);
    let s = m.step(StartupEvent::Health(false));
    match s.request {
        Request::Finish(Err(e)) => assert_eq!(e, "Python runtime root was not configured."),
        _ => panic!("expected the error"),
    }
}

#[test]
fn server_launch_arguments() {
    let venv = Launch::Venv { python: path("/", &["p"]), repo_root: path("/", &["r"]) };
    assert_eq!(
        spawn_args(&venv, 7000),
        vec!["-m", "uvicorn", "app:app", "--host", "127.0.0.1", "--port", "7000"]
            .into_iter()
            .map(String::from)
            .collect::<Vec<_>>()
    );
    let bundled = Launch::Bundled(path("/", &["s"]));
    assert_eq!(spawn_args(&bundled, 7000).len(), 4);
    let flags = spawn_flags();
    assert_eq!(flags[0], ("HF_HUB_DISABLE_SYMLINKS".to_string(), "1".to_string()));
}

#[test]
fn machine_expects_matching_events() {
    let m = venv_machine();
    assert!(m.expects(&StartupEvent::Started));
    assert!(!m.expects(&StartupEvent::Done));
}

#[test]
fn startup_statuses_are_progress_only() {
    let mut m = venv_machine();
    let python = path("/", &["repo", "venv", "bin", "python"]);
    let events = vec![
        StartupEvent::Started,
        StartupEvent::Done,
        StartupEvent::Health(false),
        files(&[python.copy()]),
        files(&[python.copy()]),
        ok_command(""),
        ok_command(""),
        ok_command("  [ok] Initial admin user created (admin)\n        Temporary password: pw\n"),
        StartupEvent::Done,
        StartupEvent::Health(false),
        StartupEvent::Outcome(Ok(())),
        StartupEvent::Clock(200_000),
    ];
    let mut seen = 0;
    for e in events {
        let s = m.step(e);
        for st in &s.statuses {
            assert!(!st.error && st.admin_user.is_none() && st.admin_password.is_none());
            seen += 1;
        }
    }
    assert!(seen >= 8);
    assert!(m.is_finished());
}
