use odysseus_desktop::path::{FileSnapshot, FsPath, Platform};
use odysseus_desktop::server::{
    command_failure, cuda_bin, cuda_toolkit_base, exited_early_message, is_text_after, notice,
    pick_cuda_toolkit, still_starting_message, CommandKind, CommandResult, CudaCandidate, Notice,
    ServerManager,
};
use odysseus_desktop::status::{is_false, StatusPayload};

fn path(root: &str, parts: &[&str]) -> FsPath {
    FsPath::new(root.to_string(), parts.iter().map(|s| s.to_string()).collect())
}

fn venv_manager() -> ServerManager {
    ServerManager::new(path("/", &["data"]), None, Some(path("/", &["repo"])), false)
}

#[test]
fn manager_uses_default_port() {
    let m = venv_manager();
    assert_eq!(m.port(), 7000);
    assert_eq!(m.app_url(), "http://127.0.0.1:7000");
    assert!(!m.bundled_mode());
    let b = ServerManager::new(path("/", &["data"]), None, None, true);
    assert!(b.bundled_mode());
}

#[test]
fn data_setup_needed_without_db_and_auth() {
    let m = venv_manager();
    let mut fs = FileSnapshot::new();
    assert!(m.needs_data_setup(&fs));
    fs.add_file(path("/", &["data", "auth.json"]));
    assert!(!m.needs_data_setup(&fs));
    let mut fs2 = FileSnapshot::new();
    fs2.add_file(path("/", &["data", "app.db"]));
    assert!(!m.needs_data_setup(&fs2));
}

#[test]
fn bootstrap_needed_until_venv_and_data_exist() {
    let m = venv_manager();
    let mut fs = FileSnapshot::new();
    fs.add_file(path("/", &["data", "app.db"]));
    assert!(m.needs_bootstrap(&fs, Platform::Unix));
    fs.add_file(path("/", &["repo", "venv", "bin", "python"]));
    assert!(m.needs_bootstrap(&fs, Platform::Unix));
    fs.add_file(path("/", &["repo", "venv", ".odysseus-desktop-ready"]));
    assert!(!m.needs_bootstrap(&fs, Platform::Unix));
    let no_root = ServerManager::new(path("/", &["data"]), None, None, false);
    assert!(no_root.needs_bootstrap(&fs, Platform::Unix));
    let native = ServerManager::new(path("/", &["data"]), None, None, true);
    assert!(!native.needs_bootstrap(&fs, Platform::Unix));
    assert_eq!(m.bootstrap_files(Platform::Unix).len(), 4);
    assert_eq!(native.bootstrap_files(Platform::Unix).len(), 2);
}

#[test]
fn command_failure_texts() {
    let spawn = CommandResult::SpawnFailed("not found".to_string());
    assert_eq!(
        command_failure(CommandKind::SetupPy, &spawn, "", "").unwrap(),
        "Failed to run setup.py: not found"
    );
    assert_eq!(
        command_failure(CommandKind::Pip, &spawn, "/r/venv/bin/python", "").unwrap(),
        "Failed to run /r/venv/bin/python: not found"
    );
    let failed = CommandResult::Exited {
        success: false,
        status: "exit status: 1".to_string(),
        stdout: "out".to_string(),
        stderr: "err".to_string(),
    };
    assert_eq!(
        command_failure(CommandKind::BundledSetup, &failed, "", "/logs/s.log").unwrap(),
        "Bundled setup failed (exit status: 1).\nerr\nout\n\nLog file: /logs/s.log"
    );
    assert_eq!(
        command_failure(CommandKind::CreateVenv, &failed, "", "/l").unwrap(),
        "Failed to create the virtual environment.\nerr\nout\n\nLog file: /l"
    );
    assert_eq!(
        command_failure(CommandKind::Pip, &failed, "py", "/l").unwrap(),
        "Command failed (exit status: 1).\nerr\nout"
    );
    let ok = CommandResult::Exited {
        success: true,
        status: "exit status: 0".to_string(),
        stdout: String::new(),
        stderr: String::new(),
    };
    assert!(command_failure(CommandKind::Pip, &ok, "py", "/l").is_none());
}

#[test]
fn waiting_texts() {
    assert_eq!(
        still_starting_message(7000),
        "Server is still starting. You can open http://127.0.0.1:7000 manually once ready."
    );
    assert_eq!(
        exited_early_message("ExitStatus(1)", &path("/", &["logs", "s.log"]), Platform::Unix),
        "Odysseus server exited early (code ExitStatus(1)). See /logs/s.log"
    );
    assert_eq!(notice(Notice::TimedOut), "Timed out waiting for Odysseus to start.");
    assert!(notice(Notice::PortBusy).contains("port 7000. Close launch-windows.ps1"));
}

#[test]
fn newest_cuda_with_bin_is_picked() {
    let base = cuda_toolkit_base();
    assert_eq!(
        base.display(Platform::Windows),
        "C:\\Program Files\\NVIDIA GPU Computing Toolkit\\CUDA"
    );
    assert_eq!(cuda_bin(&base.join("v12.4")).display(Platform::Windows), "C:\\Program Files\\NVIDIA GPU Computing Toolkit\\CUDA\\v12.4\\bin");
    let c = |name: &str, has_bin: bool| CudaCandidate { dir: base.join(name), name: name.to_string(), has_bin };
    let cs = vec![c("v11.8", true), c("v12.4", true), c("v12.6", false), c("v12.1", true)];
    let picked = pick_cuda_toolkit(&cs).unwrap();
    assert_eq!(picked.display(Platform::Windows), "C:\\Program Files\\NVIDIA GPU Computing Toolkit\\CUDA\\v12.4");
    assert!(pick_cuda_toolkit(&vec![c("v1", false)]).is_none());
    assert!(is_text_after(&"b".to_string(), &"abc".to_string()));
    assert!(is_text_after(&"ab".to_string(), &"a".to_string()));
    assert!(!is_text_after(&"a".to_string(), &"a".to_string()));
}

#[test]
fn status_payload_defaults() {
    let d = StatusPayload::default();
    assert_eq!(d.message, "");
    assert!(!d.error);
    assert!(d.admin_user.is_none());
    let f = StatusPayload::failure("x".to_string());
    assert!(f.error);
    let c = StatusPayload::credentials("u".to_string(), "p".to_string());
    assert_eq!(c.message, "First-time setup complete. Save these login details:");
    assert_eq!(c.admin_password.as_deref(), Some("p"));
    assert!(is_false(&false));
    assert!(!is_false(&true));
}
