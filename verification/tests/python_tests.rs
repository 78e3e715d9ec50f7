use odysseus_desktop::path::{FsPath, Platform};
use odysseus_desktop::python::{
    probe_command_args, python_missing_message, python_probes, python_search_step,
    python_version_ok, using_python_message, venv_creation_args, ProbeOutcome, SearchStep,
};

fn path(root: &str, parts: &[&str]) -> FsPath {
    FsPath::new(root.to_string(), parts.iter().map(|s| s.to_string()).collect())
}

#[test]
fn version_check_accepts_311_and_newer() {
    assert!(python_version_ok("3.11.4\n"));
    assert!(python_version_ok("3.12"));
    assert!(python_version_ok(" 3.13.0 "));
    assert!(python_version_ok("4.0.0"));
    assert!(python_version_ok("4"));
    assert!(python_version_ok("+3.11"));
}

#[test]
fn version_check_rejects_older_or_garbage() {
    assert!(!python_version_ok("3.10.12"));
    assert!(!python_version_ok("3.9"));
    assert!(!python_version_ok("3"));
    assert!(!python_version_ok(""));
    assert!(!python_version_ok("3.x"));
    assert!(!python_version_ok("2.7.18"));
    assert!(!python_version_ok("three.eleven"));
    assert!(!python_version_ok("3.99999999999"));
}

#[test]
fn unix_probes_three_commands() {
    let probes = python_probes(Platform::Unix, &vec![], &None);
    assert_eq!(probes.len(), 3);
    let names: Vec<String> = probes.iter().map(|p| p.launcher.display(Platform::Unix)).collect();
    assert_eq!(names, vec!["python", "python3", "python"]);
    assert!(probes.iter().all(|p| p.selector.is_none() && !p.needs_file));
}

#[test]
fn windows_probes_in_order() {
    let local = vec![path("C:\\", &["Users", "u", "Python312"])];
    let pf = Some(path("C:\\", &["Program Files"]));
    let probes = python_probes(Platform::Windows, &local, &pf);
    assert_eq!(probes.len(), 3 + 3 + 1 + 3 + 3);
    assert_eq!(probes[0].launcher.display(Platform::Windows), "C:\\Windows\\py.exe");
    assert!(probes[0].needs_file);
    assert_eq!(probes[0].selector.as_deref(), Some("-3.13"));
    assert_eq!(probes[2].selector.as_deref(), Some("-3.11"));
    assert_eq!(probes[3].launcher.display(Platform::Windows), "py");
    assert_eq!(probes[6].launcher.display(Platform::Windows), "C:\\Users\\u\\Python312\\python.exe");
    assert_eq!(probes[9].launcher.display(Platform::Windows), "C:\\Program Files\\Python313\\python.exe");
    assert_eq!(probes[0].group, 0);
    assert_eq!(probes[4].group, 3);
}

#[test]
fn search_skips_rest_of_missing_launcher() {
    let probes = python_probes(Platform::Windows, &vec![], &None);
    match python_search_step(&probes, 0, &ProbeOutcome::Missing) {
        SearchStep::Next(j) => assert_eq!(j, 3),
        _ => panic!("expected to go on"),
    }
    match python_search_step(&probes, 3, &ProbeOutcome::SpawnFailed) {
        SearchStep::Next(j) => assert_eq!(j, 6),
        _ => panic!("expected to go on"),
    }
    let old = ProbeOutcome::Exited { success: true, stdout: "3.10.1\n".to_string() };
    match python_search_step(&probes, 3, &old) {
        SearchStep::Next(j) => assert_eq!(j, 4),
        _ => panic!("expected to go on"),
    }
}

#[test]
fn search_accepts_new_enough_python() {
    let probes = python_probes(Platform::Windows, &vec![], &None);
    let ok = ProbeOutcome::Exited { success: true, stdout: "3.12.1\n".to_string() };
    match python_search_step(&probes, 4, &ok) {
        SearchStep::Found { launcher, args } => {
            assert_eq!(launcher.display(Platform::Windows), "py");
            assert_eq!(args, vec!["-3.12".to_string()]);
        }
        _ => panic!("expected a find"),
    }
    let failed = ProbeOutcome::Exited { success: false, stdout: "3.12.1\n".to_string() };
    assert!(matches!(python_search_step(&probes, 4, &failed), SearchStep::Next(5)));
    let unix = python_probes(Platform::Unix, &vec![], &None);
    match python_search_step(&unix, 1, &ok) {
        SearchStep::Found { launcher, args } => {
            assert_eq!(launcher.display(Platform::Unix), "python3");
            assert!(args.is_empty());
        }
        _ => panic!("expected a find"),
    }
}

#[test]
fn search_accepts_plain_python_without_arguments() {
    let unix = python_probes(Platform::Unix, &vec![], &None);
    let ok = ProbeOutcome::Exited { success: true, stdout: "3.12.1\n".to_string() };
    match python_search_step(&unix, 0, &ok) {
        SearchStep::Found { launcher, args } => {
            assert_eq!(launcher.display(Platform::Unix), "python");
            assert!(args.is_empty());
        }
        _ => panic!("expected a find"),
    }
}

#[test]
fn probe_and_venv_arguments() {
    let probes = python_probes(Platform::Windows, &vec![], &None);
    assert_eq!(
        probe_command_args(&probes[0]),
        vec![
            "-3.13".to_string(),
            "-c".to_string(),
            "import sys; print('.'.join(map(str, sys.version_info[:3])))".to_string()
        ]
    );
    assert_eq!(
        venv_creation_args(&vec!["-3.12".to_string()]),
        vec!["-3.12".to_string(), "-m".to_string(), "venv".to_string()]
    );
}

#[test]
fn python_messages() {
    assert!(python_missing_message().starts_with("Python 3.11+ was not found on this PC.\n\nUse the native"));
    assert_eq!(
        using_python_message(&path("", &["py"]), Platform::Windows),
        "Using py to create virtual environment…"
    );
}

#[test]
fn version_check_reads_any_dotted_version_with_white_space() {
    assert!(python_version_ok("\t3.11\r\n"));
    assert!(python_version_ok("  3.4294967295.0  "));
    assert!(!python_version_ok(" 3.10 "));
    assert!(python_version_ok("3.11") && python_version_ok("3.12.0") && python_version_ok("4.0"));
    assert!(python_version_ok("10.0.1"));
}
