use odysseus_desktop::credentials::SetupCredentials;
use odysseus_desktop::path::{FsPath, Platform};
use odysseus_desktop::shell::{
    app_url_outcome, choose_venv_root, close_hides_window, focus_target, launch_step,
    main_window_url, startup_error, text_equals, tray_click_focuses, tray_menu_action,
    LaunchEvent, LaunchPhase, LaunchRequest, TrayAction, WindowLabel,
};

fn path(root: &str, parts: &[&str]) -> FsPath {
    FsPath::new(root.to_string(), parts.iter().map(|s| s.to_string()).collect())
}

#[test]
fn focus_prefers_main_window() {
    assert_eq!(focus_target(true, true), Some(WindowLabel::Main));
    assert_eq!(focus_target(false, true), Some(WindowLabel::Splash));
    assert_eq!(focus_target(false, false), None);
}

#[test]
fn tray_menu_entries() {
    assert_eq!(tray_menu_action("show"), TrayAction::Show);
    assert_eq!(tray_menu_action("quit"), TrayAction::Quit);
    assert_eq!(tray_menu_action("other"), TrayAction::Ignore);
    assert_eq!(tray_menu_action(""), TrayAction::Ignore);
    assert!(tray_click_focuses(true, true));
    assert!(!tray_click_focuses(true, false));
    assert!(!tray_click_focuses(false, true));
}

#[test]
fn closing_hides_to_tray() {
    assert!(close_hides_window("main"));
    assert!(close_hides_window("splash"));
    assert!(!close_hides_window("other"));
    assert!(text_equals("abc", "abc"));
    assert!(!text_equals("abc", "ab"));
}

#[test]
fn startup_error_adds_python_hint() {
    let e = startup_error(&Some(Err("no runtime".to_string()))).unwrap();
    assert_eq!(e, "no runtime\n\nInstall Python 3.11+ or use the native Omschrift Odysseus installer that bundles Python.");
    assert!(startup_error(&None).is_none());
    assert!(startup_error(&Some(Ok(path("/", &["r"])))).is_none());
}

#[test]
fn venv_root_choice() {
    let repo = Some(path("/", &["repo"]));
    assert!(choose_venv_root(true, &Some(Ok(path("/", &["rt"]))), &repo).is_none());
    let r = choose_venv_root(false, &Some(Ok(path("/", &["rt"]))), &repo).unwrap();
    assert_eq!(r.display(Platform::Unix), "/rt");
    let r = choose_venv_root(false, &Some(Err("x".to_string())), &repo).unwrap();
    assert_eq!(r.display(Platform::Unix), "/repo");
    assert!(choose_venv_root(false, &Some(Err("x".to_string())), &None).is_none());
}

#[test]
fn launch_with_startup_error_focuses_splash() {
    let (p, s, r) = launch_step(LaunchPhase::Idle, "http://127.0.0.1:7000", LaunchEvent::Begin(Some("bad".to_string())));
    assert_eq!(p, LaunchPhase::Over);
    assert_eq!(s.len(), 1);
    assert!(s[0].error);
    assert_eq!(s[0].message, "bad");
    assert!(matches!(r, LaunchRequest::FocusSplash));
}

#[test]
fn launch_shows_credentials_then_opens() {
    let url = "http://127.0.0.1:7000";
    let (p, _, r) = launch_step(LaunchPhase::Idle, url, LaunchEvent::Begin(None));
    assert_eq!(p, LaunchPhase::Running);
    assert!(matches!(r, LaunchRequest::EnsureRunning));
    let creds = SetupCredentials::new("admin".to_string(), "pw".to_string());
    let (p, s, r) = launch_step(p, url, LaunchEvent::ServerResult(Ok(Some(creds))));
    assert_eq!(p, LaunchPhase::Pausing);
    assert_eq!(s[0].admin_user.as_deref(), Some("admin"));
    assert!(matches!(r, LaunchRequest::Pause(12)));
    let (p, s, r) = launch_step(p, url, LaunchEvent::Done);
    assert_eq!(p, LaunchPhase::Opening);
    assert_eq!(s[0].message, "Opening Omschrift Odysseus…");
    match r {
        LaunchRequest::OpenMainUi(u) => assert_eq!(u, url),
        _ => panic!("expected the main window"),
    }
    let (p, s, _) = launch_step(p, url, LaunchEvent::Opened(Err("no window".to_string())));
    assert_eq!(p, LaunchPhase::Over);
    assert!(s[0].error);
}

#[test]
fn launch_failure_focuses_splash() {
    let (_, s, r) = launch_step(LaunchPhase::Running, "u", LaunchEvent::ServerResult(Err("down".to_string())));
    assert_eq!(s[0].message, "down");
    assert!(matches!(r, LaunchRequest::FocusSplash));
    let (p, s, r) = launch_step(LaunchPhase::Running, "u", LaunchEvent::ServerResult(Ok(None)));
    assert_eq!(p, LaunchPhase::Opening);
    assert_eq!(s.len(), 1);
    assert!(matches!(r, LaunchRequest::OpenMainUi(_)));
}

#[test]
fn main_window_url_parses_app_url() {
    let u = main_window_url("http://127.0.0.1:7000").unwrap();
    assert_eq!(u.as_str(), "http://127.0.0.1:7000/");
    let e = main_window_url("not a url").unwrap_err();
    assert_eq!(e, "Invalid app URL: relative URL without a base");
    let e = app_url_outcome(Err("boom".to_string())).unwrap_err();
    assert_eq!(e, "Invalid app URL: boom");
}
