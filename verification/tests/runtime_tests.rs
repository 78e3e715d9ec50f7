use odysseus_desktop::path::{FileSnapshot, FsPath, Platform};
use odysseus_desktop::runtime::{
    development_candidates, env_root_rejected_message, has_native_server_bundle, install_step,
    installed_runtime_layout, is_development_tree, native_bundle_version, native_server_layout,
    native_server_result, needs_refresh, resolve_runtime_root, InstallStep, RuntimeRoot,
};

fn path(root: &str, parts: &[&str]) -> FsPath {
    FsPath::new(root.to_string(), parts.iter().map(|s| s.to_string()).collect())
}

fn shown(p: &FsPath) -> String {
    p.display(Platform::Unix)
}

fn checkout(fs: &mut FileSnapshot, root: &FsPath, with_desktop: bool) {
    fs.add_file(root.join("app.py"));
    fs.add_file(root.join("requirements.txt"));
    if with_desktop {
        fs.add_dir(root.join("desktop"));
    }
}

#[test]
fn development_tree_requires_desktop_folder() {
    let temp = path("/", &["tmp", "odysseus-runtime-test"]);
    let mut fs = FileSnapshot::new();
    fs.add_file(temp.join("app.py"));
    fs.add_file(temp.join("requirements.txt"));
    assert!(!is_development_tree(&fs, &temp));
    fs.add_dir(temp.join("desktop"));
    assert!(is_development_tree(&fs, &temp));
}

#[test]
fn development_tree_also_needs_repo_files() {
    let root = path("/", &["r"]);
    let mut fs = FileSnapshot::new();
    fs.add_dir(root.join("desktop"));
    fs.add_file(root.join("app.py"));
    assert!(!is_development_tree(&fs, &root));
}

#[test]
fn env_root_is_used_or_rejected() {
    let env = path("/", &["env"]);
    let mut fs = FileSnapshot::new();
    match resolve_runtime_root(&Some(env.copy()), &None, &None, &None, &fs) {
        RuntimeRoot::EnvRejected(p) => assert_eq!(shown(&p), "/env"),
        _ => panic!("expected the env root to be rejected"),
    }
    checkout(&mut fs, &env, false);
    match resolve_runtime_root(&Some(env), &None, &None, &None, &fs) {
        RuntimeRoot::Found(p) => assert_eq!(shown(&p), "/env"),
        _ => panic!("expected the env root"),
    }
}

#[test]
fn development_checkout_beats_installed_copy() {
    let cwd = path("/", &["src", "odysseus"]);
    let mut fs = FileSnapshot::new();
    checkout(&mut fs, &cwd, true);
    match resolve_runtime_root(&None, &Some(cwd.copy()), &None, &None, &fs) {
        RuntimeRoot::Found(p) => assert_eq!(shown(&p), "/src/odysseus"),
        _ => panic!("expected the checkout"),
    }
    let plain = FileSnapshot::new();
    assert!(matches!(
        resolve_runtime_root(&None, &Some(cwd), &None, &None, &plain),
        RuntimeRoot::InstallBundled
    ));
}

#[test]
fn development_search_order() {
    let c = development_candidates(
        &Some(path("/", &["cwd", "x"])),
        &Some(path("/", &["e", "f", "exe"])),
        &Some(path("/", &["res"])),
    );
    let texts: Vec<String> = c.iter().map(shown).collect();
    assert_eq!(texts, vec!["/cwd/x", "/e/f", "/e", "/", "/res", "/"]);
}

#[test]
fn exe_ancestor_checkout_is_found() {
    let exe = path("/", &["src", "odysseus", "desktop", "target", "shell"]);
    let root = path("/", &["src", "odysseus"]);
    let mut fs = FileSnapshot::new();
    checkout(&mut fs, &root, true);
    match resolve_runtime_root(&None, &Some(path("/", &["home"])), &Some(exe), &None, &fs) {
        RuntimeRoot::Found(p) => assert_eq!(shown(&p), "/src/odysseus"),
        _ => panic!("expected the checkout above the executable"),
    }
}

#[test]
fn native_bundle_is_detected_in_resources() {
    let res = path("/", &["res"]);
    let mut fs = FileSnapshot::new();
    assert!(!has_native_server_bundle(&Some(res.copy()), &fs));
    fs.add_file(res.join("omschrift-odysseus-server").join("omschrift-odysseus-server.exe"));
    assert!(has_native_server_bundle(&Some(res), &fs));
    assert!(!has_native_server_bundle(&None, &fs));
}

#[test]
fn bundle_version_tag() {
    assert_eq!(native_bundle_version("0.1.0"), "0.1.0:native-server-2");
}

#[test]
fn refresh_decision_trims_marker() {
    assert!(!needs_refresh(true, "0.1.0:native-server-2\n", "0.1.0:native-server-2"));
    assert!(!needs_refresh(true, "  0.1.0 \r\n", "0.1.0"));
    assert!(needs_refresh(false, "0.1.0", "0.1.0"));
    assert!(needs_refresh(true, "0.0.9", "0.1.0"));
    assert!(needs_refresh(true, "", "0.1.0"));
}

#[test]
fn install_steps() {
    assert_eq!(install_step(false, true, "1", "1"), InstallStep::SourceMissing);
    assert_eq!(install_step(true, true, "1", "1"), InstallStep::KeepInstalled);
    assert_eq!(install_step(true, false, "1", "1"), InstallStep::Refresh);
    assert_eq!(install_step(true, true, "2", "1"), InstallStep::Refresh);
}

#[test]
fn install_layouts() {
    let res = path("/", &["res"]);
    let local = path("/", &["local"]);
    let n = native_server_layout(&res, &local);
    assert_eq!(shown(&n.bundled_src), "/res/omschrift-odysseus-server");
    assert_eq!(shown(&n.bundled_exe), "/res/omschrift-odysseus-server/omschrift-odysseus-server.exe");
    assert_eq!(shown(&n.runtime_root), "/local/server");
    assert_eq!(shown(&n.target_exe), "/local/server/omschrift-odysseus-server.exe");
    assert_eq!(shown(&n.marker), "/local/server/.desktop-bundle-version");
    let b = installed_runtime_layout(&res, &local);
    assert_eq!(shown(&b.bundled), "/res/odysseus");
    assert_eq!(shown(&b.runtime_root), "/local/backend");
    assert_eq!(shown(&b.marker), "/local/backend/.desktop-bundle-version");
}

#[test]
fn native_server_missing_after_install() {
    let exe = path("C:\\", &["a", "s.exe"]);
    match native_server_result(&exe, false, Platform::Windows) {
        Err(e) => assert_eq!(e, "Native server executable is missing at C:\\a\\s.exe. Reinstall Omschrift Odysseus."),
        Ok(_) => panic!("expected an error"),
    }
    assert!(native_server_result(&exe, true, Platform::Windows).is_ok());
}

#[test]
fn env_root_rejection_text() {
    assert_eq!(
        env_root_rejected_message(&path("/", &["x"]), Platform::Unix),
        "ODYSSEUS_ROOT does not look like an Odysseus install: /x"
    );
}
