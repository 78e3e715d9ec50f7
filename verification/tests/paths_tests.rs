use odysseus_desktop::path::{FileSnapshot, FsPath, Platform};
use odysseus_desktop::paths::{
    decimal_string, desktop_log_file, health_url, is_repo_root, repo_root_candidates,
    repo_root_probes, resolve_bundled_server, resolve_data_root, resolve_repo_root, server_url,
    setup_creds_file, venv_python, DEFAULT_PORT,
};

fn path(root: &str, parts: &[&str]) -> FsPath {
    FsPath::new(root.to_string(), parts.iter().map(|s| s.to_string()).collect())
}

fn shown(p: &FsPath) -> String {
    p.display(Platform::Unix)
}

fn repo_snapshot(root: &FsPath) -> FileSnapshot {
    let mut fs = FileSnapshot::new();
    fs.add_file(root.join("app.py"));
    fs.add_file(root.join("requirements.txt"));
    fs
}

#[test]
fn server_url_uses_loopback_and_port() {
    assert_eq!(server_url(DEFAULT_PORT), "http://127.0.0.1:7000");
    assert_eq!(server_url(0), "http://127.0.0.1:0");
    assert_eq!(server_url(65535), "http://127.0.0.1:65535");
}

#[test]
fn health_url_is_version_endpoint() {
    assert_eq!(health_url(7000), "http://127.0.0.1:7000/api/version");
    assert_eq!(health_url(8080), "http://127.0.0.1:8080/api/version");
}

#[test]
fn decimal_string_has_no_leading_zeros() {
    assert_eq!(decimal_string(0), "0");
    assert_eq!(decimal_string(9), "9");
    assert_eq!(decimal_string(10), "10");
    assert_eq!(decimal_string(7000), "7000");
}

#[test]
fn venv_python_depends_on_platform() {
    let root = path("/", &["srv", "odysseus"]);
    assert_eq!(shown(&venv_python(&root, Platform::Unix)), "/srv/odysseus/venv/bin/python");
    let win = path("C:\\", &["odysseus"]);
    assert_eq!(
        venv_python(&win, Platform::Windows).display(Platform::Windows),
        "C:\\odysseus\\venv\\Scripts\\python.exe"
    );
}

#[test]
fn desktop_log_file_sits_next_to_data_root() {
    let data = path("/", &["home", "u", "odysseus", "data"]);
    assert_eq!(
        shown(&desktop_log_file(&data)),
        "/home/u/odysseus/logs/odysseus-desktop-server.log"
    );
    let top = path("/", &[]);
    assert_eq!(shown(&desktop_log_file(&top)), "/logs/odysseus-desktop-server.log");
}

#[test]
fn setup_creds_file_is_in_data_root() {
    let data = path("/", &["d"]);
    assert_eq!(shown(&setup_creds_file(&data)), "/d/.desktop-setup-creds.json");
}

#[test]
fn repo_root_needs_both_marker_files() {
    let root = path("/", &["r"]);
    let mut fs = FileSnapshot::new();
    assert!(!is_repo_root(&fs, &root));
    fs.add_file(root.join("app.py"));
    assert!(!is_repo_root(&fs, &root));
    fs.add_file(root.join("requirements.txt"));
    assert!(is_repo_root(&fs, &root));
    let mut only_dirs = FileSnapshot::new();
    only_dirs.add_dir(root.join("app.py"));
    only_dirs.add_dir(root.join("requirements.txt"));
    assert!(!is_repo_root(&only_dirs, &root));
}

#[test]
fn env_root_wins_over_everything() {
    let env = path("/", &["env"]);
    let cwd = path("/", &["work"]);
    let mut fs = repo_snapshot(&env);
    fs.add_file(cwd.join("app.py"));
    fs.add_file(cwd.join("requirements.txt"));
    let r = resolve_repo_root(&Some(env.copy()), &None, &None, &Some(cwd), &fs).unwrap();
    assert_eq!(shown(&r), "/env");
}

#[test]
fn invalid_env_root_falls_through() {
    let env = path("/", &["env"]);
    let cwd = path("/", &["work", "sub"]);
    let parent = path("/", &["work"]);
    let fs = repo_snapshot(&parent);
    let r = resolve_repo_root(&Some(env), &None, &None, &Some(cwd), &fs).unwrap();
    assert_eq!(shown(&r), "/work");
}

#[test]
fn bundled_resource_root_comes_before_resource_dir() {
    let res = path("/", &["app", "resources"]);
    let mut fs = repo_snapshot(&res);
    let bundled = res.join("odysseus");
    fs.add_file(bundled.join("app.py"));
    fs.add_file(bundled.join("requirements.txt"));
    let r = resolve_repo_root(&None, &Some(res.copy()), &None, &None, &fs).unwrap();
    assert_eq!(shown(&r), "/app/resources/odysseus");
}

#[test]
fn exe_ancestors_are_searched_with_bundled_subfolder() {
    let exe = path("/", &["opt", "o", "bin", "shell"]);
    let target = path("/", &["opt", "o", "odysseus"]);
    let fs = repo_snapshot(&target);
    let r = resolve_repo_root(&None, &None, &Some(exe), &None, &fs).unwrap();
    assert_eq!(shown(&r), "/opt/o/odysseus");
}

#[test]
fn no_repo_root_anywhere() {
    let fs = FileSnapshot::new();
    let r = resolve_repo_root(&None, &None, &Some(path("/", &["x", "y"])), &Some(path("/", &["z"])), &fs);
    assert!(r.is_none());
}

#[test]
fn candidates_are_in_search_order() {
    let c = repo_root_candidates(
        &Some(path("/", &["env"])),
        &Some(path("/", &["res"])),
        &Some(path("/", &["bin", "exe"])),
        &Some(path("/", &["cwd"])),
    );
    let texts: Vec<String> = c.iter().map(shown).collect();
    assert_eq!(
        texts,
        vec!["/env", "/res/odysseus", "/res", "/bin", "/bin/odysseus", "/", "/odysseus", "/cwd", "/"]
    );
    let probes = repo_root_probes(&c);
    assert_eq!(probes.len(), 2 * c.len());
    assert_eq!(shown(&probes[0]), "/env/app.py");
    assert_eq!(shown(&probes[1]), "/env/requirements.txt");
}

#[test]
fn bundled_server_prefers_resources() {
    let res = path("/", &["res"]);
    let exe = path("/", &["inst", "shell.exe"]);
    let in_res = res.join("omschrift-odysseus-server").join("omschrift-odysseus-server.exe");
    let next_to_exe = path("/", &["inst", "omschrift-odysseus-server", "omschrift-odysseus-server.exe"]);
    let mut fs = FileSnapshot::new();
    fs.add_file(next_to_exe.copy());
    let r = resolve_bundled_server(&Some(res.copy()), &Some(exe.copy()), &fs).unwrap();
    assert_eq!(shown(&r), shown(&next_to_exe));
    fs.add_file(in_res.copy());
    let r = resolve_bundled_server(&Some(res), &Some(exe), &fs).unwrap();
    assert_eq!(shown(&r), shown(&in_res));
    assert!(resolve_bundled_server(&None, &None, &fs).is_none());
}

#[test]
fn data_root_choices() {
    let env = Some(path("/", &["env-data"]));
    let local = Some(path("/", &["local"]));
    let lad = Some(path("/", &["lad"]));
    let repo = Some(path("/", &["repo"]));
    let cwd = Some(path("/", &["cwd"]));
    assert_eq!(shown(&resolve_data_root(&env, true, &local, &lad, &repo, &cwd)), "/env-data");
    assert_eq!(shown(&resolve_data_root(&None, true, &local, &lad, &repo, &cwd)), "/local/data");
    assert_eq!(
        shown(&resolve_data_root(&None, true, &None, &lad, &repo, &cwd)),
        "/lad/com.odysseus.desktop/data"
    );
    assert_eq!(shown(&resolve_data_root(&None, true, &None, &None, &repo, &cwd)), "/repo/data");
    assert_eq!(shown(&resolve_data_root(&None, false, &local, &lad, &repo, &cwd)), "/repo/data");
    assert_eq!(shown(&resolve_data_root(&None, false, &None, &None, &None, &cwd)), "/cwd/data");
    assert_eq!(shown(&resolve_data_root(&None, false, &None, &None, &None, &None)), "./data");
}

#[test]
fn parent_and_ancestors() {
    let p = path("/", &["a", "b"]);
    let q = p.parent().unwrap();
    assert_eq!(shown(&q), "/a");
    assert!(path("/", &[]).parent().is_none());
    let rel = path("", &["a"]);
    assert_eq!(shown(&rel.parent().unwrap()), "");
    let all: Vec<String> = p.ancestors().iter().map(shown).collect();
    assert_eq!(all, vec!["/a/b", "/a", "/"]);
    assert!(p.join("c").parent().unwrap().same(&p));
}
