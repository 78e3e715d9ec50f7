//! Where the desktop shell finds and puts things: the server's address, the
//! Python interpreter of the virtual environment, the log file, the
//! credentials file, and the repository root.
use vstd::prelude::*;

use crate::text::{all_digits, digit_value, digits_value, is_digit, parse_u32, unsigned_digits};
use crate::path::{is_plain_name, opt_path_view, paths_view, FileSnapshot, FsPath, PathView, Platform};

verus! {

/// Default Odysseus HTTP port.
pub const DEFAULT_PORT: u16 = 7000;

/// The decimal digit `d` as a character.
pub open spec fn digit_char(d: int) -> char {
    (d + 48) as char
}

/// The decimal representation of `n`, without leading zeros.
pub open spec fn decimal(n: nat) -> Seq<char>
    decreases n,
{
    if n < 10 {
        seq![digit_char(n as int)]
    } else {
        decimal(n / 10).push(digit_char((n % 10) as int))
    }
}

fn digit_str(d: u16) -> (s: &'static str)
    requires
        d < 10,
    ensures
        s@ == seq![digit_char(d as int)],
{
    match d {
        0 => {
            proof {
                reveal_strlit("0");
            }
            "0"
        },
        1 => {
            proof {
                reveal_strlit("1");
            }
            "1"
        },
        2 => {
            proof {
                reveal_strlit("2");
            }
            "2"
        },
        3 => {
            proof {
                reveal_strlit("3");
            }
            "3"
        },
        4 => {
            proof {
                reveal_strlit("4");
            }
            "4"
        },
        5 => {
            proof {
                reveal_strlit("5");
            }
            "5"
        },
        6 => {
            proof {
                reveal_strlit("6");
            }
            "6"
        },
        7 => {
            proof {
                reveal_strlit("7");
            }
            "7"
        },
        8 => {
            proof {
                reveal_strlit("8");
            }
            "8"
        },
        _ => {
            proof {
                reveal_strlit("9");
            }
            "9"
        },
    }
}

/// `n` written in decimal.
pub fn decimal_string(n: u16) -> (s: String)
    ensures
        s@ == decimal(n as nat),
    decreases n,
{
    if n < 10 {
        digit_str(n).to_owned()
    } else {
        let mut s = decimal_string(n / 10);
        s.append(digit_str(n % 10));
        s
    }
}

/// `http://127.0.0.1:` followed by the port.
pub open spec fn server_url_text(port: u16) -> Seq<char> {
    "http://127.0.0.1:"@ + decimal(port as nat)
}

/// The server's health endpoint.
pub open spec fn health_url_text(port: u16) -> Seq<char> {
    server_url_text(port) + "/api/version"@
}

/// The address of the local Odysseus server on `port`.
pub fn server_url(port: u16) -> (s: String)
    ensures
        s@ == server_url_text(port),
{
    let s = "http://127.0.0.1:".to_owned();
    s.concat(decimal_string(port).as_str())
}

/// The address of the local server's version endpoint, used as health check.
pub fn health_url(port: u16) -> (s: String)
    ensures
        s@ == health_url_text(port),
{
    server_url(port).concat("/api/version")
}

/// The Python interpreter of the virtual environment under `repo_root`.
pub open spec fn venv_python_path(repo_root: PathView, platform: Platform) -> PathView {
    match platform {
        Platform::Windows => repo_root.child("venv"@).child("Scripts"@).child("python.exe"@),
        Platform::Unix => repo_root.child("venv"@).child("bin"@).child("python"@),
    }
}

/// The Python interpreter of the virtual environment under `repo_root`:
/// `venv\Scripts\python.exe` on Windows, `venv/bin/python` elsewhere.
pub fn venv_python(repo_root: &FsPath, platform: Platform) -> (p: FsPath)
    ensures
        p@ == venv_python_path(repo_root@, platform),
{
    proof {
        reveal_strlit("venv");
        reveal_strlit("Scripts");
        reveal_strlit("python.exe");
        reveal_strlit("bin");
        reveal_strlit("python");
    }
    let venv = repo_root.join("venv");
    match platform {
        Platform::Windows => venv.join("Scripts").join("python.exe"),
        Platform::Unix => venv.join("bin").join("python"),
    }
}

/// The marker that the virtual environment finished installing.
pub open spec fn venv_ready_marker_path(repo_root: PathView) -> PathView {
    repo_root.child("venv"@).child(".odysseus-desktop-ready"@)
}

/// `venv/.odysseus-desktop-ready` under `repo_root`.
pub fn venv_ready_marker(repo_root: &FsPath) -> (p: FsPath)
    ensures
        p@ == venv_ready_marker_path(repo_root@),
{
    proof {
        reveal_strlit("venv");
        reveal_strlit(".odysseus-desktop-ready");
    }
    repo_root.join("venv").join(".odysseus-desktop-ready")
}

/// The log of the desktop-managed server: `logs/odysseus-desktop-server.log`
/// next to the data root (inside it when the data root has no parent).
pub open spec fn desktop_log_path(data_root: PathView) -> PathView {
    let base = match data_root.parent() {
        Some(p) => p,
        None => data_root,
    };
    base.child("logs"@).child("odysseus-desktop-server.log"@)
}

/// Where the desktop-managed server writes its output.
pub fn desktop_log_file(data_root: &FsPath) -> (p: FsPath)
    ensures
        p@ == desktop_log_path(data_root@),
{
    proof {
        reveal_strlit("logs");
        reveal_strlit("odysseus-desktop-server.log");
    }
    let base = match data_root.parent() {
        Some(p) => p,
        None => data_root.copy(),
    };
    base.join("logs").join("odysseus-desktop-server.log")
}

pub open spec fn setup_creds_path(data_root: PathView) -> PathView {
    data_root.child(".desktop-setup-creds.json"@)
}

/// The file in which first-time setup leaves the initial admin credentials.
pub fn setup_creds_file(data_root: &FsPath) -> (p: FsPath)
    ensures
        p@ == setup_creds_path(data_root@),
{
    proof {
        reveal_strlit(".desktop-setup-creds.json");
    }
    data_root.join(".desktop-setup-creds.json")
}

/// The two files whose presence marks an Odysseus repository root.
pub open spec fn repo_marker_paths(root: PathView) -> (PathView, PathView) {
    (root.child("app.py"@), root.child("requirements.txt"@))
}

/// `app.py` and `requirements.txt` under `root`.
pub fn repo_markers(root: &FsPath) -> (r: (FsPath, FsPath))
    ensures
        (r.0@, r.1@) == repo_marker_paths(root@),
{
    proof {
        reveal_strlit("app.py");
        reveal_strlit("requirements.txt");
    }
    (root.join("app.py"), root.join("requirements.txt"))
}

/// A directory is an Odysseus repository root when it holds both `app.py` and
/// `requirements.txt` as files.
pub open spec fn spec_is_repo_root(fs: FileSnapshot, root: PathView) -> bool {
    fs.has_file(repo_marker_paths(root).0) && fs.has_file(repo_marker_paths(root).1)
}

/// Whether `root` holds `app.py` and `requirements.txt` as files.
pub fn is_repo_root(fs: &FileSnapshot, root: &FsPath) -> (r: bool)
    ensures
        r == spec_is_repo_root(*fs, root@),
{
    let (app, requirements) = repo_markers(root);
    fs.is_file(&app) && fs.is_file(&requirements)
}

/// The first path of `s` that satisfies `p`.
pub open spec fn first_satisfying(s: Seq<PathView>, p: spec_fn(PathView) -> bool) -> Option<
    PathView,
>
    decreases s.len(),
{
    if s.len() == 0 {
        None
    } else if p(s[0]) {
        Some(s[0])
    } else {
        first_satisfying(s.drop_first(), p)
    }
}

/// Stepping past a path that does not satisfy `p` keeps the first match.
pub proof fn lemma_first_satisfying_step(s: Seq<PathView>, p: spec_fn(PathView) -> bool, i: int)
    requires
        0 <= i < s.len(),
    ensures
        first_satisfying(s.skip(i), p) == if p(s[i]) {
            Some(s[i])
        } else {
            first_satisfying(s.skip(i + 1), p)
        },
{
    assert(s.skip(i)[0] == s[i]);
    assert(s.skip(i).drop_first() =~= s.skip(i + 1));
}

/// Each directory of `ds` followed by its `odysseus` subdirectory.
pub open spec fn with_bundled(ds: Seq<PathView>) -> Seq<PathView>
    decreases ds.len(),
{
    if ds.len() == 0 {
        Seq::empty()
    } else {
        with_bundled(ds.drop_last()) + seq![ds.last(), ds.last().child("odysseus"@)]
    }
}

/// The places searched for the repository root, in order: `ODYSSEUS_ROOT`;
/// the bundled `odysseus` folder of the resources, then the resource folder;
/// each folder from the executable's up to the file-system root, then its
/// `odysseus` subfolder; each folder from the working directory up.
pub open spec fn repo_root_search(
    env_root: Option<PathView>,
    resource_dir: Option<PathView>,
    exe: Option<PathView>,
    cwd: Option<PathView>,
) -> Seq<PathView> {
    let from_env = match env_root {
        Some(r) => seq![r],
        None => Seq::empty(),
    };
    let from_resources = match resource_dir {
        Some(r) => seq![r.child("odysseus"@), r],
        None => Seq::empty(),
    };
    let from_exe = match exe {
        Some(e) => match e.parent() {
            Some(d) => with_bundled(d.ancestors()),
            None => Seq::empty(),
        },
        None => Seq::empty(),
    };
    let from_cwd = match cwd {
        Some(c) => c.ancestors(),
        None => Seq::empty(),
    };
    from_env + from_resources + from_exe + from_cwd
}

pub open spec fn repo_root_in(fs: FileSnapshot) -> spec_fn(PathView) -> bool {
    |p: PathView| spec_is_repo_root(fs, p)
}

fn append_paths(out: &mut Vec<FsPath>, v: &Vec<FsPath>)
    ensures
        paths_view(final(out)@) == paths_view(old(out)@) + paths_view(v@),
{
    let ghost start = paths_view(out@);
    let mut i: usize = 0;
    while i < v.len()
        invariant
            i <= v.len(),
            paths_view(out@) =~= start + paths_view(v@).take(i as int),
        decreases v.len() - i,
    {
        let ghost before = out@;
        let p = v[i].copy();
        out.push(p);
        proof {
            assert(paths_view(out@) =~= paths_view(before).push(v@[i as int]@));
            assert(paths_view(v@).take(i + 1) =~= paths_view(v@).take(i as int).push(
                v@[i as int]@,
            ));
        }
        i = i + 1;
    }
    proof {
        assert(paths_view(v@).take(v.len() as int) =~= paths_view(v@));
    }
}

/// Each directory of `ds` followed by its `odysseus` subdirectory.
fn with_bundled_dirs(ds: &Vec<FsPath>) -> (r: Vec<FsPath>)
    ensures
        paths_view(r@) == with_bundled(paths_view(ds@)),
{
    let mut r: Vec<FsPath> = Vec::new();
    let mut i: usize = 0;
    proof {
        reveal_strlit("odysseus");
        assert(paths_view(ds@).take(0) =~= Seq::<PathView>::empty());
    }
    while i < ds.len()
        invariant
            i <= ds.len(),
            paths_view(r@) =~= with_bundled(paths_view(ds@).take(i as int)),
            is_plain_name("odysseus"@),
        decreases ds.len() - i,
    {
        let ghost before = r@;
        let d = ds[i].copy();
        let b = ds[i].join("odysseus");
        r.push(d);
        r.push(b);
        proof {
            let t = paths_view(ds@).take(i + 1);
            assert(t.drop_last() =~= paths_view(ds@).take(i as int));
            assert(t.last() == ds@[i as int]@);
            assert(paths_view(r@) =~= paths_view(before) + seq![ds@[i as int]@, ds@[i as int]@.child("odysseus"@)]);
        }
        i = i + 1;
    }
    proof {
        assert(paths_view(ds@).take(ds.len() as int) =~= paths_view(ds@));
    }
    r
}

/// The places searched for the repository root, in the order of
/// [`repo_root_search`].
pub fn repo_root_candidates(
    env_root: &Option<FsPath>,
    resource_dir: &Option<FsPath>,
    exe: &Option<FsPath>,
    cwd: &Option<FsPath>,
) -> (r: Vec<FsPath>)
    ensures
        paths_view(r@) == repo_root_search(
            opt_path_view(*env_root),
            opt_path_view(*resource_dir),
            opt_path_view(*exe),
            opt_path_view(*cwd),
        ),
{
    proof {
        reveal_strlit("odysseus");
    }
    let mut r: Vec<FsPath> = Vec::new();
    let ghost s0 = paths_view(r@);
    if let Some(e) = env_root {
        r.push(e.copy());
    }
    if let Some(res) = resource_dir {
        r.push(res.join("odysseus"));
        r.push(res.copy());
    }
    if let Some(e) = exe {
        if let Some(d) = e.parent() {
            let ds = d.ancestors();
            let v = with_bundled_dirs(&ds);
            append_paths(&mut r, &v);
        }
    }
    if let Some(c) = cwd {
        let v = c.ancestors();
        append_paths(&mut r, &v);
    }
    proof {
        assert(s0 =~= Seq::<PathView>::empty());
        assert(paths_view(r@) =~= repo_root_search(
            opt_path_view(*env_root),
            opt_path_view(*resource_dir),
            opt_path_view(*exe),
            opt_path_view(*cwd),
        ));
    }
    r
}

/// The files to look at to tell which of `candidates` are repository roots:
/// the two marker files of each candidate, in order.
pub fn repo_root_probes(candidates: &Vec<FsPath>) -> (r: Vec<FsPath>)
    ensures
        r@.len() == 2 * candidates@.len(),
        forall|i: int|
            0 <= i < candidates@.len() ==> r@[2 * i]@ == #[trigger] repo_marker_paths(
                candidates@[i]@,
            ).0 && r@[2 * i + 1]@ == repo_marker_paths(candidates@[i]@).1,
{
    let mut r: Vec<FsPath> = Vec::new();
    let mut i: usize = 0;
    while i < candidates.len()
        invariant
            i <= candidates.len(),
            r@.len() == 2 * i,
            forall|k: int|
                0 <= k < i ==> r@[2 * k]@ == #[trigger] repo_marker_paths(candidates@[k]@).0
                    && r@[2 * k + 1]@ == repo_marker_paths(candidates@[k]@).1,
        decreases candidates.len() - i,
    {
        let ghost before = r@;
        let (a, b) = repo_markers(&candidates[i]);
        r.push(a);
        r.push(b);
        proof {
            assert forall|k: int| 0 <= k < i + 1 implies r@[2 * k]@ == #[trigger] repo_marker_paths(
                candidates@[k]@,
            ).0 && r@[2 * k + 1]@ == repo_marker_paths(candidates@[k]@).1 by {
                if k < i {
                    assert(r@[2 * k] == before[2 * k]);
                    assert(r@[2 * k + 1] == before[2 * k + 1]);
                }
            }
        }
        i = i + 1;
    }
    r
}

/// The first of `candidates` that is a repository root.
pub fn first_repo_root(fs: &FileSnapshot, candidates: &Vec<FsPath>) -> (r: Option<FsPath>)
    ensures
        opt_path_view(r) == first_satisfying(paths_view(candidates@), repo_root_in(*fs)),
{
    let ghost s = paths_view(candidates@);
    let mut i: usize = 0;
    proof {
        assert(s.skip(0) =~= s);
    }
    while i < candidates.len()
        invariant
            i <= candidates.len(),
            s == paths_view(candidates@),
            first_satisfying(s.skip(i as int), repo_root_in(*fs)) == first_satisfying(
                s,
                repo_root_in(*fs),
            ),
        decreases candidates.len() - i,
    {
        proof {
            lemma_first_satisfying_step(s, repo_root_in(*fs), i as int);
        }
        if is_repo_root(fs, &candidates[i]) {
            return Some(candidates[i].copy());
        }
        i = i + 1;
    }
    proof {
        assert(s.skip(i as int) =~= Seq::<PathView>::empty());
        assert(s.skip(0) =~= s);
    }
    None
}

/// The Odysseus repository root (the directory holding `app.py` and
/// `requirements.txt`): the first repository root among the places of
/// [`repo_root_search`], as far as `fs` knows them.
pub fn resolve_repo_root(
    env_root: &Option<FsPath>,
    resource_dir: &Option<FsPath>,
    exe: &Option<FsPath>,
    cwd: &Option<FsPath>,
    fs: &FileSnapshot,
) -> (r: Option<FsPath>)
    ensures
        opt_path_view(r) == first_satisfying(
            repo_root_search(
                opt_path_view(*env_root),
                opt_path_view(*resource_dir),
                opt_path_view(*exe),
                opt_path_view(*cwd),
            ),
            repo_root_in(*fs),
        ),
{
    let candidates = repo_root_candidates(env_root, resource_dir, exe, cwd);
    first_repo_root(fs, &candidates)
}

/// `omschrift-odysseus-server/omschrift-odysseus-server.exe` under `dir`: the
/// PyInstaller server shipped in the installer.
pub open spec fn native_server_exe_path(dir: PathView) -> PathView {
    dir.child("omschrift-odysseus-server"@).child("omschrift-odysseus-server.exe"@)
}

/// The native server executable in its folder under `dir`.
pub fn native_server_exe(dir: &FsPath) -> (p: FsPath)
    ensures
        p@ == native_server_exe_path(dir@),
{
    proof {
        reveal_strlit("omschrift-odysseus-server");
        reveal_strlit("omschrift-odysseus-server.exe");
    }
    dir.join("omschrift-odysseus-server").join("omschrift-odysseus-server.exe")
}

/// Where the native server may have been shipped, in order: the resource
/// folder, then the executable's folder.
pub open spec fn bundled_server_search(resource_dir: Option<PathView>, exe: Option<PathView>) -> Seq<
    PathView,
> {
    let from_resources = match resource_dir {
        Some(r) => seq![native_server_exe_path(r)],
        None => Seq::empty(),
    };
    let from_exe = match exe {
        Some(e) => match e.parent() {
            Some(d) => seq![native_server_exe_path(d)],
            None => Seq::empty(),
        },
        None => Seq::empty(),
    };
    from_resources + from_exe
}

pub open spec fn file_in(fs: FileSnapshot) -> spec_fn(PathView) -> bool {
    |p: PathView| fs.has_file(p)
}

/// The places where the native server may have been shipped.
pub fn bundled_server_candidates(resource_dir: &Option<FsPath>, exe: &Option<FsPath>) -> (r: Vec<
    FsPath,
>)
    ensures
        paths_view(r@) == bundled_server_search(opt_path_view(*resource_dir), opt_path_view(*exe)),
{
    let mut r: Vec<FsPath> = Vec::new();
    if let Some(res) = resource_dir {
        r.push(native_server_exe(res));
    }
    if let Some(e) = exe {
        if let Some(d) = e.parent() {
            r.push(native_server_exe(&d));
        }
    }
    proof {
        assert(paths_view(r@) =~= bundled_server_search(
            opt_path_view(*resource_dir),
            opt_path_view(*exe),
        ));
    }
    r
}

/// The first of `candidates` that `fs` knows as a file.
pub fn first_file(fs: &FileSnapshot, candidates: &Vec<FsPath>) -> (r: Option<FsPath>)
    ensures
        opt_path_view(r) == first_satisfying(paths_view(candidates@), file_in(*fs)),
{
    let ghost s = paths_view(candidates@);
    let mut i: usize = 0;
    proof {
        assert(s.skip(0) =~= s);
    }
    while i < candidates.len()
        invariant
            i <= candidates.len(),
            s == paths_view(candidates@),
            first_satisfying(s.skip(i as int), file_in(*fs)) == first_satisfying(s, file_in(*fs)),
        decreases candidates.len() - i,
    {
        proof {
            lemma_first_satisfying_step(s, file_in(*fs), i as int);
        }
        if fs.is_file(&candidates[i]) {
            return Some(candidates[i].copy());
        }
        i = i + 1;
    }
    proof {
        assert(s.skip(i as int) =~= Seq::<PathView>::empty());
    }
    None
}

/// The PyInstaller onedir server shipped inside the desktop installer: the
/// first of [`bundled_server_search`] that is a file.
pub fn resolve_bundled_server(
    resource_dir: &Option<FsPath>,
    exe: &Option<FsPath>,
    fs: &FileSnapshot,
) -> (r: Option<FsPath>)
    ensures
        opt_path_view(r) == first_satisfying(
            bundled_server_search(opt_path_view(*resource_dir), opt_path_view(*exe)),
            file_in(*fs),
        ),
{
    let candidates = bundled_server_candidates(resource_dir, exe);
    first_file(fs, &candidates)
}

/// The relative path `.`.
pub open spec fn current_dir_path() -> PathView {
    PathView { root: Seq::empty(), parts: seq!["."@] }
}

/// Where the server keeps its data: `ODYSSEUS_DATA_DIR` when set; for the
/// native bundle, `data` in the app's local data folder, else
/// `com.odysseus.desktop\data` in `LOCALAPPDATA`; otherwise `data` in the
/// repository root, else in the working directory, else in `.`.
pub open spec fn data_root_path(
    env_data_dir: Option<PathView>,
    native_bundle: bool,
    app_local_data_dir: Option<PathView>,
    local_app_data: Option<PathView>,
    repo_root: Option<PathView>,
    cwd: Option<PathView>,
) -> PathView {
    if env_data_dir is Some {
        env_data_dir->0
    } else if native_bundle && app_local_data_dir is Some {
        app_local_data_dir->0.child("data"@)
    } else if native_bundle && local_app_data is Some {
        local_app_data->0.child("com.odysseus.desktop"@).child("data"@)
    } else if repo_root is Some {
        repo_root->0.child("data"@)
    } else if cwd is Some {
        cwd->0.child("data"@)
    } else {
        current_dir_path().child("data"@)
    }
}

/// Chooses the data root as [`data_root_path`] says.
pub fn resolve_data_root(
    env_data_dir: &Option<FsPath>,
    native_bundle: bool,
    app_local_data_dir: &Option<FsPath>,
    local_app_data: &Option<FsPath>,
    repo_root: &Option<FsPath>,
    cwd: &Option<FsPath>,
) -> (r: FsPath)
    ensures
        r@ == data_root_path(
            opt_path_view(*env_data_dir),
            native_bundle,
            opt_path_view(*app_local_data_dir),
            opt_path_view(*local_app_data),
            opt_path_view(*repo_root),
            opt_path_view(*cwd),
        ),
{
    proof {
        reveal_strlit("data");
        reveal_strlit("com.odysseus.desktop");
        reveal_strlit(".");
    }
    if let Some(d) = env_data_dir {
        return d.copy();
    }
    if native_bundle {
        if let Some(local) = app_local_data_dir {
            return local.join("data");
        }
        if let Some(base) = local_app_data {
            return base.join("com.odysseus.desktop").join("data");
        }
    }
    match repo_root {
        Some(root) => root.join("data"),
        None => match cwd {
            Some(c) => c.join("data"),
            None => {
                let mut parts: Vec<String> = Vec::new();
                parts.push(".".to_owned());
                let dot = FsPath::new(String::new(), parts);
                proof {
                    assert(dot@.parts =~= seq!["."@]);
                    assert(dot@.root =~= Seq::<char>::empty());
                }
                dot.join("data")
            },
        },
    }
}

/// The decimal text of `n` is a non-empty string of digits worth `n`.
pub proof fn lemma_decimal_digits(n: nat)
    ensures
        decimal(n).len() > 0,
        all_digits(decimal(n)),
        digits_value(decimal(n)) == n,
    decreases n,
{
    if n >= 10 {
        lemma_decimal_digits(n / 10);
        let d = decimal(n);
        assert(d.drop_last() =~= decimal(n / 10));
        assert(d.last() == digit_char((n % 10) as int));
        assert(digit_value(digit_char((n % 10) as int)) == n % 10);
        assert(digits_value(d) == digits_value(d.drop_last()) * 10 + digit_value(d.last()));
        assert((n / 10) * 10 + n % 10 == n);
        assert forall|i: int| 0 <= i < d.len() implies is_digit(#[trigger] d[i]) by {
            if i < d.len() - 1 {
                assert(d[i] == decimal(n / 10)[i]);
            }
        }
    } else {
        let d = decimal(n);
        assert(digit_value(digit_char(n as int)) == n);
        assert(d.drop_last() =~= Seq::<char>::empty());
        assert(digits_value(d.drop_last()) == 0);
    }
}

/// The port written in the server's address reads back as the same port:
/// `parse::<u32>` of its decimal text gives the port.
pub proof fn law_port_text_reads_back(port: u16)
    ensures
        parse_u32(decimal(port as nat)) == Some(port as u32),
{
    lemma_decimal_digits(port as nat);
    let d = decimal(port as nat);
    assert(is_digit(d[0]));
    assert(unsigned_digits(d) == d);
}

/// `ODYSSEUS_ROOT` wins: when it names a repository root, that is the
/// repository root, whatever else exists.
pub proof fn law_env_root_wins(
    env_root: PathView,
    resource_dir: Option<PathView>,
    exe: Option<PathView>,
    cwd: Option<PathView>,
    fs: FileSnapshot,
)
    requires
        spec_is_repo_root(fs, env_root),
    ensures
        first_satisfying(
            repo_root_search(Some(env_root), resource_dir, exe, cwd),
            repo_root_in(fs),
        ) == Some(env_root),
{
    let s = repo_root_search(Some(env_root), resource_dir, exe, cwd);
    assert(s[0] == env_root);
}

} // verus!
