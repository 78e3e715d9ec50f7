//! Where the Python runtime and the native server live, and when an installed
//! copy of them has to be refreshed from the installer's resources.
use vstd::prelude::*;

use crate::path::{opt_path_view, paths_view, FileSnapshot, FsPath, PathView, Platform};
use crate::paths::{
    first_satisfying, is_repo_root, lemma_first_satisfying_step, native_server_exe,
    native_server_exe_path, spec_is_repo_root,
};
use crate::text::{
    back_white, is_white_space, lemma_trim_bounds, trim_start, trimmed, trimmed_equals,
};

verus! {

/// Identifies the layout of the native server bundle.
pub open spec fn native_server_bundle_id() -> Seq<char> {
    "native-server-2"@
}

/// The executable of the native server among the installer's resources.
pub fn bundled_server_resource(resource_dir: &FsPath) -> (p: FsPath)
    ensures
        p@ == native_server_exe_path(resource_dir@),
{
    native_server_exe(resource_dir)
}

/// True when the installer shipped the PyInstaller server folder.
pub fn has_native_server_bundle(resource_dir: &Option<FsPath>, fs: &FileSnapshot) -> (r: bool)
    ensures
        r == match opt_path_view(*resource_dir) {
            Some(d) => fs.has_file(native_server_exe_path(d)),
            None => false,
        },
{
    match resource_dir {
        Some(d) => fs.is_file(&bundled_server_resource(d)),
        None => false,
    }
}

/// `.desktop-bundle-version` in `dir`: records which version was copied there.
pub open spec fn version_marker_path(dir: PathView) -> PathView {
    dir.child(".desktop-bundle-version"@)
}

pub fn version_marker(dir: &FsPath) -> (p: FsPath)
    ensures
        p@ == version_marker_path(dir@),
{
    proof {
        reveal_strlit(".desktop-bundle-version");
    }
    dir.join(".desktop-bundle-version")
}

/// The version tag of an installed native server: the package version, `:`,
/// and the bundle id.
pub open spec fn native_bundle_version_text(package_version: Seq<char>) -> Seq<char> {
    package_version + ":"@ + native_server_bundle_id()
}

pub fn native_bundle_version(package_version: &str) -> (r: String)
    ensures
        r@ == native_bundle_version_text(package_version@),
{
    package_version.to_owned().concat(":").concat("native-server-2")
}

/// An installed copy is refreshed when what must be there is missing, or when
/// its version marker, trimmed, differs from the expected version.
pub open spec fn spec_needs_refresh(
    installed_present: bool,
    marker_text: Seq<char>,
    expected_version: Seq<char>,
) -> bool {
    !installed_present || trimmed(marker_text) != expected_version
}

/// Whether the installed copy has to be replaced.
pub fn needs_refresh(installed_present: bool, marker_text: &str, expected_version: &str) -> (r:
    bool)
    ensures
        r == spec_needs_refresh(installed_present, marker_text@, expected_version@),
{
    !installed_present || !trimmed_equals(marker_text, expected_version)
}

/// The paths involved in installing the native server.
pub struct NativeServerLayout {
    /// The server folder among the installer's resources.
    pub bundled_src: FsPath,
    /// The server executable in that folder.
    pub bundled_exe: FsPath,
    /// Where the server is installed: `server` in the app's local data.
    pub runtime_root: FsPath,
    /// The installed executable.
    pub target_exe: FsPath,
    /// The version marker of the installed copy.
    pub marker: FsPath,
}

pub fn native_server_layout(resource_dir: &FsPath, app_local_data_dir: &FsPath) -> (r:
    NativeServerLayout)
    ensures
        r.bundled_src@ == resource_dir@.child("omschrift-odysseus-server"@),
        r.bundled_exe@ == native_server_exe_path(resource_dir@),
        r.runtime_root@ == app_local_data_dir@.child("server"@),
        r.target_exe@ == r.runtime_root@.child("omschrift-odysseus-server.exe"@),
        r.marker@ == version_marker_path(r.runtime_root@),
{
    proof {
        reveal_strlit("omschrift-odysseus-server");
        reveal_strlit("omschrift-odysseus-server.exe");
        reveal_strlit("server");
    }
    let bundled_src = resource_dir.join("omschrift-odysseus-server");
    let bundled_exe = bundled_src.join("omschrift-odysseus-server.exe");
    let runtime_root = app_local_data_dir.join("server");
    let target_exe = runtime_root.join("omschrift-odysseus-server.exe");
    let marker = version_marker(&runtime_root);
    NativeServerLayout { bundled_src, bundled_exe, runtime_root, target_exe, marker }
}

/// The paths involved in installing the Python backend.
pub struct InstalledRuntimeLayout {
    /// The backend among the installer's resources: `odysseus`.
    pub bundled: FsPath,
    /// Where it is installed: `backend` in the app's local data.
    pub runtime_root: FsPath,
    /// The version marker of the installed copy.
    pub marker: FsPath,
}

pub fn installed_runtime_layout(resource_dir: &FsPath, app_local_data_dir: &FsPath) -> (r:
    InstalledRuntimeLayout)
    ensures
        r.bundled@ == resource_dir@.child("odysseus"@),
        r.runtime_root@ == app_local_data_dir@.child("backend"@),
        r.marker@ == version_marker_path(r.runtime_root@),
{
    proof {
        reveal_strlit("odysseus");
        reveal_strlit("backend");
    }
    let bundled = resource_dir.join("odysseus");
    let runtime_root = app_local_data_dir.join("backend");
    let marker = version_marker(&runtime_root);
    InstalledRuntimeLayout { bundled, runtime_root, marker }
}

/// What to do about an installed copy.
#[derive(PartialEq, Eq, Structural, Debug, Clone, Copy)]
pub enum InstallStep {
    /// The source in the resources is missing: give up.
    SourceMissing,
    /// Replace the installed copy with the source and write the marker.
    Refresh,
    /// The installed copy is current.
    KeepInstalled,
}

/// Decides what to do with an installed copy: give up when the source is
/// missing, refresh when [`spec_needs_refresh`] says so, keep it otherwise.
pub open spec fn spec_install_step(
    source_present: bool,
    installed_present: bool,
    marker_text: Seq<char>,
    expected_version: Seq<char>,
) -> InstallStep {
    if !source_present {
        InstallStep::SourceMissing
    } else if spec_needs_refresh(installed_present, marker_text, expected_version) {
        InstallStep::Refresh
    } else {
        InstallStep::KeepInstalled
    }
}

pub fn install_step(
    source_present: bool,
    installed_present: bool,
    marker_text: &str,
    expected_version: &str,
) -> (r: InstallStep)
    ensures
        r == spec_install_step(source_present, installed_present, marker_text@, expected_version@),
{
    if !source_present {
        InstallStep::SourceMissing
    } else if needs_refresh(installed_present, marker_text, expected_version) {
        InstallStep::Refresh
    } else {
        InstallStep::KeepInstalled
    }
}

pub open spec fn native_bundle_missing_text() -> Seq<char> {
    "Native server bundle was not found in the install. Reinstall Omschrift Odysseus."@
}

/// The error given when the installer holds no native server.
pub fn native_bundle_missing_message() -> (r: String)
    ensures
        r@ == native_bundle_missing_text(),
{
    "Native server bundle was not found in the install. Reinstall Omschrift Odysseus.".to_owned()
}

pub open spec fn native_exe_missing_text(exe_display: Seq<char>) -> Seq<char> {
    "Native server executable is missing at "@ + exe_display + ". Reinstall Omschrift Odysseus."@
}

/// The installed native server: the target executable when it is a file after
/// installing, an error naming it otherwise.
pub fn native_server_result(target_exe: &FsPath, target_present: bool, platform: Platform) -> (r:
    Result<FsPath, String>)
    ensures
        target_present ==> r is Ok && r->Ok_0@ == target_exe@,
        !target_present ==> r is Err && r->Err_0@ == native_exe_missing_text(
            target_exe@.rendered(platform.separator()),
        ),
{
    if target_present {
        Ok(target_exe.copy())
    } else {
        let shown = target_exe.display(platform);
        Err(
            "Native server executable is missing at ".to_owned().concat(shown.as_str()).concat(
                ". Reinstall Omschrift Odysseus.",
            ),
        )
    }
}

pub open spec fn backend_bundle_missing_text() -> Seq<char> {
    "Installed Odysseus backend bundle was not found. Reinstall the desktop app."@
}

/// The error given when the installer holds no backend.
pub fn backend_bundle_missing_message() -> (r: String)
    ensures
        r@ == backend_bundle_missing_text(),
{
    "Installed Odysseus backend bundle was not found. Reinstall the desktop app.".to_owned()
}

/// A development checkout: a repository root that also holds a `desktop`
/// folder.
pub open spec fn spec_is_development_tree(fs: FileSnapshot, p: PathView) -> bool {
    spec_is_repo_root(fs, p) && fs.has_dir(p.child("desktop"@))
}

pub open spec fn development_tree_in(fs: FileSnapshot) -> spec_fn(PathView) -> bool {
    |p: PathView| spec_is_development_tree(fs, p)
}

/// Whether `p` is a development checkout.
pub fn is_development_tree(fs: &FileSnapshot, p: &FsPath) -> (r: bool)
    ensures
        r == spec_is_development_tree(*fs, p@),
{
    proof {
        reveal_strlit("desktop");
    }
    is_repo_root(fs, p) && fs.is_dir(&p.join("desktop"))
}

/// The places that may be a development checkout, in order: the working
/// directory; each folder from the executable's up; each folder from the
/// resource folder up.
pub open spec fn development_search(
    cwd: Option<PathView>,
    exe: Option<PathView>,
    resource_dir: Option<PathView>,
) -> Seq<PathView> {
    let from_cwd = match cwd {
        Some(c) => seq![c],
        None => Seq::empty(),
    };
    let from_exe = match exe {
        Some(e) => match e.parent() {
            Some(d) => d.ancestors(),
            None => Seq::empty(),
        },
        None => Seq::empty(),
    };
    let from_resources = match resource_dir {
        Some(r) => r.ancestors(),
        None => Seq::empty(),
    };
    from_cwd + from_exe + from_resources
}

/// The places that may be a development checkout.
pub fn development_candidates(
    cwd: &Option<FsPath>,
    exe: &Option<FsPath>,
    resource_dir: &Option<FsPath>,
) -> (r: Vec<FsPath>)
    ensures
        paths_view(r@) == development_search(
            opt_path_view(*cwd),
            opt_path_view(*exe),
            opt_path_view(*resource_dir),
        ),
{
    let mut out: Vec<FsPath> = Vec::new();
    if let Some(c) = cwd {
        out.push(c.copy());
    }
    let ghost s1 = paths_view(out@);
    let mut from_exe: Vec<FsPath> = Vec::new();
    if let Some(e) = exe {
        if let Some(d) = e.parent() {
            from_exe = d.ancestors();
        }
    }
    let mut from_resources: Vec<FsPath> = Vec::new();
    if let Some(r) = resource_dir {
        from_resources = r.ancestors();
    }
    let ghost a = paths_view(from_exe@);
    let ghost b = paths_view(from_resources@);
    out.append(&mut from_exe);
    out.append(&mut from_resources);
    proof {
        assert(paths_view(out@) =~= s1 + a + b);
        assert(paths_view(out@) =~= development_search(
            opt_path_view(*cwd),
            opt_path_view(*exe),
            opt_path_view(*resource_dir),
        ));
    }
    out
}

/// The first development checkout among `candidates`.
pub fn find_development_root(fs: &FileSnapshot, candidates: &Vec<FsPath>) -> (r: Option<FsPath>)
    ensures
        opt_path_view(r) == first_satisfying(paths_view(candidates@), development_tree_in(*fs)),
{
    let ghost s = paths_view(candidates@);
    let mut i: usize = 0;
    proof {
        assert(s.skip(0) =~= s);
    }
    while i < candidates.len()
        invariant
            i <= candidates.len(),
            s == paths_view(candidates@),
            first_satisfying(s.skip(i as int), development_tree_in(*fs)) == first_satisfying(
                s,
                development_tree_in(*fs),
            ),
        decreases candidates.len() - i,
    {
        proof {
            lemma_first_satisfying_step(s, development_tree_in(*fs), i as int);
        }
        if is_development_tree(fs, &candidates[i]) {
            return Some(candidates[i].copy());
        }
        i = i + 1;
    }
    proof {
        assert(s.skip(i as int) =~= Seq::<PathView>::empty());
    }
    None
}

/// Where the Python backend comes from.
pub enum RuntimeRoot {
    /// This folder is the backend.
    Found(FsPath),
    /// `ODYSSEUS_ROOT` names a folder that is not a repository root.
    EnvRejected(FsPath),
    /// Install the backend shipped with the installer and use that.
    InstallBundled,
}

pub open spec fn runtime_root_view(r: RuntimeRoot) -> (int, Option<PathView>) {
    match r {
        RuntimeRoot::Found(p) => (0, Some(p@)),
        RuntimeRoot::EnvRejected(p) => (1, Some(p@)),
        RuntimeRoot::InstallBundled => (2, None),
    }
}

/// The writable Odysseus backend root used to run Python: `ODYSSEUS_ROOT`
/// when set (refused unless it is a repository root); else the first
/// development checkout; else the installed copy of the bundled backend.
pub open spec fn spec_runtime_root(
    env_root: Option<PathView>,
    development_root: Option<PathView>,
    fs: FileSnapshot,
) -> (int, Option<PathView>) {
    match env_root {
        Some(p) => if spec_is_repo_root(fs, p) {
            (0, Some(p))
        } else {
            (1, Some(p))
        },
        None => match development_root {
            Some(d) => (0, Some(d)),
            None => (2, None),
        },
    }
}

/// Resolves the backend root as [`spec_runtime_root`] says, with the
/// development checkout searched among the places of [`development_search`].
pub fn resolve_runtime_root(
    env_root: &Option<FsPath>,
    cwd: &Option<FsPath>,
    exe: &Option<FsPath>,
    resource_dir: &Option<FsPath>,
    fs: &FileSnapshot,
) -> (r: RuntimeRoot)
    ensures
        runtime_root_view(r) == spec_runtime_root(
            opt_path_view(*env_root),
            first_satisfying(
                development_search(
                    opt_path_view(*cwd),
                    opt_path_view(*exe),
                    opt_path_view(*resource_dir),
                ),
                development_tree_in(*fs),
            ),
            *fs,
        ),
{
    if let Some(p) = env_root {
        if is_repo_root(fs, p) {
            return RuntimeRoot::Found(p.copy());
        }
        return RuntimeRoot::EnvRejected(p.copy());
    }
    let candidates = development_candidates(cwd, exe, resource_dir);
    match find_development_root(fs, &candidates) {
        Some(d) => RuntimeRoot::Found(d),
        None => RuntimeRoot::InstallBundled,
    }
}

pub open spec fn env_root_rejected_text(root_display: Seq<char>) -> Seq<char> {
    "ODYSSEUS_ROOT does not look like an Odysseus install: "@ + root_display
}

/// The error given when `ODYSSEUS_ROOT` is not a repository root.
pub fn env_root_rejected_message(root: &FsPath, platform: Platform) -> (r: String)
    ensures
        r@ == env_root_rejected_text(root@.rendered(platform.separator())),
{
    "ODYSSEUS_ROOT does not look like an Odysseus install: ".to_owned().concat(
        root.display(platform).as_str(),
    )
}

/// Working from a development checkout uses it directly: with no
/// `ODYSSEUS_ROOT`, a working directory that is a development checkout is the
/// backend root, instead of an installed copy.
pub proof fn law_development_checkout_is_used(
    cwd: PathView,
    exe: Option<PathView>,
    resource_dir: Option<PathView>,
    fs: FileSnapshot,
)
    requires
        spec_is_development_tree(fs, cwd),
    ensures
        spec_runtime_root(
            None,
            first_satisfying(development_search(Some(cwd), exe, resource_dir), development_tree_in(fs)),
            fs,
        ) == (0int, Some(cwd)),
{
    let s = development_search(Some(cwd), exe, resource_dir);
    assert(s[0] == cwd);
}

/// A development checkout is a repository root.
pub proof fn law_development_tree_is_repo_root(fs: FileSnapshot, p: PathView)
    requires
        spec_is_development_tree(fs, p),
    ensures
        spec_is_repo_root(fs, p),
{
}

/// A freshly installed copy is current: once the marker holds the expected
/// version (a text without white space), the copy is not refreshed again.
pub proof fn law_fresh_install_is_current(version: Seq<char>)
    requires
        forall|i: int| 0 <= i < version.len() ==> !is_white_space(#[trigger] version[i]),
    ensures
        !spec_needs_refresh(true, version, version),
        spec_install_step(true, true, version, version) == InstallStep::KeepInstalled,
{
    lemma_trim_bounds(version);
    if version.len() > 0 {
        assert(trim_start(version) == 0);
        assert(back_white(version, version.len() as int) == version.len());
    }
    assert(trimmed(version) =~= version);
}

/// A stale or missing installed copy is refreshed: whenever the copy is
/// missing, or its version marker, trimmed, is not exactly the expected
/// version, it is refreshed (when the installer holds the source); the copy
/// is kept only when it is there and its trimmed marker is the expected
/// version.
pub proof fn law_stale_copy_is_refreshed(
    installed_present: bool,
    marker_text: Seq<char>,
    expected_version: Seq<char>,
)
    ensures
        !installed_present || trimmed(marker_text) != expected_version ==> spec_needs_refresh(
            installed_present,
            marker_text,
            expected_version,
        ) && spec_install_step(true, installed_present, marker_text, expected_version)
            == InstallStep::Refresh,
        spec_install_step(true, installed_present, marker_text, expected_version)
            == InstallStep::KeepInstalled ==> installed_present && trimmed(marker_text)
            == expected_version,
        spec_install_step(false, installed_present, marker_text, expected_version)
            == InstallStep::SourceMissing,
{
}

/// The version marker is compared character by character: a trimmed marker
/// that differs from the expected version at any position (such as `0.1.0`
/// against `0.1.1`) has the copy refreshed.
pub proof fn law_marker_compared_whole(
    marker_text: Seq<char>,
    expected_version: Seq<char>,
    k: int,
)
    requires
        0 <= k < trimmed(marker_text).len(),
        k < expected_version.len(),
        trimmed(marker_text)[k] != expected_version[k],
    ensures
        spec_needs_refresh(true, marker_text, expected_version),
{
}

} // verus!
