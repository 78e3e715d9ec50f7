//! Finding a Python 3.11+ interpreter on the machine.
use vstd::prelude::*;

use crate::path::{is_plain_name, FsPath, PathView, Platform};
use crate::paths::{decimal, lemma_decimal_digits};
use crate::text::{
    is_digit, is_white_space, lemma_find_first, chars_of, dot_field, find_char, lemma_find_from_bounds, lemma_find_from_shift,
    lemma_trim_bounds, trim_end, trim_start, unsigned_digits, find_from, parse_u32, parse_u32_range, trim_range, trimmed,
};

verus! {

/// A dotted version number is 3.11 or newer, reading the first two fields of
/// the trimmed text as numbers (a field that is missing or not a number
/// counts as 0).
pub open spec fn spec_python_version_ok(version_text: Seq<char>) -> bool {
    let t = trimmed(version_text);
    let major: int = match parse_u32(dot_field(t, 0)->0) {
        Some(m) => m as int,
        None => 0,
    };
    let minor: int = match dot_field(t, 1) {
        Some(f) => match parse_u32(f) {
            Some(m) => m as int,
            None => 0,
        },
        None => 0,
    };
    major > 3 || (major == 3 && minor >= 11)
}

/// Whether the version that Python printed is 3.11 or newer.
pub fn python_version_ok(version_text: &str) -> (r: bool)
    ensures
        r == spec_python_version_ok(version_text@),
{
    let v = chars_of(version_text);
    let n = v.len();
    let (a, b) = trim_range(&v, 0, n);
    let ghost s = v@;
    let ghost t = trimmed(version_text@);
    proof {
        assert(s.subrange(0, n as int) =~= s);
        assert(t =~= s.subrange(a as int, b as int));
    }
    let d1 = find_char(&v, '.', a, b);
    proof {
        lemma_find_from_shift(s, '.', a as int, b as int, a as int);
        lemma_find_from_bounds(t, '.', 0);
        assert(dot_field(t, 0)->0 =~= s.subrange(a as int, d1 as int));
    }
    let major: u32 = match parse_u32_range(&v, a, d1) {
        Some(m) => m,
        None => 0,
    };
    let mut minor: u32 = 0;
    if d1 < b {
        let d2 = find_char(&v, '.', d1 + 1, b);
        proof {
            let u = t.skip(d1 - a + 1);
            assert(u =~= s.subrange(d1 + 1, b as int));
            lemma_find_from_shift(s, '.', d1 + 1, b as int, d1 + 1);
            assert(dot_field(t, 1) == dot_field(u, 0));
            assert(dot_field(u, 0)->0 =~= s.subrange(d1 + 1, d2 as int));
        }
        minor = match parse_u32_range(&v, d1 + 1, d2) {
            Some(m) => m,
            None => 0,
        };
    }
    major > 3 || (major == 3 && minor >= 11)
}

/// The Python code run to make an interpreter print its version.
pub open spec fn version_probe_code() -> Seq<char> {
    "import sys; print('.'.join(map(str, sys.version_info[:3])))"@
}

/// One way of starting a Python interpreter to ask for its version.
pub struct PythonProbe {
    /// The program to start.
    pub launcher: FsPath,
    /// The version selector handed to a `py` launcher before `-c`.
    pub selector: Option<String>,
    /// The probe runs only when the launcher is a file.
    pub needs_file: bool,
    /// Index of the first probe of the same launcher; when the launcher is
    /// missing or cannot be started, the rest of its probes are skipped.
    pub group: usize,
}

pub struct ProbeView {
    pub launcher: PathView,
    pub selector: Option<Seq<char>>,
    pub needs_file: bool,
    pub group: usize,
}

impl View for PythonProbe {
    type V = ProbeView;

    open spec fn view(&self) -> ProbeView {
        ProbeView {
            launcher: self.launcher@,
            selector: match self.selector {
                Some(x) => Some(x@),
                None => None,
            },
            needs_file: self.needs_file,
            group: self.group,
        }
    }
}

pub open spec fn probes_view(v: Seq<PythonProbe>) -> Seq<ProbeView> {
    v.map_values(|p: PythonProbe| p@)
}

/// `C:\Windows\py.exe`.
pub open spec fn windows_py_path() -> PathView {
    PathView { root: "C:\\"@, parts: seq!["Windows"@, "py.exe"@] }
}

/// A program found through the search path, such as `py` or `python`.
pub open spec fn command_path(name: Seq<char>) -> PathView {
    PathView { root: Seq::empty(), parts: seq![name] }
}

/// The selectors tried with a `py` launcher, newest first.
pub open spec fn py_selectors() -> Seq<Seq<char>> {
    seq!["-3.13"@, "-3.12"@, "-3.11"@]
}

pub open spec fn launcher_probes(launcher: PathView, needs_file: bool, group: usize) -> Seq<
    ProbeView,
> {
    Seq::new(
        3,
        |k: int|
            ProbeView {
                launcher,
                selector: Some(py_selectors()[k]),
                needs_file,
                group,
            },
    )
}

pub open spec fn single_probe(launcher: PathView, needs_file: bool, group: usize) -> ProbeView {
    ProbeView { launcher, selector: None, needs_file, group }
}

/// The interpreters under the given folders, each probed on its own.
pub open spec fn installed_probes(dirs: Seq<PathView>, first_group: int) -> Seq<ProbeView> {
    Seq::new(
        dirs.len(),
        |k: int| single_probe(dirs[k].child("python.exe"@), true, (first_group + k) as usize),
    )
}

/// The folders under `Program Files` where a Python 3.11 to 3.13 install goes.
pub open spec fn program_files_dirs(program_files: Option<PathView>) -> Seq<PathView> {
    match program_files {
        Some(p) => seq![p.child("Python311"@), p.child("Python312"@), p.child("Python313"@)],
        None => Seq::empty(),
    }
}

/// The interpreters tried when looking for Python, in order. On Windows: the
/// `py` launcher in `C:\Windows` (when it is a file) and then the `py` on the
/// search path, each with `-3.13`, `-3.12`, `-3.11`; then the `python.exe` in
/// each folder of `local_dirs` and under `Program Files`. Everywhere: `python`,
/// `python3`, `python` from the search path.
pub open spec fn spec_python_probes(
    platform: Platform,
    local_dirs: Seq<PathView>,
    program_files: Option<PathView>,
) -> Seq<ProbeView> {
    let windows = if platform == Platform::Windows {
        let installed = local_dirs + program_files_dirs(program_files);
        launcher_probes(windows_py_path(), true, 0) + launcher_probes(command_path("py"@), false, 3)
            + installed_probes(installed, 6)
    } else {
        Seq::empty()
    };
    let w = windows.len() as int;
    windows + seq![
        single_probe(command_path("python"@), false, w as usize),
        single_probe(command_path("python3"@), false, (w + 1) as usize),
        single_probe(command_path("python"@), false, (w + 2) as usize),
    ]
}

fn command(name: &str) -> (p: FsPath)
    requires
        is_plain_name(name@),
    ensures
        p@ == command_path(name@),
{
    let p = FsPath::new(String::new(), Vec::new()).join(name);
    proof {
        assert(p@.parts =~= seq![name@]);
    }
    p
}

fn push_launcher_probes(out: &mut Vec<PythonProbe>, launcher: &FsPath, needs_file: bool)
    ensures
        probes_view(final(out)@) == probes_view(old(out)@) + launcher_probes(
            launcher@,
            needs_file,
            old(out)@.len() as usize,
        ),
{
    let ghost start = probes_view(out@);
    let group = out.len();
    proof {
        reveal_strlit("-3.13");
        reveal_strlit("-3.12");
        reveal_strlit("-3.11");
    }
    out.push(
        PythonProbe {
            launcher: launcher.copy(),
            selector: Some("-3.13".to_owned()),
            needs_file,
            group,
        },
    );
    out.push(
        PythonProbe {
            launcher: launcher.copy(),
            selector: Some("-3.12".to_owned()),
            needs_file,
            group,
        },
    );
    out.push(
        PythonProbe {
            launcher: launcher.copy(),
            selector: Some("-3.11".to_owned()),
            needs_file,
            group,
        },
    );
    proof {
        assert(probes_view(out@) =~= start + launcher_probes(launcher@, needs_file, group));
    }
}

fn push_single_probe(out: &mut Vec<PythonProbe>, launcher: FsPath, needs_file: bool)
    ensures
        probes_view(final(out)@) == probes_view(old(out)@).push(
            single_probe(launcher@, needs_file, old(out)@.len() as usize),
        ),
{
    let ghost start = probes_view(out@);
    let ghost lv = launcher@;
    let group = out.len();
    out.push(PythonProbe { launcher, selector: None, needs_file, group });
    proof {
        assert(probes_view(out@) =~= start.push(single_probe(lv, needs_file, group)));
    }
}

/// The interpreters to try, in the order of [`spec_python_probes`].
/// `local_dirs` are the folders under `%LOCALAPPDATA%\\Programs\\Python`;
/// `program_files` is `%ProgramFiles%`.
pub fn python_probes(platform: Platform, local_dirs: &Vec<FsPath>, program_files: &Option<FsPath>)
    -> (r: Vec<PythonProbe>)
    ensures
        probes_view(r@) == spec_python_probes(
            platform,
            crate::path::paths_view(local_dirs@),
            crate::path::opt_path_view(*program_files),
        ),
{
    proof {
        reveal_strlit("Windows");
        reveal_strlit("py.exe");
        reveal_strlit("py");
        reveal_strlit("python.exe");
        reveal_strlit("python");
        reveal_strlit("python3");
        reveal_strlit("Python311");
        reveal_strlit("Python312");
        reveal_strlit("Python313");
        reveal_strlit("C:\\");
    }
    let mut out: Vec<PythonProbe> = Vec::new();
    let ghost installed = crate::path::paths_view(local_dirs@) + program_files_dirs(
        crate::path::opt_path_view(*program_files),
    );
    if platform == Platform::Windows {
        let windows_py = FsPath::new("C:\\".to_owned(), Vec::new()).join("Windows").join("py.exe");
        proof {
            assert(windows_py@.parts =~= windows_py_path().parts);
        }
        push_launcher_probes(&mut out, &windows_py, true);
        push_launcher_probes(&mut out, &command("py"), false);
        let mut dirs: Vec<FsPath> = Vec::new();
        let mut k: usize = 0;
        while k < local_dirs.len()
            invariant
                k <= local_dirs.len(),
                crate::path::paths_view(dirs@) =~= crate::path::paths_view(local_dirs@).take(
                    k as int,
                ),
            decreases local_dirs.len() - k,
        {
            let ghost before = dirs@;
            dirs.push(local_dirs[k].copy());
            proof {
                assert(crate::path::paths_view(dirs@) =~= crate::path::paths_view(before).push(
                    local_dirs@[k as int]@,
                ));
            }
            k = k + 1;
        }
        if let Some(pf) = program_files {
            dirs.push(pf.join("Python311"));
            dirs.push(pf.join("Python312"));
            dirs.push(pf.join("Python313"));
        }
        proof {
            assert(crate::path::paths_view(local_dirs@).take(local_dirs@.len() as int)
                =~= crate::path::paths_view(local_dirs@));
            assert(crate::path::paths_view(dirs@) =~= installed);
        }
        let ghost base = probes_view(out@);
        let mut j: usize = 0;
        while j < dirs.len()
            invariant
                j <= dirs.len(),
                base.len() == 6,
                is_plain_name("python.exe"@),
                crate::path::paths_view(dirs@) == installed,
                probes_view(out@) =~= base + installed_probes(installed, 6).take(j as int),
            decreases dirs.len() - j,
        {
            let ghost before = probes_view(out@);
            let p = dirs[j].join("python.exe");
            push_single_probe(&mut out, p, true);
            proof {
                assert(installed_probes(installed, 6).take(j + 1) =~= installed_probes(
                    installed,
                    6,
                ).take(j as int).push(installed_probes(installed, 6)[j as int]));
            }
            j = j + 1;
        }
        proof {
            assert(installed_probes(installed, 6).take(dirs@.len() as int) =~= installed_probes(
                installed,
                6,
            ));
            assert(probes_view(out@) =~= launcher_probes(windows_py_path(), true, 0)
                + launcher_probes(command_path("py"@), false, 3) + installed_probes(installed, 6));
        }
    }
    let ghost windows = probes_view(out@);
    push_single_probe(&mut out, command("python"), false);
    push_single_probe(&mut out, command("python3"), false);
    push_single_probe(&mut out, command("python"), false);
    proof {
        assert(probes_view(out@) =~= spec_python_probes(
            platform,
            crate::path::paths_view(local_dirs@),
            crate::path::opt_path_view(*program_files),
        ));
    }
    out
}

/// What came of starting one probe.
pub enum ProbeOutcome {
    /// The launcher has to be a file and is not.
    Missing,
    /// The launcher could not be started.
    SpawnFailed,
    /// The launcher ran; whether it exited successfully, and what it printed.
    Exited { success: bool, stdout: String },
}

/// A probe is accepted when the interpreter exited successfully and printed a
/// version that is 3.11 or newer.
pub open spec fn spec_accepts(o: ProbeOutcome) -> bool {
    match o {
        ProbeOutcome::Exited { success, stdout } => success && spec_python_version_ok(stdout@),
        _ => false,
    }
}

/// Whether the outcome accepts the interpreter.
pub fn accepts(o: &ProbeOutcome) -> (r: bool)
    ensures
        r == spec_accepts(*o),
{
    match o {
        ProbeOutcome::Exited { success, stdout } => *success && python_version_ok(stdout.as_str()),
        _ => false,
    }
}

/// The first index at or after `j` whose probe is not in group `g`.
pub open spec fn skip_group(probes: Seq<ProbeView>, g: usize, j: int) -> int
    decreases probes.len() - j,
{
    if j < 0 || j >= probes.len() {
        probes.len() as int
    } else if probes[j].group != g {
        j
    } else {
        skip_group(probes, g, j + 1)
    }
}

/// What the search does next.
pub enum SearchStep {
    /// Use this interpreter, started with these arguments before its own.
    Found { launcher: FsPath, args: Vec<String> },
    /// Go on with the probe at this index (the search has failed when it is
    /// the number of probes).
    Next(usize),
}

pub open spec fn search_step_view(r: SearchStep) -> (Option<(PathView, Seq<Seq<char>>)>, int) {
    match r {
        SearchStep::Found { launcher, args } => (
            Some((launcher@, args@.map_values(|a: String| a@))),
            -1,
        ),
        SearchStep::Next(j) => (None, j as int),
    }
}

/// The arguments that come before the interpreter's own when it is used: the
/// `py` selector, if any.
pub open spec fn found_args(p: ProbeView) -> Seq<Seq<char>> {
    match p.selector {
        Some(x) => seq![x],
        None => Seq::empty(),
    }
}

/// After probe `i` of `probes` came out as `o`: an accepted probe ends the
/// search with its launcher; a missing launcher, or one that cannot start,
/// skips the rest of its group; any other outcome goes on with the next probe.
pub open spec fn spec_search_step(probes: Seq<ProbeView>, i: int, o: ProbeOutcome) -> (
    Option<(PathView, Seq<Seq<char>>)>,
    int,
) {
    if spec_accepts(o) {
        (Some((probes[i].launcher, found_args(probes[i]))), -1)
    } else {
        match o {
            ProbeOutcome::Missing => (None, skip_group(probes, probes[i].group, i + 1)),
            ProbeOutcome::SpawnFailed => (None, skip_group(probes, probes[i].group, i + 1)),
            _ => (None, i + 1),
        }
    }
}

/// Decides, after probe `i` came out as `outcome`, what the search does next.
pub fn python_search_step(probes: &Vec<PythonProbe>, i: usize, outcome: &ProbeOutcome) -> (r:
    SearchStep)
    requires
        i < probes@.len(),
    ensures
        search_step_view(r) == spec_search_step(probes_view(probes@), i as int, *outcome),
        r matches SearchStep::Next(j) ==> i < j <= probes@.len(),
{
    let ghost pv = probes_view(probes@);
    let n = probes.len();
    if accepts(outcome) {
        let mut args: Vec<String> = Vec::new();
        if let Some(sel) = &probes[i].selector {
            args.push(sel.clone());
        }
        proof {
            assert(args@.map_values(|a: String| a@) =~= found_args(pv[i as int]));
        }
        return SearchStep::Found { launcher: probes[i].launcher.copy(), args };
    }
    match outcome {
        ProbeOutcome::Exited { .. } => SearchStep::Next(i + 1),
        _ => {
            let g = probes[i].group;
            let mut j = i + 1;
            while j < probes.len() && probes[j].group == g
                invariant
                    i < j <= probes@.len(),
                    pv == probes_view(probes@),
                    g == pv[i as int].group,
                    skip_group(pv, g, j as int) == skip_group(pv, g, i + 1),
                decreases probes.len() - j,
            {
                j = j + 1;
            }
            SearchStep::Next(j)
        },
    }
}

/// The arguments that make the launcher of `probe` print its version.
pub fn probe_command_args(probe: &PythonProbe) -> (r: Vec<String>)
    ensures
        r@.map_values(|a: String| a@) == found_args(probe@) + seq!["-c"@, version_probe_code()],
{
    let mut r: Vec<String> = Vec::new();
    if let Some(sel) = &probe.selector {
        r.push(sel.clone());
    }
    r.push("-c".to_owned());
    r.push("import sys; print('.'.join(map(str, sys.version_info[:3])))".to_owned());
    proof {
        assert(r@.map_values(|a: String| a@) =~= found_args(probe@) + seq![
            "-c"@,
            version_probe_code(),
        ]);
    }
    r
}

pub open spec fn python_missing_text() -> Seq<char> {
    "Python 3.11+ was not found on this PC.\n\nUse the native Omschrift Odysseus installer (bundles Python), or install Python from https://www.python.org/downloads/ (check \"Add python.exe to PATH\"), then restart the app."@
}

/// The error given when no interpreter was accepted.
pub fn python_missing_message() -> (r: String)
    ensures
        r@ == python_missing_text(),
{
    "Python 3.11+ was not found on this PC.\n\nUse the native Omschrift Odysseus installer (bundles Python), or install Python from https://www.python.org/downloads/ (check \"Add python.exe to PATH\"), then restart the app.".to_owned()
}

pub open spec fn using_python_text(launcher_display: Seq<char>) -> Seq<char> {
    "Using "@ + launcher_display + " to create virtual environment…"@
}

/// The status shown when the virtual environment is created with `launcher`.
pub fn using_python_message(launcher: &FsPath, platform: Platform) -> (r: String)
    ensures
        r@ == using_python_text(launcher@.rendered(platform.separator())),
{
    "Using ".to_owned().concat(launcher.display(platform).as_str()).concat(
        " to create virtual environment…",
    )
}

/// The arguments that make the found interpreter create a virtual
/// environment: its own arguments, then `-m venv` (the folder comes last).
pub fn venv_creation_args(found: &Vec<String>) -> (r: Vec<String>)
    ensures
        r@.map_values(|a: String| a@) == found@.map_values(|a: String| a@) + seq![
            "-m"@,
            "venv"@,
        ],
{
    let mut r: Vec<String> = Vec::new();
    let mut i: usize = 0;
    while i < found.len()
        invariant
            i <= found.len(),
            r@ =~= found@.take(i as int),
        decreases found.len() - i,
    {
        r.push(found[i].clone());
        i = i + 1;
    }
    r.push("-m".to_owned());
    r.push("venv".to_owned());
    proof {
        assert(r@.map_values(|a: String| a@) =~= found@.map_values(|a: String| a@) + seq![
            "-m"@,
            "venv"@,
        ]);
    }
    r
}

proof fn lemma_no_dot_in_decimal(n: nat)
    ensures
        forall|k: int| 0 <= k < decimal(n).len() ==> #[trigger] decimal(n)[k] != '.',
        forall|k: int| 0 <= k < decimal(n).len() ==> !is_white_space(#[trigger] decimal(n)[k]),
{
    lemma_decimal_digits(n);
    assert forall|k: int| 0 <= k < decimal(n).len() implies #[trigger] decimal(n)[k] != '.'
        && !is_white_space(decimal(n)[k]) by {
        assert(is_digit(decimal(n)[k]));
    }
}

/// `s` is all white space.
pub open spec fn all_white(s: Seq<char>) -> bool {
    forall|k: int| 0 <= k < s.len() ==> is_white_space(#[trigger] s[k])
}

/// A version number as decimal fields joined by `.`: `major.minor`, or
/// `major.minor.patch` when there is a patch level.
pub open spec fn dotted_version(major: u32, minor: u32, patch: Option<u32>) -> Seq<char> {
    let tail = match patch {
        Some(p) => seq!['.'] + decimal(p as nat),
        None => Seq::empty(),
    };
    decimal(major as nat) + seq!['.'] + decimal(minor as nat) + tail
}

proof fn lemma_u32_text_reads_back(n: u32)
    ensures
        parse_u32(decimal(n as nat)) == Some(n),
{
    lemma_decimal_digits(n as nat);
    let d = decimal(n as nat);
    assert(is_digit(d[0]));
    assert(unsigned_digits(d) == d);
}

/// Trimming drops white space around a text that starts and ends with
/// something else.
proof fn lemma_trim_around(w1: Seq<char>, core: Seq<char>, w2: Seq<char>)
    requires
        all_white(w1),
        all_white(w2),
        core.len() > 0,
        !is_white_space(core[0]),
        !is_white_space(core.last()),
    ensures
        trimmed(w1 + core + w2) == core,
{
    let s = w1 + core + w2;
    let a = w1.len() as int;
    let b = a + core.len();
    assert(s[a] == core[0]);
    assert(s[b - 1] == core.last());
    assert forall|k: int| 0 <= k < a implies is_white_space(#[trigger] s[k]) by {
        assert(s[k] == w1[k]);
    }
    assert forall|k: int| b <= k < s.len() implies is_white_space(#[trigger] s[k]) by {
        assert(s[k] == w2[k - b]);
    }
    lemma_trim_bounds(s);
    let ts = trim_start(s);
    let te = trim_end(s);
    assert(ts <= a);
    if ts == te {
        assert(is_white_space(s[a]));
    }
    assert(ts == a);
    assert(te >= b);
    assert(te == b);
    assert(trimmed(s) =~= core);
}

/// The check reads a dotted version number, with any white space around it,
/// as its major and minor fields: it is accepted exactly when it is 3.11 or
/// newer.
pub proof fn law_version_threshold(
    before: Seq<char>,
    major: u32,
    minor: u32,
    patch: Option<u32>,
    after: Seq<char>,
)
    requires
        all_white(before),
        all_white(after),
    ensures
        spec_python_version_ok(before + dotted_version(major, minor, patch) + after) == (major > 3
            || (major == 3 && minor >= 11)),
{
    let a = decimal(major as nat);
    let b = decimal(minor as nat);
    lemma_decimal_digits(major as nat);
    lemma_decimal_digits(minor as nat);
    lemma_no_dot_in_decimal(major as nat);
    lemma_no_dot_in_decimal(minor as nat);
    let tail = match patch {
        Some(p) => seq!['.'] + decimal(p as nat),
        None => Seq::<char>::empty(),
    };
    let u = b + tail;
    let core = dotted_version(major, minor, patch);
    assert(core =~= a + seq!['.'] + u);
    assert(core[0] == a[0]);
    match patch {
        Some(p) => {
            lemma_decimal_digits(p as nat);
            lemma_no_dot_in_decimal(p as nat);
            let c = decimal(p as nat);
            assert(core.last() == c.last());
            assert(u[b.len() as int] == '.');
            assert forall|k: int| 0 <= k < b.len() implies u[k] != '.' by {
                assert(u[k] == b[k]);
            }
            lemma_find_first(u, '.', 0, b.len() as int);
        },
        None => {
            assert(core.last() == b.last());
            assert(u =~= b);
            lemma_find_from_bounds(u, '.', 0);
            if find_from(u, '.', 0) < u.len() {
                assert(b[find_from(u, '.', 0)] != '.');
            }
        },
    }
    lemma_trim_around(before, core, after);
    assert(trimmed(before + core + after) == core);
    assert forall|k: int| 0 <= k < a.len() implies core[k] != '.' by {
        assert(core[k] == a[k]);
    }
    lemma_find_first(core, '.', 0, a.len() as int);
    assert(core.take(a.len() as int) =~= a);
    assert(core.skip(a.len() + 1int) =~= u);
    assert(u.take(b.len() as int) =~= b);
    assert(dot_field(core, 0) == Some(a));
    assert(dot_field(u, 0) == Some(b));
    assert(dot_field(core, 1) == Some(b));
    lemma_u32_text_reads_back(major);
    lemma_u32_text_reads_back(minor);
}

/// Any version newer than an accepted one is accepted too: of two dotted
/// version numbers (each with or without a patch level and with any white
/// space around it), when the first is accepted and the second is not older
/// in its major and minor fields, the second is accepted.
pub proof fn law_newer_version_accepted(
    before_a: Seq<char>,
    major_a: u32,
    minor_a: u32,
    patch_a: Option<u32>,
    after_a: Seq<char>,
    before_b: Seq<char>,
    major_b: u32,
    minor_b: u32,
    patch_b: Option<u32>,
    after_b: Seq<char>,
)
    requires
        all_white(before_a),
        all_white(after_a),
        all_white(before_b),
        all_white(after_b),
        major_a < major_b || (major_a == major_b && minor_a <= minor_b),
        spec_python_version_ok(before_a + dotted_version(major_a, minor_a, patch_a) + after_a),
    ensures
        spec_python_version_ok(before_b + dotted_version(major_b, minor_b, patch_b) + after_b),
{
    law_version_threshold(before_a, major_a, minor_a, patch_a, after_a);
    law_version_threshold(before_b, major_b, minor_b, patch_b, after_b);
}

/// Away from Windows the search tries `python`, then `python3`, then
/// `python` again, each on its own: the first that reports Python 3.11+ is
/// used, with no arguments of its own; any other outcome goes on with the
/// next, and after the last the search has failed.
pub proof fn law_unix_search_order(
    local_dirs: Seq<PathView>,
    program_files: Option<PathView>,
    o0: ProbeOutcome,
    o1: ProbeOutcome,
    o2: ProbeOutcome,
)
    ensures
        ({
            let probes = spec_python_probes(Platform::Unix, local_dirs, program_files);
            &&& probes.len() == 3
            &&& spec_search_step(probes, 0, o0) == if spec_accepts(o0) {
                (Some((command_path("python"@), Seq::<Seq<char>>::empty())), -1int)
            } else {
                (None, 1int)
            }
            &&& spec_search_step(probes, 1, o1) == if spec_accepts(o1) {
                (Some((command_path("python3"@), Seq::<Seq<char>>::empty())), -1int)
            } else {
                (None, 2int)
            }
            &&& spec_search_step(probes, 2, o2) == if spec_accepts(o2) {
                (Some((command_path("python"@), Seq::<Seq<char>>::empty())), -1int)
            } else {
                (None, 3int)
            }
        }),
{
    let probes = spec_python_probes(Platform::Unix, local_dirs, program_files);
    assert(probes[0].group == 0 && probes[1].group == 1 && probes[2].group == 2);
    assert(skip_group(probes, 0, 1) == 1);
    assert(skip_group(probes, 1, 2) == 2);
    assert(skip_group(probes, 2, 3) == 3);
    assert(found_args(probes[0]) =~= Seq::<Seq<char>>::empty());
    assert(found_args(probes[1]) =~= Seq::<Seq<char>>::empty());
    assert(found_args(probes[2]) =~= Seq::<Seq<char>>::empty());
}

/// Each interpreter that is tried without a `py` selector (an installed
/// `python.exe`, or a command on the search path) is tried on its own: when
/// it is not accepted, for whatever reason, the search goes on with the very
/// next probe. On Windows these are, from index 6 on, the `python.exe` of
/// each local folder and each `Program Files` folder, in that order.
pub proof fn law_unselected_probes_stand_alone(
    platform: Platform,
    local_dirs: Seq<PathView>,
    program_files: Option<PathView>,
    i: int,
    o: ProbeOutcome,
)
    requires
        0 <= i < spec_python_probes(platform, local_dirs, program_files).len(),
        spec_python_probes(platform, local_dirs, program_files).len() <= usize::MAX,
        spec_python_probes(platform, local_dirs, program_files)[i].selector is None,
        !spec_accepts(o),
    ensures
        spec_search_step(spec_python_probes(platform, local_dirs, program_files), i, o) == (
            None::<(PathView, Seq<Seq<char>>)>,
            i + 1,
        ),
        platform == Platform::Windows ==> forall|k: int|
            0 <= k < (local_dirs + program_files_dirs(program_files)).len() ==> {
                let p = #[trigger] spec_python_probes(platform, local_dirs, program_files)[6 + k];
                &&& p.launcher == (local_dirs + program_files_dirs(program_files))[k].child(
                    "python.exe"@,
                )
                &&& p.selector is None
                &&& p.needs_file
            },
{
    let probes = spec_python_probes(platform, local_dirs, program_files);
    let n = probes.len() as int;
    if platform == Platform::Windows {
        let installed = local_dirs + program_files_dirs(program_files);
        let l1 = launcher_probes(windows_py_path(), true, 0);
        let l2 = launcher_probes(command_path("py"@), false, 3);
        let ins = installed_probes(installed, 6);
        let w = 6 + installed.len();
        let tail = seq![
            single_probe(command_path("python"@), false, w as usize),
            single_probe(command_path("python3"@), false, (w + 1) as usize),
            single_probe(command_path("python"@), false, (w + 2) as usize),
        ];
        assert(probes =~= l1 + l2 + ins + tail);
        assert(n == w + 3);
        assert forall|j: int| 0 <= j < n && (#[trigger] probes[j]).selector is None implies probes[j].group
            == j && j >= 6 by {
            if j < 3 {
                assert(probes[j] == l1[j]);
            } else if j < 6 {
                assert(probes[j] == l2[j - 3]);
            } else if j < w {
                assert(probes[j] == ins[j - 6]);
            } else {
                assert(probes[j] == tail[j - w]);
            }
        }
        assert forall|j: int| 6 <= j < n implies (#[trigger] probes[j]).selector is None by {
            if j < w {
                assert(probes[j] == ins[j - 6]);
            } else {
                assert(probes[j] == tail[j - w]);
            }
        }
        assert forall|k: int| 0 <= k < installed.len() implies {
            let p = #[trigger] probes[6 + k];
            &&& p.launcher == installed[k].child("python.exe"@)
            &&& p.selector is None
            &&& p.needs_file
        } by {
            assert(probes[6 + k] == ins[k]);
        }
    } else {
        assert forall|j: int| 0 <= j < n && (#[trigger] probes[j]).selector is None implies probes[j].group
            == j by {}
        assert forall|j: int| 0 <= j < n implies (#[trigger] probes[j]).selector is None by {}
    }
    assert(probes[i].group == i);
    if i + 1 < n {
        assert(probes[i + 1].selector is None);
        assert(probes[i + 1].group == i + 1);
        assert(skip_group(probes, probes[i].group, i + 1) == i + 1);
    } else {
        assert(skip_group(probes, probes[i].group, i + 1) == n);
    }
}

} // verus!
