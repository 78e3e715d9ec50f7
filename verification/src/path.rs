//! A model of file-system paths as a root (prefix and root directory, possibly
//! empty) followed by a list of names, and a snapshot of which paths are known
//! to be files or directories.
use vstd::prelude::*;

verus! {

/// The operating system family whose conventions a path follows.
#[derive(Clone, Copy, PartialEq, Eq, Structural, Debug)]
pub enum Platform {
    Windows,
    Unix,
}

impl Platform {
    /// The separator between the names of a path.
    pub open spec fn separator(self) -> char {
        match self {
            Platform::Windows => '\\',
            Platform::Unix => '/',
        }
    }
}

/// What a path is, mathematically.
pub struct PathView {
    pub root: Seq<char>,
    pub parts: Seq<Seq<char>>,
}

impl PathView {
    /// The path with one more name at its end (what `Path::join` gives for a
    /// single relative name).
    pub open spec fn child(self, name: Seq<char>) -> PathView {
        PathView { root: self.root, parts: self.parts.push(name) }
    }

    /// The path without its last name, or `None` when it has no name left
    /// (what `Path::parent` gives).
    pub open spec fn parent(self) -> Option<PathView> {
        if self.parts.len() == 0 {
            None
        } else {
            Some(PathView { root: self.root, parts: self.parts.drop_last() })
        }
    }

    /// The path followed by each of its parents, nearest first.
    pub open spec fn ancestors(self) -> Seq<PathView>
        decreases self.parts.len(),
    {
        if self.parts.len() == 0 {
            seq![self]
        } else {
            seq![self] + (PathView { root: self.root, parts: self.parts.drop_last() }).ancestors()
        }
    }

    /// How the path reads with names separated by `sep`.
    pub open spec fn rendered(self, sep: char) -> Seq<char> {
        self.root + joined(self.parts, sep)
    }

    /// The `k`-th ancestor: the path with its last `k` names removed.
    pub open spec fn up(self, k: int) -> PathView {
        PathView { root: self.root, parts: self.parts.take(self.parts.len() - k) }
    }
}

/// A name that stands as one component of a path: not empty and free of
/// separators.
pub open spec fn is_plain_name(name: Seq<char>) -> bool {
    &&& name.len() > 0
    &&& forall|i: int| 0 <= i < name.len() ==> #[trigger] name[i] != '/' && name[i] != '\\'
}

/// The names joined by `sep`.
pub open spec fn joined(parts: Seq<Seq<char>>, sep: char) -> Seq<char>
    decreases parts.len(),
{
    if parts.len() == 0 {
        Seq::empty()
    } else if parts.len() == 1 {
        parts[0]
    } else {
        joined(parts.drop_last(), sep).push(sep) + parts.last()
    }
}

/// A file-system path.
pub struct FsPath {
    /// Prefix and root directory (`"/"`, `"C:\\"`), empty for a relative path.
    pub root: String,
    /// The names that follow the root, outermost first.
    pub parts: Vec<String>,
}

impl View for FsPath {
    type V = PathView;

    open spec fn view(&self) -> PathView {
        PathView { root: self.root@, parts: self.parts@.map_values(|p: String| p@) }
    }
}

pub open spec fn paths_view(v: Seq<FsPath>) -> Seq<PathView> {
    v.map_values(|p: FsPath| p@)
}

pub open spec fn opt_path_view(p: Option<FsPath>) -> Option<PathView> {
    match p {
        Some(q) => Some(q@),
        None => None,
    }
}

fn clone_strings(v: &Vec<String>) -> (r: Vec<String>)
    ensures
        r@ == v@,
        r@.map_values(|p: String| p@) == v@.map_values(|p: String| p@),
{
    let mut r: Vec<String> = Vec::new();
    let mut i: usize = 0;
    while i < v.len()
        invariant
            i <= v.len(),
            r@ =~= v@.take(i as int),
        decreases v.len() - i,
    {
        r.push(v[i].clone());
        i = i + 1;
    }
    proof {
        assert(r@ =~= v@);
    }
    r
}

impl FsPath {
    /// A path made of a root and names.
    pub fn new(root: String, parts: Vec<String>) -> (r: FsPath)
        ensures
            r.root == root,
            r.parts == parts,
    {
        FsPath { root, parts }
    }

    /// A copy of the path.
    pub fn copy(&self) -> (r: FsPath)
        ensures
            r@ == self@,
    {
        FsPath { root: self.root.clone(), parts: clone_strings(&self.parts) }
    }

    /// The path with `name` appended.
    pub fn join(&self, name: &str) -> (r: FsPath)
        requires
            is_plain_name(name@),
        ensures
            r@ == self@.child(name@),
    {
        let mut parts = clone_strings(&self.parts);
        parts.push(name.to_owned());
        let r = FsPath { root: self.root.clone(), parts };
        proof {
            assert(r@.parts =~= self@.parts.push(name@));
        }
        r
    }

    /// The path without its last name, or `None` when it has none.
    pub fn parent(&self) -> (r: Option<FsPath>)
        ensures
            opt_path_view(r) == self@.parent(),
    {
        if self.parts.len() == 0 {
            None
        } else {
            let mut parts = clone_strings(&self.parts);
            parts.pop();
            let r = FsPath { root: self.root.clone(), parts };
            proof {
                assert(r@.parts =~= self@.parts.drop_last());
            }
            Some(r)
        }
    }

    /// Whether the two paths are the same.
    pub fn same(&self, other: &FsPath) -> (r: bool)
        ensures
            r == (self@ == other@),
    {
        if self.root != other.root || self.parts.len() != other.parts.len() {
            proof {
                if self@ == other@ {
                    assert(self@.parts.len() == other@.parts.len());
                }
            }
            return false;
        }
        let mut i: usize = 0;
        while i < self.parts.len()
            invariant
                i <= self.parts.len() == other.parts.len(),
                self.root@ == other.root@,
                forall|k: int| 0 <= k < i ==> self.parts@[k]@ == other.parts@[k]@,
            decreases self.parts.len() - i,
        {
            if self.parts[i] != other.parts[i] {
                proof {
                    assert(self@.parts[i as int] != other@.parts[i as int]);
                }
                return false;
            }
            i = i + 1;
        }
        proof {
            assert(self@.parts =~= other@.parts);
        }
        true
    }

    /// The path followed by each of its parents, nearest first (what
    /// `Path::ancestors` yields).
    pub fn ancestors(&self) -> (r: Vec<FsPath>)
        ensures
            paths_view(r@) == self@.ancestors(),
    {
        let mut out: Vec<FsPath> = Vec::new();
        let mut cur = self.copy();
        let n = self.parts.len();
        let mut k: usize = 0;
        proof {
            lemma_ancestors(self@);
            assert(self@.up(0).parts =~= self@.parts);
        }
        while k < n
            invariant
                k <= n,
                n == self@.parts.len(),
                cur@ == self@.up(k as int),
                paths_view(out@) =~= self@.ancestors().take(k as int),
                self@.ancestors().len() == n + 1,
                forall|j: int| 0 <= j <= n ==> #[trigger] self@.ancestors()[j] == self@.up(j),
            decreases n - k,
        {
            let next = cur.parent();
            proof {
                assert(self@.up(k as int).parts.drop_last() =~= self@.up(k + 1).parts);
            }
            let ghost before = out@;
            let ghost cv = cur@;
            out.push(cur);
            proof {
                assert(paths_view(out@) =~= paths_view(before).push(cv));
            }
            k = k + 1;
            match next {
                Some(p) => {
                    cur = p;
                },
                None => {
                    cur = FsPath { root: String::new(), parts: Vec::new() };
                },
            }
        }
        let ghost before = out@;
        let ghost cv = cur@;
        out.push(cur);
        proof {
            assert(paths_view(out@) =~= paths_view(before).push(cv));
            assert(paths_view(out@) =~= self@.ancestors());
        }
        out
    }
}

impl FsPath {
    /// The path as text, with the separator of `platform` between names.
    pub fn display(&self, platform: Platform) -> (r: String)
        ensures
            r@ == self@.rendered(platform.separator()),
    {
        let sep = match platform {
            Platform::Windows => {
                proof {
                    reveal_strlit("\\");
                }
                "\\"
            },
            Platform::Unix => {
                proof {
                    reveal_strlit("/");
                }
                "/"
            },
        };
        let mut out = self.root.clone();
        let ghost parts = self@.parts;
        let mut i: usize = 0;
        while i < self.parts.len()
            invariant
                i <= self.parts.len(),
                parts == self@.parts,
                sep@ == seq![platform.separator()],
                out@ == self.root@ + joined(parts.take(i as int), platform.separator()),
            decreases self.parts.len() - i,
        {
            proof {
                let t = parts.take(i + 1);
                assert(t.drop_last() =~= parts.take(i as int));
                assert(t.last() == self.parts@[i as int]@);
            }
            if i > 0 {
                out.append(sep);
            }
            out.append(self.parts[i].as_str());
            proof {
                if i == 0 {
                    assert(parts.take(1) =~= seq![parts[0]]);
                }
            }
            i = i + 1;
        }
        proof {
            assert(parts.take(self.parts.len() as int) =~= parts);
        }
        out
    }
}

/// `p.ancestors()` has one entry per name plus one, and its `j`-th entry is
/// `p` with its last `j` names removed.
pub proof fn lemma_ancestors(p: PathView)
    ensures
        p.ancestors().len() == p.parts.len() + 1,
        forall|j: int| 0 <= j <= p.parts.len() ==> #[trigger] p.ancestors()[j] == p.up(j),
    decreases p.parts.len(),
{
    if p.parts.len() > 0 {
        let q = PathView { root: p.root, parts: p.parts.drop_last() };
        lemma_ancestors(q);
        assert forall|j: int| 0 <= j <= p.parts.len() implies #[trigger] p.ancestors()[j] == p.up(
            j,
        ) by {
            if j == 0 {
                assert(p.up(0).parts =~= p.parts);
            } else {
                assert(p.ancestors()[j] == q.ancestors()[j - 1]);
                assert(q.up(j - 1).parts =~= p.up(j).parts);
            }
        }
    } else {
        assert(p.up(0).parts =~= p.parts);
    }
}

/// Which paths are known to be files and which directories.
pub struct FileSnapshot {
    pub files: Vec<FsPath>,
    pub dirs: Vec<FsPath>,
}

impl FileSnapshot {
    pub open spec fn has_file(&self, p: PathView) -> bool {
        paths_view(self.files@).contains(p)
    }

    pub open spec fn has_dir(&self, p: PathView) -> bool {
        paths_view(self.dirs@).contains(p)
    }

    /// A snapshot that knows of no file and no directory.
    pub fn new() -> (r: FileSnapshot)
        ensures
            forall|p: PathView| !r.has_file(p) && !r.has_dir(p),
    {
        FileSnapshot { files: Vec::new(), dirs: Vec::new() }
    }

    /// Records that `p` is a file.
    pub fn add_file(&mut self, p: FsPath)
        ensures
            forall|q: PathView| final(self).has_file(q) == (old(self).has_file(q) || q == p@),
            forall|q: PathView| final(self).has_dir(q) == old(self).has_dir(q),
    {
        let ghost before = paths_view(self.files@);
        let ghost pv = p@;
        self.files.push(p);
        proof {
            assert(paths_view(self.files@) =~= before.push(pv));
            assert forall|q: PathView| #[trigger] before.push(pv).contains(q) == (before.contains(q)
                || q == pv) by {
                if before.contains(q) {
                    let i = choose|i: int| 0 <= i < before.len() && before[i] == q;
                    assert(before.push(pv)[i] == q);
                }
                if q == pv {
                    assert(before.push(pv)[before.len() as int] == q);
                }
            }
        }
    }

    /// Records that `p` is a directory.
    pub fn add_dir(&mut self, p: FsPath)
        ensures
            forall|q: PathView| final(self).has_dir(q) == (old(self).has_dir(q) || q == p@),
            forall|q: PathView| final(self).has_file(q) == old(self).has_file(q),
    {
        let ghost before = paths_view(self.dirs@);
        let ghost pv = p@;
        self.dirs.push(p);
        proof {
            assert(paths_view(self.dirs@) =~= before.push(pv));
            assert forall|q: PathView| #[trigger] before.push(pv).contains(q) == (before.contains(q)
                || q == pv) by {
                if before.contains(q) {
                    let i = choose|i: int| 0 <= i < before.len() && before[i] == q;
                    assert(before.push(pv)[i] == q);
                }
                if q == pv {
                    assert(before.push(pv)[before.len() as int] == q);
                }
            }
        }
    }

    /// Whether `p` is known to be a file.
    pub fn is_file(&self, p: &FsPath) -> (r: bool)
        ensures
            r == self.has_file(p@),
    {
        find_path(&self.files, p)
    }

    /// Whether `p` is known to be a directory.
    pub fn is_dir(&self, p: &FsPath) -> (r: bool)
        ensures
            r == self.has_dir(p@),
    {
        find_path(&self.dirs, p)
    }
}

fn find_path(v: &Vec<FsPath>, p: &FsPath) -> (r: bool)
    ensures
        r == paths_view(v@).contains(p@),
{
    for i in 0..v.len()
        invariant
            forall|k: int| 0 <= k < i ==> v@[k]@ != p@,
    {
        if v[i].same(p) {
            proof {
                assert(paths_view(v@)[i as int] == p@);
            }
            return true;
        }
    }
    proof {
        if paths_view(v@).contains(p@) {
            let k = choose|k: int| 0 <= k < paths_view(v@).len() && paths_view(v@)[k] == p@;
            assert(v@[k]@ == p@);
        }
    }
    false
}

/// Going to the parent undoes joining a name.
pub proof fn law_parent_of_child(p: PathView, name: Seq<char>)
    ensures
        p.child(name).parent() == Some(p),
{
    assert(p.parts.push(name).drop_last() =~= p.parts);
}

/// A path's ancestors start with the path itself and end with its root.
pub proof fn law_ancestors_span(p: PathView)
    ensures
        p.ancestors().len() == p.parts.len() + 1,
        p.ancestors()[0] == p,
        p.ancestors().last() == (PathView { root: p.root, parts: Seq::empty() }),
{
    lemma_ancestors(p);
    assert(p.up(0).parts =~= p.parts);
    assert(p.up(p.parts.len() as int).parts =~= Seq::<Seq<char>>::empty());
}

} // verus!
