//! Scanning a filesystem snapshot for Python virtual environments.
//!
//! The caller (outside this crate) walks the real filesystem and builds an
//! [`FsDir`] tree of plain values: directory names and paths, regular files
//! with their byte sizes, and an optional modification timestamp.  The
//! functions here classify each directory of that tree — a directory is a
//! virtual environment exactly when it directly contains a file named
//! `pyvenv.cfg` and its base name is on a case-insensitive allow-list —
//! and report one [`VenvInfo`] entry per accepted directory, with the total
//! size of the regular files in its subtree.

use vstd::prelude::*;

verus! {

use vstd::string::StrSliceExecFns;
use vstd::string::StringExecFns;

/// A regular file of the snapshot: its base name and its size in bytes.
pub struct FsFile {
    pub name: String,
    pub size: u64,
}

/// A directory of the snapshot: its full path, its base name, the
/// modification timestamp of the directory itself (seconds since the Unix
/// epoch, absent when the metadata could not be read), its regular files
/// and its subdirectories.
pub struct FsDir {
    pub path: String,
    pub name: String,
    pub modified: Option<i64>,
    pub files: Vec<FsFile>,
    pub subdirs: Vec<FsDir>,
}

/// One discovered virtual environment: where it is, how many bytes the
/// regular files under it hold, and when the directory was last modified.
pub struct VenvInfo {
    pub path: String,
    pub size: u64,
    pub last_modified: Option<i64>,
}

impl View for VenvInfo {
    type V = (Seq<char>, u64, Option<i64>);

    open spec fn view(&self) -> Self::V {
        (self.path@, self.size, self.last_modified)
    }
}

/// The code point of `c`, with an ASCII upper-case letter folded to its
/// lower-case counterpart.
pub open spec fn lower_code(c: char) -> u32 {
    if 65 <= c as u32 && c as u32 <= 90 {
        (c as u32 + 32) as u32
    } else {
        c as u32
    }
}

/// Character-wise equality up to ASCII case.
pub open spec fn eq_ci(a: Seq<char>, b: Seq<char>) -> bool {
    a.len() == b.len() && (forall|i: int|
        0 <= i < a.len() ==> #[trigger] lower_code(a[i]) == lower_code(b[i]))
}

/// The views of a sequence of strings.
pub open spec fn str_views(names: Seq<String>) -> Seq<Seq<char>> {
    names.map_values(|s: String| s@)
}

/// `name` equals one of `names`, up to ASCII case.
pub open spec fn name_matches(name: Seq<char>, names: Seq<Seq<char>>) -> bool {
    exists|j: int| 0 <= j < names.len() && eq_ci(name, names[j])
}

/// One of `files` is named exactly `pyvenv.cfg`: the authoritative marker
/// of a Python virtual environment.
pub open spec fn has_marker(files: Seq<FsFile>) -> bool {
    exists|i: int| 0 <= i < files.len() && files[i].name@ == "pyvenv.cfg"@
}

/// Compare two strings for equality ignoring ASCII case.
pub fn eq_ignore_ascii_case(a: &str, b: &str) -> (r: bool)
    ensures
        r == eq_ci(a@, b@),
{
    let a_len: usize = a.unicode_len();
    let b_len: usize = b.unicode_len();
    if a_len != b_len {
        return false;
    }
    let mut i: usize = 0;
    while i < a_len
        invariant
            a_len == a@.len(),
            b_len == b@.len(),
            a_len == b_len,
            i <= a_len,
            forall|k: int| 0 <= k < i ==> #[trigger] lower_code(a@[k]) == lower_code(b@[k]),
        decreases a_len - i,
    {
        let ca: char = a.get_char(i);
        let cb: char = b.get_char(i);
        let ua: u32 = ca as u32;
        let ub: u32 = cb as u32;
        let la: u32 = if 65 <= ua && ua <= 90 {
            ua + 32
        } else {
            ua
        };
        let lb: u32 = if 65 <= ub && ub <= 90 {
            ub + 32
        } else {
            ub
        };
        if la != lb {
            assert(lower_code(a@[i as int]) != lower_code(b@[i as int]));
            return false;
        }
        i += 1;
    }
    true
}

/// Is `name` on the allow-list of conventional virtual-environment
/// directory names, compared ignoring ASCII case?
pub fn is_candidate_name(name: &str, names: &Vec<String>) -> (r: bool)
    ensures
        r == name_matches(name@, str_views(names@)),
{
    let mut j: usize = 0;
    while j < names.len()
        invariant
            j <= names@.len(),
            forall|k: int| 0 <= k < j ==> !eq_ci(name@, #[trigger] str_views(names@)[k]),
        decreases names@.len() - j,
    {
        if eq_ignore_ascii_case(name, names[j].as_str()) {
            assert(eq_ci(name@, str_views(names@)[j as int]));
            return true;
        }
        j += 1;
    }
    false
}

/// The conventional directory names that mark a virtual-environment
/// candidate.
pub fn default_candidate_names() -> (r: Vec<String>)
    ensures
        r@.len() == 4,
        r@[0]@ == "venv"@,
        r@[1]@ == ".venv"@,
        r@[2]@ == "env"@,
        r@[3]@ == ".env"@,
{
    let mut names: Vec<String> = Vec::new();
    names.push(String::from_str("venv"));
    names.push(String::from_str(".venv"));
    names.push(String::from_str("env"));
    names.push(String::from_str(".env"));
    names
}

/// The sum of the sizes of `files`.
pub open spec fn files_size(files: Seq<FsFile>) -> nat
    decreases files.len(),
{
    if files.len() == 0 {
        0
    } else {
        (files_size(files.drop_last()) + files.last().size) as nat
    }
}

/// The sum of the sizes of every regular file in the subtree of `d`.
pub open spec fn dir_size_total(d: FsDir) -> nat
    decreases d,
{
    (files_size(d.files@) + subdirs_size(d.subdirs@)) as nat
}

/// The sum of [`dir_size_total`] over `ds`.
pub open spec fn subdirs_size(ds: Seq<FsDir>) -> nat
    decreases ds,
{
    if ds.len() == 0 {
        0
    } else {
        (subdirs_size(ds.drop_last()) + dir_size_total(ds.last())) as nat
    }
}

/// `n` clamped into `u64`.
pub open spec fn sat_u64(n: nat) -> u64 {
    if n > u64::MAX {
        u64::MAX
    } else {
        n as u64
    }
}

/// The total size in bytes of the regular files under `d`, clamped at
/// `u64::MAX` by saturating addition.
pub fn dir_size(d: &FsDir) -> (r: u64)
    ensures
        r == sat_u64(dir_size_total(*d)),
    decreases *d,
{
    let mut total: u64 = 0;
    let mut i: usize = 0;
    while i < d.files.len()
        invariant
            i <= d.files@.len(),
            total == sat_u64(files_size(d.files@.take(i as int))),
        decreases d.files@.len() - i,
    {
        total = total.saturating_add(d.files[i].size);
        proof {
            assert(d.files@.take(i + 1).drop_last() =~= d.files@.take(i as int));
            assert(d.files@.take(i + 1).last() == d.files@[i as int]);
        }
        i += 1;
    }
    assert(d.files@.take(d.files@.len() as int) =~= d.files@);

    let mut j: usize = 0;
    while j < d.subdirs.len()
        invariant
            j <= d.subdirs@.len(),
            total == sat_u64(files_size(d.files@) + subdirs_size(d.subdirs@.take(j as int))),
        decreases d.subdirs@.len() - j,
    {
        let sub: u64 = dir_size(&d.subdirs[j]);
        total = total.saturating_add(sub);
        proof {
            assert(d.subdirs@.take(j + 1).drop_last() =~= d.subdirs@.take(j as int));
            assert(d.subdirs@.take(j + 1).last() == d.subdirs@[j as int]);
        }
        j += 1;
    }
    assert(d.subdirs@.take(d.subdirs@.len() as int) =~= d.subdirs@);
    total
}

/// The entry reported for an accepted directory: its path, its clamped
/// subtree size, and its modification timestamp.
pub open spec fn entry_of(d: FsDir) -> (Seq<char>, u64, Option<i64>) {
    (d.path@, sat_u64(dir_size_total(d)), d.modified)
}

/// The entry contributed by `d` itself: one entry exactly when the base
/// name of `d` is on the allow-list and `d` directly contains the
/// `pyvenv.cfg` marker.
pub open spec fn venv_head(d: FsDir, names: Seq<Seq<char>>) -> Seq<(Seq<char>, u64, Option<i64>)> {
    if name_matches(d.name@, names) && has_marker(d.files@) {
        seq![entry_of(d)]
    } else {
        Seq::empty()
    }
}

/// Every virtual environment in the subtree of `d`, in discovery order:
/// `d` itself first, then the subtrees of its subdirectories in order.
pub open spec fn venvs_in_dir(d: FsDir, names: Seq<Seq<char>>) -> Seq<
    (Seq<char>, u64, Option<i64>),
>
    decreases d,
{
    venv_head(d, names) + venvs_in_subdirs(d.subdirs@, names)
}

/// [`venvs_in_dir`] concatenated over `ds`, in order.
pub open spec fn venvs_in_subdirs(ds: Seq<FsDir>, names: Seq<Seq<char>>) -> Seq<
    (Seq<char>, u64, Option<i64>),
>
    decreases ds,
{
    if ds.len() == 0 {
        Seq::empty()
    } else {
        venvs_in_subdirs(ds.drop_last(), names) + venvs_in_dir(ds.last(), names)
    }
}

/// The views of a sequence of entries.
pub open spec fn infos_view(vs: Seq<VenvInfo>) -> Seq<(Seq<char>, u64, Option<i64>)> {
    vs.map_values(|v: VenvInfo| v@)
}

impl VenvInfo {
    /// Classify one directory: an entry exactly when `d` directly
    /// contains the `pyvenv.cfg` marker file, carrying the path of `d`,
    /// the size of its subtree and its modification timestamp.
    pub fn new(d: &FsDir) -> (r: Option<VenvInfo>)
        ensures
            r is Some <==> has_marker(d.files@),
            r is Some ==> r.unwrap()@ == entry_of(*d),
    {
        if contains_marker(&d.files) {
            let size: u64 = dir_size(d);
            Some(VenvInfo { path: d.path.clone(), size: size, last_modified: d.modified })
        } else {
            None
        }
    }
}

/// Scan a snapshot: report, in discovery order, every directory in the
/// tree rooted at `root` whose base name is on `candidate_names`
/// (compared ignoring ASCII case) and which directly contains the
/// `pyvenv.cfg` marker file.
pub fn scan_for_venvs(root: &FsDir, candidate_names: &Vec<String>) -> (r: Vec<VenvInfo>)
    ensures
        infos_view(r@) == venvs_in_dir(*root, str_views(candidate_names@)),
    decreases *root,
{
    let ghost ns: Seq<Seq<char>> = str_views(candidate_names@);
    let mut out: Vec<VenvInfo> = Vec::new();
    if is_candidate_name(root.name.as_str(), candidate_names) {
        if let Some(v) = VenvInfo::new(root) {
            out.push(v);
        }
    }
    proof {
        assert(infos_view(out@) =~= venv_head(*root, ns));
    }
    let mut j: usize = 0;
    while j < root.subdirs.len()
        invariant
            j <= root.subdirs@.len(),
            ns == str_views(candidate_names@),
            infos_view(out@) == venv_head(*root, ns) + venvs_in_subdirs(
                root.subdirs@.take(j as int),
                ns,
            ),
        decreases root.subdirs@.len() - j,
    {
        let mut sub: Vec<VenvInfo> = scan_for_venvs(&root.subdirs[j], candidate_names);
        let ghost before: Seq<VenvInfo> = out@;
        out.append(&mut sub);
        proof {
            assert(infos_view(out@) =~= infos_view(before) + venvs_in_dir(
                root.subdirs@[j as int],
                ns,
            ));
            assert(root.subdirs@.take(j + 1).drop_last() =~= root.subdirs@.take(j as int));
            assert(root.subdirs@.take(j + 1).last() == root.subdirs@[j as int]);
            assert(infos_view(out@) =~= venv_head(*root, ns) + venvs_in_subdirs(
                root.subdirs@.take(j + 1),
                ns,
            ));
        }
        j += 1;
    }
    proof {
        assert(root.subdirs@.take(root.subdirs@.len() as int) =~= root.subdirs@);
        assert(infos_view(out@) =~= venvs_in_dir(*root, ns));
    }
    out
}

fn contains_marker(files: &Vec<FsFile>) -> (r: bool)
    ensures
        r == has_marker(files@),
{
    let marker: String = String::from_str("pyvenv.cfg");
    let mut i: usize = 0;
    while i < files.len()
        invariant
            marker@ == "pyvenv.cfg"@,
            i <= files@.len(),
            forall|k: int| 0 <= k < i ==> #[trigger] files@[k].name@ != "pyvenv.cfg"@,
        decreases files@.len() - i,
    {
        if files[i].name == marker {
            return true;
        }
        i += 1;
    }
    false
}

} // verus!
