use crate::text::{clone_prefix, str_eq, str_views, strings_eq};
use vstd::prelude::*;

verus! {

/// How deep below the repository root discovery looks for descriptor files.
pub const MAX_DEPTH: usize = 2;

/// The build tool of a project root.
#[derive(Debug, Clone, Copy, PartialEq, Eq, Structural)]
pub enum ProjectType {
    Foundry,
    Hardhat,
    Truffle,
    Unknown,
}

/// One entry met while walking a repository: its path as components below
/// the repository root, and whether it is a regular file.
#[derive(Debug, Clone)]
pub struct DirEntry {
    pub components: Vec<String>,
    pub is_file: bool,
}

pub open spec fn is_foundry_marker(n: Seq<char>) -> bool {
    n == "foundry.toml"@
}

pub open spec fn is_hardhat_marker(n: Seq<char>) -> bool {
    n == "hardhat.config.js"@ || n == "hardhat.config.ts"@
}

pub open spec fn is_truffle_marker(n: Seq<char>) -> bool {
    n == "truffle-config.js"@
}

/// Whether a file name is a recognized build-tool descriptor.
pub open spec fn is_marker_name(n: Seq<char>) -> bool {
    is_foundry_marker(n) || is_hardhat_marker(n) || is_truffle_marker(n)
}

/// Whether a directory name holds vendored dependencies, never searched.
pub open spec fn is_ignored_name(n: Seq<char>) -> bool {
    n == "lib"@ || n == "libs"@ || n == "node_modules"@
}

/// The build tool of a directory holding files named `names`: Foundry,
/// Hardhat and Truffle descriptors are checked in that order.
pub open spec fn project_type_of(names: Seq<Seq<char>>) -> ProjectType {
    if exists|i: int| 0 <= i < names.len() && is_foundry_marker(#[trigger] names[i]) {
        ProjectType::Foundry
    } else if exists|i: int| 0 <= i < names.len() && is_hardhat_marker(#[trigger] names[i]) {
        ProjectType::Hardhat
    } else if exists|i: int| 0 <= i < names.len() && is_truffle_marker(#[trigger] names[i]) {
        ProjectType::Truffle
    } else {
        ProjectType::Unknown
    }
}

/// Whether no directory on a path, the last component excluded, is ignored.
pub open spec fn outside_ignored(p: Seq<Seq<char>>) -> bool {
    forall|k: int| 0 <= k < p.len() - 1 ==> !is_ignored_name(#[trigger] p[k])
}

/// Whether an entry of the walk makes its directory a project root: a
/// descriptor file within the depth bound that lies in no ignored directory.
pub open spec fn marks_root(e: DirEntry) -> bool {
    let p = str_views(e.components@);
    &&& e.is_file
    &&& 1 <= p.len() <= MAX_DEPTH
    &&& is_marker_name(p.last())
    &&& outside_ignored(p)
}

/// The directory that holds an entry.
pub open spec fn parent_of(e: DirEntry) -> Seq<Seq<char>> {
    str_views(e.components@).drop_last()
}

/// Whether `dir` is the directory of a root-marking entry among the first
/// `n` entries.
pub open spec fn is_root_within(entries: Seq<DirEntry>, n: int, dir: Seq<Seq<char>>) -> bool {
    exists|j: int| 0 <= j < n && marks_root(#[trigger] entries[j]) && parent_of(entries[j]) == dir
}

/// Whether `dir` is the directory of some root-marking entry.
pub open spec fn is_root_of(entries: Seq<DirEntry>, dir: Seq<Seq<char>>) -> bool {
    is_root_within(entries, entries.len() as int, dir)
}

/// The roots that the first `n` entries of a walk make, each once, in the
/// order in which the walk first met one of their descriptors.
pub open spec fn roots_upto(entries: Seq<DirEntry>, n: int) -> Seq<Seq<Seq<char>>>
    decreases n,
{
    if n <= 0 {
        seq![]
    } else {
        let before = roots_upto(entries, n - 1);
        let e = entries[n - 1];
        if marks_root(e) && !before.contains(parent_of(e)) {
            before.push(parent_of(e))
        } else {
            before
        }
    }
}

/// The roots that a whole walk makes.
pub open spec fn discovered_roots(entries: Seq<DirEntry>) -> Seq<Seq<Seq<char>>> {
    roots_upto(entries, entries.len() as int)
}

/// The views of a sequence of paths.
pub open spec fn path_views(v: Seq<Vec<String>>) -> Seq<Seq<Seq<char>>> {
    v.map_values(|p: Vec<String>| str_views(p@))
}

fn is_foundry_file(n: &String) -> (r: bool)
    ensures
        r == is_foundry_marker(n@),
{
    str_eq(n.as_str(), "foundry.toml")
}

fn is_hardhat_file(n: &String) -> (r: bool)
    ensures
        r == is_hardhat_marker(n@),
{
    str_eq(n.as_str(), "hardhat.config.js") || str_eq(n.as_str(), "hardhat.config.ts")
}

fn is_truffle_file(n: &String) -> (r: bool)
    ensures
        r == is_truffle_marker(n@),
{
    str_eq(n.as_str(), "truffle-config.js")
}

/// Whether a file name is a recognized build-tool descriptor.
pub fn is_marker_file(n: &String) -> (r: bool)
    ensures
        r == is_marker_name(n@),
{
    is_foundry_file(n) || is_hardhat_file(n) || is_truffle_file(n)
}

/// Whether a directory name is one that discovery never descends into.
pub fn is_ignored_dir(n: &String) -> (r: bool)
    ensures
        r == is_ignored_name(n@),
{
    str_eq(n.as_str(), "lib") || str_eq(n.as_str(), "libs") || str_eq(n.as_str(), "node_modules")
}

fn has_file(names: &Vec<String>, kind: ProjectType) -> (r: bool)
    requires
        kind != ProjectType::Unknown,
    ensures
        r == exists|i: int| 0 <= i < names@.len() && #[trigger] marker_of(kind, names@[i]@),
{
    let mut i: usize = 0;
    while i < names.len()
        invariant
            i <= names@.len(),
            kind != ProjectType::Unknown,
            forall|k: int| 0 <= k < i ==> !#[trigger] marker_of(kind, names@[k]@),
        decreases names@.len() - i,
    {
        let n = &names[i];
        let hit = match kind {
            ProjectType::Foundry => is_foundry_file(n),
            ProjectType::Hardhat => is_hardhat_file(n),
            _ => is_truffle_file(n),
        };
        if hit {
            proof {
                assert(marker_of(kind, names@[i as int]@));
            }
            return true;
        }
        i = i + 1;
    }
    false
}

pub open spec fn marker_of(kind: ProjectType, n: Seq<char>) -> bool {
    match kind {
        ProjectType::Foundry => is_foundry_marker(n),
        ProjectType::Hardhat => is_hardhat_marker(n),
        ProjectType::Truffle => is_truffle_marker(n),
        ProjectType::Unknown => false,
    }
}

impl ProjectType {
    /// The build tool of a project directory, given the names of the files
    /// directly inside it.
    pub fn from_repo_dir(file_names: &Vec<String>) -> (r: ProjectType)
        ensures
            r == project_type_of(str_views(file_names@)),
    {
        let ghost names = str_views(file_names@);
        let foundry = has_file(file_names, ProjectType::Foundry);
        let hardhat = has_file(file_names, ProjectType::Hardhat);
        let truffle = has_file(file_names, ProjectType::Truffle);
        proof {
            assert(foundry == exists|i: int| 0 <= i < names.len() && is_foundry_marker(#[trigger] names[i])) by {
                if foundry {
                    let i = choose|i: int| 0 <= i < file_names@.len() && #[trigger] marker_of(ProjectType::Foundry, file_names@[i]@);
                    assert(is_foundry_marker(names[i]));
                } else {
                    assert forall|i: int| 0 <= i < names.len() implies !is_foundry_marker(#[trigger] names[i]) by {
                        assert(!marker_of(ProjectType::Foundry, file_names@[i]@));
                    }
                }
            }
            assert(hardhat == exists|i: int| 0 <= i < names.len() && is_hardhat_marker(#[trigger] names[i])) by {
                if hardhat {
                    let i = choose|i: int| 0 <= i < file_names@.len() && #[trigger] marker_of(ProjectType::Hardhat, file_names@[i]@);
                    assert(is_hardhat_marker(names[i]));
                } else {
                    assert forall|i: int| 0 <= i < names.len() implies !is_hardhat_marker(#[trigger] names[i]) by {
                        assert(!marker_of(ProjectType::Hardhat, file_names@[i]@));
                    }
                }
            }
            assert(truffle == exists|i: int| 0 <= i < names.len() && is_truffle_marker(#[trigger] names[i])) by {
                if truffle {
                    let i = choose|i: int| 0 <= i < file_names@.len() && #[trigger] marker_of(ProjectType::Truffle, file_names@[i]@);
                    assert(is_truffle_marker(names[i]));
                } else {
                    assert forall|i: int| 0 <= i < names.len() implies !is_truffle_marker(#[trigger] names[i]) by {
                        assert(!marker_of(ProjectType::Truffle, file_names@[i]@));
                    }
                }
            }
        }
        if foundry {
            ProjectType::Foundry
        } else if hardhat {
            ProjectType::Hardhat
        } else if truffle {
            ProjectType::Truffle
        } else {
            ProjectType::Unknown
        }
    }
}

/// Whether an entry of the walk makes its directory a project root.
pub fn marks_project_root(e: &DirEntry) -> (r: bool)
    ensures
        r == marks_root(*e),
{
    let ghost p = str_views(e.components@);
    let n = e.components.len();
    if !e.is_file || n < 1 || n > MAX_DEPTH {
        return false;
    }
    if !is_marker_file(&e.components[n - 1]) {
        return false;
    }
    let mut k: usize = 0;
    while k < n - 1
        invariant
            n == e.components@.len(),
            p == str_views(e.components@),
            1 <= n,
            k <= n - 1,
            forall|j: int| 0 <= j < k ==> !is_ignored_name(#[trigger] p[j]),
        decreases n - 1 - k,
    {
        if is_ignored_dir(&e.components[k]) {
            proof {
                assert(p[k as int] == e.components@[k as int]@);
            }
            return false;
        }
        k = k + 1;
    }
    true
}

fn contains_path(roots: &Vec<Vec<String>>, dir: &Vec<String>) -> (r: bool)
    ensures
        r == path_views(roots@).contains(str_views(dir@)),
{
    let mut i: usize = 0;
    while i < roots.len()
        invariant
            i <= roots@.len(),
            forall|k: int| 0 <= k < i ==> path_views(roots@)[k] != str_views(dir@),
        decreases roots@.len() - i,
    {
        if strings_eq(&roots[i], dir) {
            proof {
                assert(path_views(roots@)[i as int] == str_views(dir@));
            }
            return true;
        }
        i = i + 1;
    }
    false
}

/// The directories that are independent build roots, given the entries of a
/// walk of the repository (each path as components below the repository
/// root). A directory is a root when it directly holds a descriptor file,
/// lies at most one level below the repository root and in no `lib`, `libs`
/// or `node_modules` directory. Each root appears once, in the order in
/// which the walk first met one of its descriptors, so the same walk always
/// gives the same sequence.
pub fn find_all_project_roots(entries: &Vec<DirEntry>) -> (r: Vec<Vec<String>>)
    ensures
        path_views(r@) == discovered_roots(entries@),
        path_views(r@).no_duplicates(),
        forall|k: int| 0 <= k < r@.len() ==> is_root_of(entries@, #[trigger] path_views(r@)[k]),
        forall|k: int, c: int|
            0 <= k < r@.len() && 0 <= c < path_views(r@)[k].len() ==> !is_ignored_name(
                #[trigger] path_views(r@)[k][c],
            ),
        forall|j: int|
            0 <= j < entries@.len() && marks_root(#[trigger] entries@[j]) ==> path_views(
                r@,
            ).contains(parent_of(entries@[j])),
{
    let mut roots: Vec<Vec<String>> = Vec::new();
    let mut i: usize = 0;
    while i < entries.len()
        invariant
            i <= entries@.len(),
            path_views(roots@) == roots_upto(entries@, i as int),
            path_views(roots@).no_duplicates(),
            forall|k: int|
                0 <= k < roots@.len() ==> is_root_within(
                    entries@,
                    i as int,
                    #[trigger] path_views(roots@)[k],
                ),
            forall|j: int|
                0 <= j < i && marks_root(#[trigger] entries@[j]) ==> path_views(roots@).contains(
                    parent_of(entries@[j]),
                ),
        decreases entries@.len() - i,
    {
        let e = &entries[i];
        let ghost before = roots@;
        if marks_project_root(e) {
            let dir = clone_prefix(&e.components, e.components.len() - 1);
            proof {
                assert(str_views(dir@) =~= parent_of(*e));
            }
            if !contains_path(&roots, &dir) {
                roots.push(dir);
                proof {
                    assert(path_views(roots@) =~= path_views(before).push(parent_of(*e)));
                    assert forall|a: int, b: int|
                        0 <= a < path_views(roots@).len() && 0 <= b < path_views(roots@).len() && a
                            != b implies path_views(roots@)[a] != path_views(roots@)[b] by {
                        if a < before.len() && b < before.len() {
                            assert(path_views(before)[a] != path_views(before)[b]);
                        } else if a < before.len() {
                            assert(path_views(before)[a] == path_views(roots@)[a]);
                        } else {
                            assert(path_views(before)[b] == path_views(roots@)[b]);
                        }
                    }
                    assert forall|k: int| 0 <= k < roots@.len() implies is_root_within(
                        entries@,
                        i + 1,
                        #[trigger] path_views(roots@)[k],
                    ) by {
                        if k < before.len() {
                            assert(path_views(before)[k] == path_views(roots@)[k]);
                            assert(is_root_within(entries@, i as int, path_views(before)[k]));
                        } else {
                            assert(marks_root(entries@[i as int]));
                        }
                    }
                    assert forall|j: int|
                        0 <= j < i + 1 && marks_root(#[trigger] entries@[j]) implies path_views(
                        roots@,
                    ).contains(parent_of(entries@[j])) by {
                        if j < i {
                            let w = choose|w: int|
                                0 <= w < path_views(before).len() && path_views(before)[w]
                                    == parent_of(entries@[j]);
                            assert(path_views(roots@)[w] == parent_of(entries@[j]));
                        } else {
                            assert(path_views(roots@)[before.len() as int] == parent_of(entries@[j]));
                        }
                    }
                }
            } else {
                proof {
                    assert forall|k: int| 0 <= k < roots@.len() implies is_root_within(
                        entries@,
                        i + 1,
                        #[trigger] path_views(roots@)[k],
                    ) by {
                        assert(is_root_within(entries@, i as int, path_views(roots@)[k]));
                    }
                }
            }
        } else {
            proof {
                assert forall|k: int| 0 <= k < roots@.len() implies is_root_within(
                    entries@,
                    i + 1,
                    #[trigger] path_views(roots@)[k],
                ) by {
                    assert(is_root_within(entries@, i as int, path_views(roots@)[k]));
                }
            }
        }
        i = i + 1;
    }
    proof {
        assert forall|k: int, c: int|
            0 <= k < roots@.len() && 0 <= c < path_views(roots@)[k].len() implies !is_ignored_name(
            #[trigger] path_views(roots@)[k][c],
        ) by {
            lemma_roots_outside_vendored(entries@, path_views(roots@)[k]);
        }
    }
    roots
}

/// A project root never lies in a `lib`, `libs` or `node_modules` directory,
/// whatever descriptor files such a directory holds.
pub proof fn lemma_roots_outside_vendored(entries: Seq<DirEntry>, dir: Seq<Seq<char>>)
    requires
        is_root_of(entries, dir),
    ensures
        forall|c: int| 0 <= c < dir.len() ==> !is_ignored_name(#[trigger] dir[c]),
{
    let j = choose|j: int|
        0 <= j < entries.len() && marks_root(#[trigger] entries[j]) && parent_of(entries[j]) == dir;
    let p = str_views(entries[j].components@);
    assert forall|c: int| 0 <= c < dir.len() implies !is_ignored_name(#[trigger] dir[c]) by {
        assert(dir[c] == p[c]);
    }
}

} // verus!
