use crate::contract::ContractBytecode;
use crate::text::str_views;
use vstd::prelude::*;

verus! {

/// The node types of a syntax tree that import resolution tells apart.
#[derive(Debug, Clone, Copy, PartialEq, Eq, Structural)]
pub enum NodeType {
    ImportDirective,
    Other,
}

/// A top-level node of a source file's syntax tree.
#[derive(Debug, Clone)]
pub struct AstNode {
    pub node_type: NodeType,
    /// The `absolutePath` attribute of the node, where it has one.
    pub absolute_path: Option<String>,
}

/// The syntax tree of a source file, as far as import resolution reads it.
#[derive(Debug, Clone)]
pub struct Ast {
    pub nodes: Vec<AstNode>,
}

/// What one artifact file holds: a bytecode object and a syntax tree, each
/// possibly absent.
#[derive(Debug, Clone)]
pub struct Artifact {
    pub bytecode: Option<ContractBytecode>,
    pub ast: Option<Ast>,
}

/// One artifact file listed in the build cache for a source file: the
/// compiler version that produced it, its path, and its contents (absent
/// where the file could not be read).
#[derive(Debug, Clone)]
pub struct ArtifactFile {
    pub version: semver::Version,
    pub path: String,
    pub artifact: Option<Artifact>,
}

/// The build cache entry of one source file: every artifact produced for it,
/// across compiler versions.
#[derive(Debug, Clone)]
pub struct CacheEntry {
    pub source: String,
    pub artifacts: Vec<ArtifactFile>,
}

/// A build cache loaded once: the entries of all source files.
#[derive(Debug, Clone)]
pub struct BuildCache {
    pub files: Vec<CacheEntry>,
}

/// The index of the first entry of `files` for the source file `path`.
pub open spec fn lookup(files: Seq<CacheEntry>, path: Seq<char>) -> Option<int> {
    if exists|i: int| 0 <= i < files.len() && #[trigger] files[i].source@ == path {
        Some(
            choose|i: int|
                0 <= i < files.len() && #[trigger] files[i].source@ == path && forall|j: int|
                    0 <= j < i ==> #[trigger] files[j].source@ != path,
        )
    } else {
        None
    }
}

/// The absolute paths of the import directives among `nodes`, in order.
pub open spec fn imported_files(nodes: Seq<AstNode>) -> Seq<Seq<char>>
    decreases nodes.len(),
{
    if nodes.len() == 0 {
        seq![]
    } else {
        let rest = imported_files(nodes.drop_last());
        let last = nodes.last();
        match last.absolute_path {
            Some(p) => if last.node_type == NodeType::ImportDirective {
                rest.push(p@)
            } else {
                rest
            },
            None => rest,
        }
    }
}

/// A source file's contract compiled under one version, with the files it
/// imports.
#[derive(Debug, Clone)]
pub struct ContractCacheEntry {
    pub name: String,
    pub version: semver::Version,
    pub artifact_file: String,
    pub imported_files: Vec<String>,
}

impl BuildCache {
    /// Finds the first entry for the source file `path`.
    pub fn find_entry(&self, path: &String) -> (r: Option<usize>)
        ensures
            match r {
                Some(i) => i < self.files@.len() && lookup(self.files@, path@) == Some(i as int),
                None => lookup(self.files@, path@) == None::<int>,
            },
    {
        let n = self.files.len();
        let mut i: usize = 0;
        while i < n
            invariant
                n == self.files@.len(),
                i <= n,
                forall|j: int| 0 <= j < i ==> #[trigger] self.files@[j].source@ != path@,
            decreases n - i,
        {
            if self.files[i].source == *path {
                proof {
                    let files = self.files@;
                    let p = path@;
                    assert(files[i as int].source@ == p);
                    let k = choose|k: int|
                        0 <= k < files.len() && #[trigger] files[k].source@ == p && forall|j: int|
                            0 <= j < k ==> #[trigger] files[j].source@ != p;
                    assert(0 <= i < files.len() && files[i as int].source@ == p && forall|j: int|
                        0 <= j < i ==> #[trigger] files[j].source@ != p);
                    if k < i {
                        assert(files[k].source@ != p);
                    } else if k > i {
                        assert(files[i as int].source@ != p);
                    }
                }
                return Some(i);
            }
            i = i + 1;
        }
        None
    }
}

} // verus!
