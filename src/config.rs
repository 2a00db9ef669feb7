use crate::artifacts::cache_file_name;
use crate::errors::{AppError, ErrorView};
use crate::orchestrator::{hardhat_config_of, HardhatConfigFile, ProjectFiles};
use crate::paths::{join_path, joined, opt_view};
use crate::text::str_views;
use vstd::prelude::*;

verus! {

/// The name of the artifacts directory when the descriptor names none.
pub const DEFAULT_OUT: &'static str = "out";

/// A Foundry descriptor (`foundry.toml`), as far as the path layout goes.
#[derive(Debug, Clone)]
pub struct FoundryConfig {
    pub profile: FoundryConfigProfile,
}

#[derive(Debug, Clone)]
pub struct FoundryConfigProfile {
    pub default: FoundryConfigProfileDefault,
}

/// The settings of `profile.default`, each a path relative to the project
/// root.
#[derive(Debug, Clone)]
pub struct FoundryConfigProfileDefault {
    pub src: Option<String>,
    pub libs: Option<Vec<String>>,
    pub test: Option<String>,
    pub cache_path: Option<String>,
    pub out: Option<String>,
}

/// Where a project keeps its files, each path resolved against the project
/// root. `None` leaves the build tool's default in place; the cache file and
/// the artifacts directory are always given.
#[derive(Debug, Clone)]
pub struct PathLayout {
    pub root: String,
    pub sources: Option<String>,
    pub libs: Option<Vec<String>>,
    pub tests: Option<String>,
    pub cache: String,
    pub artifacts: String,
}

/// The mathematical value of a [`PathLayout`].
pub struct LayoutView {
    pub root: Seq<char>,
    pub sources: Option<Seq<char>>,
    pub libs: Option<Seq<Seq<char>>>,
    pub tests: Option<Seq<char>>,
    pub cache: Seq<char>,
    pub artifacts: Seq<char>,
}

impl View for PathLayout {
    type V = LayoutView;

    open spec fn view(&self) -> LayoutView {
        LayoutView {
            root: self.root@,
            sources: opt_view(self.sources),
            libs: match self.libs {
                Some(l) => Some(str_views(l@)),
                None => None,
            },
            tests: opt_view(self.tests),
            cache: self.cache@,
            artifacts: self.artifacts@,
        }
    }
}

/// An optional path resolved against the root.
pub open spec fn joined_opt(root: Seq<char>, p: Option<String>) -> Option<Seq<char>> {
    match p {
        Some(p) => Some(joined(root, p@)),
        None => None,
    }
}

pub open spec fn joined_to(root: Seq<char>) -> spec_fn(Seq<char>) -> Seq<char> {
    |p: Seq<char>| joined(root, p)
}

/// The artifacts directory: `out` under the root unless the descriptor
/// names another.
pub open spec fn artifacts_dir_of(root: Seq<char>, c: FoundryConfigProfileDefault) -> Seq<char> {
    match c.out {
        Some(o) => joined(root, o@),
        None => joined(root, DEFAULT_OUT@),
    }
}

/// The layout that a descriptor gives a project rooted at `root`.
pub open spec fn layout_of(root: Seq<char>, c: FoundryConfigProfileDefault) -> LayoutView {
    LayoutView {
        root,
        sources: joined_opt(root, c.src),
        libs: match c.libs {
            Some(l) => Some(str_views(l@).map_values(joined_to(root))),
            None => None,
        },
        tests: joined_opt(root, c.test),
        cache: match c.cache_path {
            Some(p) => joined(joined(root, p@), "solidity-files-cache.json"@),
            None => joined(artifacts_dir_of(root, c), "solidity-files-cache.json"@),
        },
        artifacts: artifacts_dir_of(root, c),
    }
}

/// Resolves and builds projects.
pub struct ProjectResolver {}

fn join_opt(root: &String, p: &Option<String>) -> (r: Option<String>)
    ensures
        opt_view(r) == joined_opt(root@, *p),
{
    match p {
        Some(p) => Some(join_path(root.as_str(), p.as_str())),
        None => None,
    }
}

impl ProjectResolver {
    /// Picks the Hardhat configuration file of a project by
    /// [`hardhat_config_of`].
    pub fn parse_hardhat_config(files: &ProjectFiles) -> (r: Result<HardhatConfigFile, AppError>)
        ensures
            match r {
                Ok(c) => hardhat_config_of(*files) == Ok::<HardhatConfigFile, ErrorView>(c),
                Err(e) => hardhat_config_of(*files) == Err::<HardhatConfigFile, ErrorView>(e@),
            },
    {
        if files.has_hardhat_ts_config {
            Ok(HardhatConfigFile::TypeScript)
        } else if files.has_hardhat_js_config {
            Ok(HardhatConfigFile::JavaScript)
        } else {
            Err(AppError::ParseHardhatConfigError(String::from_str("Missing hardhat config")))
        }
    }

    /// The path layout that a Foundry descriptor gives the project rooted at
    /// `repo_dir`: each setting it holds overrides the tool's default, paths
    /// resolved against the root; the artifacts directory is `out` unless
    /// set; the cache file, under the compiler's fixed name, lies in the cache
    /// directory where one is set and in the artifacts directory otherwise.
    pub fn parse_foundry_config(repo_dir: &String, config: &FoundryConfig) -> (r: PathLayout)
        ensures
            r@ == layout_of(repo_dir@, config.profile.default),
    {
        let c = &config.profile.default;
        let libs = match &c.libs {
            None => None,
            Some(l) => {
                let mut out: Vec<String> = Vec::new();
                let mut i: usize = 0;
                while i < l.len()
                    invariant
                        i <= l@.len(),
                        str_views(out@) == str_views(l@).subrange(0, i as int).map_values(
                            joined_to(repo_dir@),
                        ),
                    decreases l@.len() - i,
                {
                    let ghost before = out@;
                    out.push(join_path(repo_dir.as_str(), l[i].as_str()));
                    proof {
                        assert(str_views(out@) =~= str_views(before).push(joined(repo_dir@, l@[i as int]@)));
                        assert(str_views(out@) =~= str_views(l@).subrange(0, i + 1).map_values(
                            joined_to(repo_dir@),
                        ));
                    }
                    i = i + 1;
                }
                proof {
                    assert(str_views(l@).subrange(0, l@.len() as int) =~= str_views(l@));
                }
                Some(out)
            },
        };
        let artifacts = match &c.out {
            Some(o) => join_path(repo_dir.as_str(), o.as_str()),
            None => join_path(repo_dir.as_str(), DEFAULT_OUT),
        };
        let cache = match &c.cache_path {
            None => join_path(artifacts.as_str(), cache_file_name()),
            Some(p) => {
                let dir = join_path(repo_dir.as_str(), p.as_str());
                join_path(dir.as_str(), cache_file_name())
            },
        };
        PathLayout {
            root: repo_dir.clone(),
            sources: join_opt(repo_dir, &c.src),
            libs,
            tests: join_opt(repo_dir, &c.test),
            cache,
            artifacts,
        }
    }
}

} // verus!
