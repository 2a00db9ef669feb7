use crate::artifacts::contract_name;
use crate::cache::{
    imported_files, lookup, Artifact, ArtifactFile, Ast, BuildCache, CacheEntry, NodeType,
};
use crate::contract::{
    artifact_view_fn, contract_view_fn, Classified, artifact_views, contract_views, kind_of, kind_order, ArtifactContractView, Contract,
    ContractBytecode, ContractFromArtifact, ContractKind, ContractView, KindView,
};
use crate::errors::AppError;
use crate::paths::{file_stem, join_path, joined, stem_of};
use crate::text::str_views;
use core::cmp::Ordering;
use vstd::prelude::*;

verus! {

/// Turns a project's build cache into its contracts.
pub struct ContractResolver {}

/// The view of an optional bytecode object.
pub open spec fn bytecode_view(b: Option<ContractBytecode>) -> Option<Seq<char>> {
    match b {
        Some(b) => Some(b@),
        None => None,
    }
}

/// The view of an optional imported contract.
pub open spec fn imported_view(c: Option<ContractFromArtifact>) -> Option<ArtifactContractView> {
    match c {
        Some(c) => Some(c@),
        None => None,
    }
}

/// The view of an optional contract.
pub open spec fn contract_view(c: Option<Contract>) -> Option<ContractView> {
    match c {
        Some(c) => Some(c@),
        None => None,
    }
}

/// The imported contract that one artifact file yields: its name is the
/// stem of its path, its kind comes from its bytecode; a file that could not be
/// read, has no bytecode or no name yields none.
pub open spec fn imported_contract(f: ArtifactFile) -> Option<ArtifactContractView> {
    match f.artifact {
        Some(a) => match a.bytecode {
            Some(b) => match stem_of(f.path@) {
                Some(n) => Some(
                    ArtifactContractView { name: n, kind: kind_of(b@), artifact_path: f.path@ },
                ),
                None => None,
            },
            None => None,
        },
        None => None,
    }
}

/// The imported contracts of a list of artifact files, in order.
pub open spec fn artifact_contracts(files: Seq<ArtifactFile>) -> Seq<ArtifactContractView> {
    files.filter_map(|f: ArtifactFile| imported_contract(f))
}

/// The imported contracts that the source file `path` contributes: one per
/// artifact file of its cache entry, across all compiler versions.
pub open spec fn entry_imports(cache: Seq<CacheEntry>, path: Seq<char>) -> Seq<ArtifactContractView> {
    match lookup(cache, path) {
        Some(i) => artifact_contracts(cache[i].artifacts@),
        None => seq![],
    }
}

/// The imported contracts of a list of imported paths, each joined to the
/// project root before it is looked up in the cache.
pub open spec fn imports_of(
    cache: Seq<CacheEntry>,
    root: Seq<char>,
    paths: Seq<Seq<char>>,
) -> Seq<ArtifactContractView>
    decreases paths.len(),
{
    if paths.len() == 0 {
        seq![]
    } else {
        imports_of(cache, root, paths.drop_last()) + entry_imports(cache, joined(root, paths.last()))
    }
}

pub open spec fn import_is_interface() -> spec_fn(ArtifactContractView) -> bool {
    |c: ArtifactContractView| c.kind == KindView::Interface
}

pub open spec fn import_is_implementation() -> spec_fn(ArtifactContractView) -> bool {
    |c: ArtifactContractView| c.kind != KindView::Interface
}

/// A sequence of imported contracts with the interfaces moved to the front,
/// each group keeping its order.
pub open spec fn interfaces_first_imports(s: Seq<ArtifactContractView>) -> Seq<ArtifactContractView> {
    s.filter(import_is_interface()) + s.filter(import_is_implementation())
}

pub open spec fn contract_is_interface() -> spec_fn(ContractView) -> bool {
    |c: ContractView| c.kind == KindView::Interface
}

pub open spec fn contract_is_implementation() -> spec_fn(ContractView) -> bool {
    |c: ContractView| c.kind != KindView::Interface
}

/// A sequence of contracts with the interfaces moved to the front, each
/// group keeping its order. The comparator [`kind_order`] is no total order
/// (a contract never equals even itself), so a general-purpose sort has no
/// defined result on it; this stable partition is one arrangement that is
/// sorted under it, and the one that is always produced.
pub open spec fn interfaces_first_contracts(s: Seq<ContractView>) -> Seq<ContractView> {
    s.filter(contract_is_interface()) + s.filter(contract_is_implementation())
}

/// The contract that one artifact file of a source file yields: it needs
/// the file to be readable, with a syntax tree, bytecode and a stem.
pub open spec fn contract_from_file(
    cache: Seq<CacheEntry>,
    root: Seq<char>,
    f: ArtifactFile,
) -> Option<ContractView> {
    match f.artifact {
        Some(a) => match a.ast {
            Some(ast) => match a.bytecode {
                Some(b) => match stem_of(f.path@) {
                    Some(n) => Some(
                        ContractView {
                            name: n,
                            kind: kind_of(b@),
                            version: f.version,
                            imported_contracts: interfaces_first_imports(
                                imports_of(cache, root, imported_files(ast.nodes@)),
                            ),
                        },
                    ),
                    None => None,
                },
                None => None,
            },
            None => None,
        },
        None => None,
    }
}

pub open spec fn contracts_of_files(cache: Seq<CacheEntry>, root: Seq<char>) -> spec_fn(
    ArtifactFile,
) -> Option<ContractView> {
    |f: ArtifactFile| contract_from_file(cache, root, f)
}

/// The contracts of the source file `path`, one per usable artifact file of
/// its cache entry, in the order of the entry.
pub open spec fn cache_contracts(
    cache: Seq<CacheEntry>,
    root: Seq<char>,
    path: Seq<char>,
) -> Seq<ContractView> {
    match lookup(cache, path) {
        Some(i) => cache[i].artifacts@.filter_map(contracts_of_files(cache, root)),
        None => seq![],
    }
}

/// The contracts of the first `k` source files of the cache, concatenated.
pub open spec fn contracts_upto(cache: Seq<CacheEntry>, root: Seq<char>, k: int) -> Seq<ContractView>
    decreases k,
{
    if k <= 0 {
        seq![]
    } else {
        contracts_upto(cache, root, k - 1) + cache_contracts(cache, root, cache[k - 1].source@)
    }
}

/// The contracts of a whole project, interfaces first.
pub open spec fn project_contracts(cache: Seq<CacheEntry>, root: Seq<char>) -> Seq<ContractView> {
    interfaces_first_contracts(contracts_upto(cache, root, cache.len() as int))
}

/// The contracts of a list of per-file results, concatenated in order.
pub open spec fn concat_parts(parts: Seq<Vec<Contract>>) -> Seq<ContractView>
    decreases parts.len(),
{
    if parts.len() == 0 {
        seq![]
    } else {
        concat_parts(parts.drop_last()) + contract_views(parts.last()@)
    }
}

/// The contracts of the project roots that were extracted, concatenated in
/// the order of the roots; a failed root contributes none.
pub open spec fn successful_contracts(outcomes: Seq<Result<Vec<Contract>, AppError>>) -> Seq<ContractView>
    decreases outcomes.len(),
{
    if outcomes.len() == 0 {
        seq![]
    } else {
        successful_contracts(outcomes.drop_last()) + match outcomes.last() {
            Ok(v) => contract_views(v@),
            Err(_) => seq![],
        }
    }
}

pub open spec fn item_is_interface<T: Classified>() -> spec_fn(T) -> bool {
    |t: T| t.kind_view() == KindView::Interface
}

pub open spec fn item_is_implementation<T: Classified>() -> spec_fn(T) -> bool {
    |t: T| t.kind_view() != KindView::Interface
}

/// Moves the interfaces of `v` to the front, each group keeping its order.
fn interfaces_first<T: Classified>(v: Vec<T>) -> (r: Vec<T>)
    ensures
        r@ == v@.filter(item_is_interface()) + v@.filter(item_is_implementation()),
{
    let ghost all = v@;
    let ghost n = v@.len();
    let mut rest = v;
    let mut interfaces: Vec<T> = Vec::new();
    let mut others: Vec<T> = Vec::new();
    proof {
        reveal(Seq::filter);
        assert(all.subrange(0, 0).filter(item_is_interface()) =~= seq![]);
        assert(all.subrange(0, 0).filter(item_is_implementation()) =~= seq![]);
    }
    while rest.len() > 0
        invariant
            n == all.len(),
            rest@.len() <= n,
            rest@ == all.subrange(n - rest@.len(), n as int),
            interfaces@ == all.subrange(0, n - rest@.len()).filter(item_is_interface()),
            others@ == all.subrange(0, n - rest@.len()).filter(item_is_implementation()),
        decreases rest@.len(),
    {
        let ghost k = n - rest@.len();
        let ghost old_rest = rest@;
        let c = rest.remove(0);
        proof {
            reveal(Seq::filter);
            assert(old_rest[0] == all[k]);
            assert(all.subrange(0, k + 1).drop_last() =~= all.subrange(0, k));
            assert(all.subrange(0, k + 1).last() == c);
            assert(rest@ =~= all.subrange(k + 1, n as int));
        }
        if c.is_interface() {
            interfaces.push(c);
        } else {
            others.push(c);
        }
    }
    proof {
        assert(all.subrange(0, n as int) =~= all);
    }
    interfaces.append(&mut others);
    interfaces
}

/// Filtering and then taking views is taking views and then filtering, for
/// a filter that looks at the view alone.
proof fn lemma_filter_then_view<A, B>(
    s: Seq<A>,
    f: spec_fn(A) -> B,
    q: spec_fn(A) -> bool,
    p: spec_fn(B) -> bool,
)
    requires
        forall|a: A| #[trigger] q(a) == p(f(a)),
    ensures
        s.filter(q).map_values(f) == s.map_values(f).filter(p),
    decreases s.len(),
{
    reveal(Seq::filter);
    if s.len() == 0 {
        assert(s.filter(q).map_values(f) =~= s.map_values(f).filter(p));
    } else {
        lemma_filter_then_view(s.drop_last(), f, q, p);
        assert(s.map_values(f).drop_last() =~= s.drop_last().map_values(f));
        assert(s.map_values(f).last() == f(s.last()));
        if q(s.last()) {
            assert(s.drop_last().filter(q).push(s.last()).map_values(f) =~= s.drop_last().filter(
                q,
            ).map_values(f).push(f(s.last())));
        }
    }
}

impl ContractResolver {
    /// The bytecode object of an artifact, where it has one.
    pub fn get_contract_bytecode_from_artifact(artifact: &Artifact) -> (r: Option<ContractBytecode>)
        ensures
            bytecode_view(r) == bytecode_view(artifact.bytecode),
    {
        match &artifact.bytecode {
            Some(b) => Some(ContractBytecode(b.0.clone())),
            None => None,
        }
    }

    /// The absolute paths of the import directives of a syntax tree.
    pub fn get_imported_files_from_artifact(ast: &Ast) -> (r: Vec<String>)
        ensures
            str_views(r@) == imported_files(ast.nodes@),
    {
        let mut r: Vec<String> = Vec::new();
        let n = ast.nodes.len();
        let mut i: usize = 0;
        while i < n
            invariant
                n == ast.nodes@.len(),
                i <= n,
                str_views(r@) == imported_files(ast.nodes@.subrange(0, i as int)),
            decreases n - i,
        {
            let node = &ast.nodes[i];
            let ghost before = r@;
            proof {
                assert(ast.nodes@.subrange(0, i + 1).drop_last() =~= ast.nodes@.subrange(
                    0,
                    i as int,
                ));
            }
            match &node.absolute_path {
                Some(p) => {
                    if node.node_type == NodeType::ImportDirective {
                        r.push(p.clone());
                        proof {
                            assert(str_views(r@) =~= str_views(before).push(p@));
                        }
                    }
                },
                None => {},
            }
            i = i + 1;
        }
        proof {
            assert(ast.nodes@.subrange(0, n as int) =~= ast.nodes@);
        }
        r
    }

    /// The imported contract that one artifact file yields, without following
    /// that file's own imports.
    pub fn get_contract_artifact_from_file(file: &ArtifactFile) -> (r: Option<ContractFromArtifact>)
        ensures
            imported_view(r) == imported_contract(*file),
    {
        match &file.artifact {
            None => None,
            Some(artifact) => {
                match contract_name(file.path.as_str()) {
                    None => None,
                    Some(name) => match Self::get_contract_bytecode_from_artifact(artifact) {
                        None => None,
                        Some(bytecode) => Some(
                            ContractFromArtifact {
                                name,
                                kind: ContractKind::from(bytecode),
                                artifact_path: file.path.clone(),
                            },
                        ),
                    },
                }
            },
        }
    }

    /// The imported contracts that the imported paths `files` lead to, in the
    /// order of the paths and, for each, of its cache entry.
    fn collect_imported_contracts(
        cache: &BuildCache,
        project_root: &String,
        files: &Vec<String>,
    ) -> (r: Vec<ContractFromArtifact>)
        ensures
            artifact_views(r@) == imports_of(cache.files@, project_root@, str_views(files@)),
    {
        let mut r: Vec<ContractFromArtifact> = Vec::new();
        let n = files.len();
        let mut i: usize = 0;
        while i < n
            invariant
                n == files@.len(),
                i <= n,
                artifact_views(r@) == imports_of(
                    cache.files@,
                    project_root@,
                    str_views(files@).subrange(0, i as int),
                ),
            decreases n - i,
        {
            let ghost paths = str_views(files@);
            let ghost prefix = imports_of(cache.files@, project_root@, paths.subrange(0, i as int));
            proof {
                assert(paths.subrange(0, i + 1).drop_last() =~= paths.subrange(0, i as int));
                assert(paths.subrange(0, i + 1).last() == files@[i as int]@);
            }
            let path = join_path(project_root.as_str(), files[i].as_str());
            match cache.find_entry(&path) {
                None => {
                    proof {
                        assert(prefix + seq![] =~= prefix);
                    }
                },
                Some(e) => {
                    let entry = &cache.files[e];
                    let m = entry.artifacts.len();
                    let mut j: usize = 0;
                    while j < m
                        invariant
                            m == entry.artifacts@.len(),
                            j <= m,
                            artifact_views(r@) == prefix + artifact_contracts(
                                entry.artifacts@.subrange(0, j as int),
                            ),
                        decreases m - j,
                    {
                        let ghost before = r@;
                        proof {
                            assert(entry.artifacts@.subrange(0, j + 1).drop_last()
                                =~= entry.artifacts@.subrange(0, j as int));
                        }
                        match Self::get_contract_artifact_from_file(&entry.artifacts[j]) {
                            Some(c) => {
                                r.push(c);
                                proof {
                                    assert(artifact_views(r@) =~= artifact_views(before).push(c@));
                                }
                            },
                            None => {},
                        }
                        j = j + 1;
                    }
                    proof {
                        assert(entry.artifacts@.subrange(0, m as int) =~= entry.artifacts@);
                    }
                },
            }
            i = i + 1;
        }
        proof {
            assert(str_views(files@).subrange(0, n as int) =~= str_views(files@));
        }
        r
    }

    /// Puts the interfaces first, keeping the order within interfaces and
    /// within the other contracts.
    pub fn order_imported_contracts(v: Vec<ContractFromArtifact>) -> (r: Vec<ContractFromArtifact>)
        ensures
            artifact_views(r@) == interfaces_first_imports(artifact_views(v@)),
    {
        let ghost s = v@;
        let r = interfaces_first(v);
        proof {
            lemma_filter_then_view(s, artifact_view_fn(), item_is_interface(), import_is_interface());
            lemma_filter_then_view(
                s,
                artifact_view_fn(),
                item_is_implementation(),
                import_is_implementation(),
            );
            assert(artifact_views(r@) =~= artifact_views(s.filter(item_is_interface()))
                + artifact_views(s.filter(item_is_implementation())));
        }
        r
    }

    /// Puts the interfaces first, keeping the order within interfaces and
    /// within the other contracts.
    pub fn order_contracts(v: Vec<Contract>) -> (r: Vec<Contract>)
        ensures
            contract_views(r@) == interfaces_first_contracts(contract_views(v@)),
    {
        let ghost s = v@;
        let r = interfaces_first(v);
        proof {
            lemma_filter_then_view(s, contract_view_fn(), item_is_interface(), contract_is_interface());
            lemma_filter_then_view(
                s,
                contract_view_fn(),
                item_is_implementation(),
                contract_is_implementation(),
            );
            assert(contract_views(r@) =~= contract_views(s.filter(item_is_interface()))
                + contract_views(s.filter(item_is_implementation())));
        }
        r
    }

    /// The contract that one artifact file of a source file yields, with its
    /// imported contracts resolved one level deep and ordered interfaces first.
    fn contract_from_artifact_file(
        cache: &BuildCache,
        project_root: &String,
        file: &ArtifactFile,
    ) -> (r: Option<Contract>)
        ensures
            contract_view(r) == contract_from_file(cache.files@, project_root@, *file),
    {
        let artifact = match &file.artifact {
            None => return None,
            Some(a) => a,
        };
        let ast = match &artifact.ast {
            None => return None,
            Some(ast) => ast,
        };
        let name = match file_stem(file.path.as_str()) {
            None => return None,
            Some(name) => name,
        };
        let imported_files = Self::get_imported_files_from_artifact(ast);
        let imported = Self::collect_imported_contracts(cache, project_root, &imported_files);
        let imported_contracts = Self::order_imported_contracts(imported);
        let bytecode = match Self::get_contract_bytecode_from_artifact(artifact) {
            None => return None,
            Some(b) => b,
        };
        Some(
            Contract {
                name,
                kind: ContractKind::from(bytecode),
                version: file.version.clone(),
                imported_contracts,
            },
        )
    }

    /// The contracts of the source file `cache_entry_path`: one for each
    /// artifact file of its cache entry (across compiler versions) that can be
    /// read and holds both bytecode and a syntax tree; none where the cache
    /// has no entry for the file.
    pub fn get_contracts_from_cache(
        solc_cache: &BuildCache,
        project_root: &String,
        cache_entry_path: &String,
    ) -> (r: Vec<Contract>)
        ensures
            contract_views(r@) == cache_contracts(
                solc_cache.files@,
                project_root@,
                cache_entry_path@,
            ),
    {
        let mut contracts: Vec<Contract> = Vec::new();
        match solc_cache.find_entry(cache_entry_path) {
            None => {
                proof {
                    assert(contract_views(contracts@) =~= seq![]);
                }
            },
            Some(e) => {
                let entry = &solc_cache.files[e];
                let ghost f = contracts_of_files(solc_cache.files@, project_root@);
                let m = entry.artifacts.len();
                let mut j: usize = 0;
                proof {
                    assert(contract_views(contracts@) =~= entry.artifacts@.subrange(0, 0).filter_map(f));
                }
                while j < m
                    invariant
                        m == entry.artifacts@.len(),
                        j <= m,
                        f == contracts_of_files(solc_cache.files@, project_root@),
                        contract_views(contracts@) == entry.artifacts@.subrange(0, j as int).filter_map(f),
                    decreases m - j,
                {
                    let ghost before = contracts@;
                    proof {
                        assert(entry.artifacts@.subrange(0, j + 1).drop_last()
                            =~= entry.artifacts@.subrange(0, j as int));
                    }
                    let found = Self::contract_from_artifact_file(
                        solc_cache,
                        project_root,
                        &entry.artifacts[j],
                    );
                    proof {
                        assert(entry.artifacts@.subrange(0, j + 1).last() == entry.artifacts@[j as int]);

                    }
                    match found {
                        Some(c) => {
                            contracts.push(c);
                            proof {
                                assert(contract_views(contracts@) =~= contract_views(before) + seq![c@]);
                            }
                        },
                        None => {},
                    }
                    j = j + 1;
                }
                proof {
                    assert(entry.artifacts@.subrange(0, m as int) =~= entry.artifacts@);
                }
            },
        }
        contracts
    }

    /// All contracts of a project: the contracts of every source file of the
    /// cache, concatenated in the order of the cache and then ordered
    /// interfaces first.
    pub fn get_contracts_from_project(solc_cache: &BuildCache, project_root: &String) -> (r: Vec<Contract>)
        ensures
            contract_views(r@) == project_contracts(solc_cache.files@, project_root@),
    {
        let mut all: Vec<Contract> = Vec::new();
        let n = solc_cache.files.len();
        let mut i: usize = 0;
        proof {
            assert(contract_views(all@) =~= seq![]);
        }
        while i < n
            invariant
                n == solc_cache.files@.len(),
                i <= n,
                contract_views(all@) == contracts_upto(solc_cache.files@, project_root@, i as int),
            decreases n - i,
        {
            let ghost before = all@;
            let mut part = Self::get_contracts_from_cache(
                solc_cache,
                project_root,
                &solc_cache.files[i].source,
            );
            let ghost p = part@;
            all.append(&mut part);
            proof {
                assert(contracts_upto(solc_cache.files@, project_root@, i + 1) == contracts_upto(
                    solc_cache.files@,
                    project_root@,
                    i as int,
                ) + cache_contracts(solc_cache.files@, project_root@, solc_cache.files@[i as int].source@));
                assert(contract_views(all@) =~= contract_views(before) + contract_views(p));
            }
            i = i + 1;
        }
        Self::order_contracts(all)
    }

    /// Merges the contracts of the source files of a project, resolved
    /// separately (in any order of completion) and listed in the order of
    /// the cache, and orders the whole interfaces first.
    pub fn merge_contracts(parts: Vec<Vec<Contract>>) -> (r: Vec<Contract>)
        ensures
            contract_views(r@) == interfaces_first_contracts(concat_parts(parts@)),
    {
        let ghost all_parts = parts@;
        let mut rest = parts;
        let mut all: Vec<Contract> = Vec::new();
        proof {
            assert(contract_views(all@) =~= seq![]);
            assert(all_parts.subrange(0, 0) =~= seq![]);
        }
        while rest.len() > 0
            invariant
                rest@.len() <= all_parts.len(),
                rest@ == all_parts.subrange(all_parts.len() - rest@.len(), all_parts.len() as int),
                contract_views(all@) == concat_parts(
                    all_parts.subrange(0, all_parts.len() - rest@.len()),
                ),
            decreases rest@.len(),
        {
            let ghost k = all_parts.len() - rest@.len();
            let ghost before = all@;
            let ghost old_rest = rest@;
            let mut part = rest.remove(0);
            let ghost p = part@;
            all.append(&mut part);
            proof {
                assert(old_rest[0] == all_parts[k]);
                assert(all_parts.subrange(0, k + 1).drop_last() =~= all_parts.subrange(0, k));
                assert(rest@ =~= all_parts.subrange(k + 1, all_parts.len() as int));
                assert(contract_views(all@) =~= contract_views(before) + contract_views(p));
            }
        }
        proof {
            assert(all_parts.subrange(0, all_parts.len() as int) =~= all_parts);
        }
        Self::order_contracts(all)
    }

}

/// The contracts of every project root that was extracted, concatenated
/// in the order of the roots without further ordering; a root whose
/// extraction failed contributes none.
pub fn find_all_contracts(outcomes: Vec<Result<Vec<Contract>, AppError>>) -> (r: Vec<Contract>)
    ensures
        contract_views(r@) == successful_contracts(outcomes@),
{
    let ghost all_outcomes = outcomes@;
    let ghost n = outcomes@.len();
    let mut rest = outcomes;
    let mut all: Vec<Contract> = Vec::new();
    proof {
        assert(contract_views(all@) =~= seq![]);
        assert(all_outcomes.subrange(0, 0) =~= seq![]);
    }
    while rest.len() > 0
        invariant
            n == all_outcomes.len(),
            rest@.len() <= n,
            rest@ == all_outcomes.subrange(n - rest@.len(), n as int),
            contract_views(all@) == successful_contracts(all_outcomes.subrange(0, n - rest@.len())),
        decreases rest@.len(),
    {
        let ghost k = n - rest@.len();
        let ghost before = all@;
        let ghost old_rest = rest@;
        let outcome = rest.remove(0);
        proof {
            assert(old_rest[0] == all_outcomes[k]);
            assert(all_outcomes.subrange(0, k + 1).drop_last() =~= all_outcomes.subrange(0, k));
            assert(rest@ =~= all_outcomes.subrange(k + 1, n as int));
        }
        match outcome {
            Ok(mut contracts) => {
                let ghost p = contracts@;
                all.append(&mut contracts);
                proof {
                    assert(contract_views(all@) =~= contract_views(before) + contract_views(p));
                }
            },
            Err(_) => {
                proof {
                    assert(contract_views(all@) =~= contract_views(before) + seq![]);
                }
            },
        }
    }
    proof {
        assert(all_outcomes.subrange(0, n as int) =~= all_outcomes);
    }
    all
}

/// A project root whose extraction failed adds no contract to those of the
/// roots before it.
pub proof fn lemma_failed_root_adds_nothing(
    outcomes: Seq<Result<Vec<Contract>, AppError>>,
    error: AppError,
)
    ensures
        successful_contracts(outcomes.push(Err(error))) == successful_contracts(outcomes),
{
    assert(outcomes.push(Err(error)).drop_last() =~= outcomes);
    assert(successful_contracts(outcomes) + Seq::<ContractView>::empty() =~= successful_contracts(
        outcomes,
    ));
}

/// An artifact that lacks both a syntax tree and bytecode yields no
/// contract: a source file whose artifacts are all of that sort (or could not
/// be read) contributes no contract at all.
pub proof fn lemma_bare_artifacts_yield_nothing(
    cache: Seq<CacheEntry>,
    root: Seq<char>,
    path: Seq<char>,
)
    requires
        forall|i: int|
            lookup(cache, path) == Some(i) ==> forall|k: int|
                0 <= k < cache[i].artifacts@.len() ==> match #[trigger] cache[i].artifacts@[k].artifact {
                    Some(a) => a.ast.is_none() && a.bytecode.is_none(),
                    None => true,
                },
    ensures
        cache_contracts(cache, root, path) == Seq::<ContractView>::empty(),
{
    match lookup(cache, path) {
        Some(i) => {
            let files = cache[i].artifacts@;
            let f = contracts_of_files(cache, root);
            assert forall|k: int| 0 <= k <= files.len() implies #[trigger] files.subrange(0, k).filter_map(f)
                =~= Seq::<ContractView>::empty() by {
                lemma_filter_map_none(files, f, k);
            }
            assert(files.subrange(0, files.len() as int) =~= files);
        },
        None => {},
    }
}

proof fn lemma_filter_map_none(
    files: Seq<ArtifactFile>,
    f: spec_fn(ArtifactFile) -> Option<ContractView>,
    k: int,
)
    requires
        0 <= k <= files.len(),
        forall|j: int| 0 <= j < files.len() ==> #[trigger] f(files[j]) == None::<ContractView>,
    ensures
        files.subrange(0, k).filter_map(f) =~= Seq::<ContractView>::empty(),
    decreases k,
{
    if k > 0 {
        assert(files.subrange(0, k).drop_last() =~= files.subrange(0, k - 1));
        lemma_filter_map_none(files, f, k - 1);
    }
}

/// Resolving the source files of a project separately and merging the
/// results gives the same contracts, in the same order, as resolving the
/// project in one pass.
pub proof fn lemma_merge_matches_project(
    cache: Seq<CacheEntry>,
    root: Seq<char>,
    parts: Seq<Vec<Contract>>,
)
    requires
        parts.len() == cache.len(),
        forall|i: int|
            0 <= i < parts.len() ==> contract_views(#[trigger] parts[i]@) == cache_contracts(
                cache,
                root,
                cache[i].source@,
            ),
    ensures
        interfaces_first_contracts(concat_parts(parts)) == project_contracts(cache, root),
{
    lemma_concat_parts_upto(cache, root, parts, parts.len() as int);
    assert(parts.subrange(0, parts.len() as int) =~= parts);
}

proof fn lemma_concat_parts_upto(
    cache: Seq<CacheEntry>,
    root: Seq<char>,
    parts: Seq<Vec<Contract>>,
    k: int,
)
    requires
        0 <= k <= parts.len(),
        parts.len() == cache.len(),
        forall|i: int|
            0 <= i < parts.len() ==> contract_views(#[trigger] parts[i]@) == cache_contracts(
                cache,
                root,
                cache[i].source@,
            ),
    ensures
        concat_parts(parts.subrange(0, k)) == contracts_upto(cache, root, k),
    decreases k,
{
    if k > 0 {
        assert(parts.subrange(0, k).drop_last() =~= parts.subrange(0, k - 1));
        lemma_concat_parts_upto(cache, root, parts, k - 1);
    }
}

/// Contracts ordered interfaces first are sorted under the comparator: no
/// contract compares as less than one placed before it.
pub proof fn lemma_interfaces_first_is_sorted(s: Seq<ContractView>)
    ensures
        forall|i: int, j: int|
            0 <= i < j < interfaces_first_contracts(s).len() ==> kind_order(
                #[trigger] interfaces_first_contracts(s)[j].kind,
                #[trigger] interfaces_first_contracts(s)[i].kind,
            ) != Ordering::Less,
{
    let a = s.filter(contract_is_interface());
    let b = s.filter(contract_is_implementation());
    s.filter_lemma(contract_is_interface());
    s.filter_lemma(contract_is_implementation());
    let r = interfaces_first_contracts(s);
    assert forall|i: int, j: int| 0 <= i < j < r.len() implies kind_order(
        #[trigger] r[j].kind,
        #[trigger] r[i].kind,
    ) != Ordering::Less by {
        if j < a.len() {
            assert(contract_is_interface()(a[j]));
            assert(contract_is_interface()(a[i]));
        } else {
            assert(contract_is_implementation()(b[j - a.len()]));
            assert(r[j] == b[j - a.len()]);
        }
    }
}

/// A file met as an import gets the name and kind that it has where it is
/// resolved as a contract of its own.
pub proof fn lemma_import_matches_contract(cache: Seq<CacheEntry>, root: Seq<char>, f: ArtifactFile)
    requires
        contract_from_file(cache, root, f) is Some,
    ensures
        imported_contract(f) is Some,
        imported_contract(f).unwrap().name == contract_from_file(cache, root, f).unwrap().name,
        imported_contract(f).unwrap().kind == contract_from_file(cache, root, f).unwrap().kind,
{
}

} // verus!
