use c4_crawler::cache::{Artifact, ArtifactFile, Ast, AstNode, BuildCache, CacheEntry, NodeType};
use c4_crawler::contract::{
    compare_kinds, Contract, ContractBytecode, ContractFromArtifact, ContractKind,
};
use c4_crawler::errors::AppError;
use c4_crawler::resolver::{find_all_contracts, ContractResolver};
use semver::Version;
use std::cmp::Ordering;

fn bytecode(s: &str) -> ContractBytecode {
    ContractBytecode::from(s.to_string())
}

fn import(path: &str) -> AstNode {
    AstNode {
        node_type: NodeType::ImportDirective,
        absolute_path: Some(path.to_string()),
    }
}

fn other_node(path: Option<&str>) -> AstNode {
    AstNode {
        node_type: NodeType::Other,
        absolute_path: path.map(|p| p.to_string()),
    }
}

fn artifact_file(version: Version, path: &str, code: Option<&str>, imports: Option<Vec<AstNode>>) -> ArtifactFile {
    ArtifactFile {
        version,
        path: path.to_string(),
        artifact: Some(Artifact {
            bytecode: code.map(bytecode),
            ast: imports.map(|nodes| Ast { nodes }),
        }),
    }
}

fn entry(source: &str, artifacts: Vec<ArtifactFile>) -> CacheEntry {
    CacheEntry {
        source: source.to_string(),
        artifacts,
    }
}

fn v0819() -> Version {
    Version::new(0, 8, 19)
}

/// A.sol imports B.sol (an interface) and C.sol (a contract).
fn sample_cache() -> BuildCache {
    BuildCache {
        files: vec![
            entry(
                "/proj/A.sol",
                vec![artifact_file(
                    v0819(),
                    "/proj/out/A.sol/A.json",
                    Some("0x608060"),
                    Some(vec![import("C.sol"), other_node(None), import("B.sol")]),
                )],
            ),
            entry(
                "/proj/B.sol",
                vec![artifact_file(v0819(), "/proj/out/B.sol/B.json", Some("0x"), Some(vec![]))],
            ),
            entry(
                "/proj/C.sol",
                vec![artifact_file(v0819(), "/proj/out/C.sol/C.json", Some("0x6080ab"), Some(vec![]))],
            ),
        ],
    }
}

fn names_of(contracts: &[Contract]) -> Vec<String> {
    contracts.iter().map(|c| c.name.clone()).collect()
}

fn imported_names(c: &Contract) -> Vec<String> {
    c.imported_contracts.iter().map(|i| i.name.clone()).collect()
}

#[test]
fn classify_empty_marker_is_interface() {
    assert_eq!(ContractKind::from(bytecode("0x")), ContractKind::Interface);
    assert_eq!(Contract::contract_kind("0x"), ContractKind::Interface);
}

#[test]
fn classify_other_bytecode_is_contract() {
    for b in ["0x6080", "", "0", "0x0", "__$unlinked$__placeholder", "0X"] {
        assert_eq!(ContractKind::from(bytecode(b)), ContractKind::Contract(bytecode(b)));
    }
}

#[test]
fn comparator_is_interface_first_and_asymmetric() {
    let i = ContractKind::Interface;
    let c = ContractKind::Contract(bytecode("0x60"));
    let d = ContractKind::Contract(bytecode("0x61"));
    assert_eq!(compare_kinds(&i, &i), Ordering::Equal);
    assert_eq!(compare_kinds(&i, &c), Ordering::Less);
    assert_eq!(compare_kinds(&c, &i), Ordering::Greater);
    assert_eq!(compare_kinds(&c, &d), Ordering::Greater);
    assert_eq!(compare_kinds(&d, &c), Ordering::Greater);
    assert_eq!(compare_kinds(&c, &c), Ordering::Greater);
}

#[test]
fn contract_partial_cmp_follows_comparator() {
    let a = ContractFromArtifact {
        name: "A".to_string(),
        kind: ContractKind::Interface,
        artifact_path: "a".to_string(),
    };
    let b = ContractFromArtifact {
        name: "B".to_string(),
        kind: ContractKind::Contract(bytecode("0x60")),
        artifact_path: "b".to_string(),
    };
    assert_eq!(a.partial_cmp(&b), Some(Ordering::Less));
    assert_eq!(b.partial_cmp(&a), Some(Ordering::Greater));
    assert_eq!(b.partial_cmp(&b), Some(Ordering::Greater));
    assert!(a == a.clone());
    assert!(a != b);
}

#[test]
fn bytecode_abbreviation() {
    assert_eq!(bytecode("0x6080").abbreviated(), "0x6080");
    assert_eq!(bytecode("01234567890123456789").abbreviated(), "01234567890123456789");
    assert_eq!(
        bytecode("0123456789abcdefghijklmnopqrstuvwxyz").abbreviated(),
        "0123456789..qrstuvwxyz"
    );
    assert_eq!(bytecode("0x60").to_string(), "0x60");
}

#[test]
fn imported_files_keep_only_import_directives() {
    let ast = Ast {
        nodes: vec![
            import("src/B.sol"),
            other_node(Some("src/X.sol")),
            AstNode {
                node_type: NodeType::ImportDirective,
                absolute_path: None,
            },
            import("src/C.sol"),
        ],
    };
    assert_eq!(
        ContractResolver::get_imported_files_from_artifact(&ast),
        vec!["src/B.sol".to_string(), "src/C.sol".to_string()]
    );
}

#[test]
fn end_to_end_single_file() {
    let cache = sample_cache();
    let root = "/proj".to_string();
    let contracts = ContractResolver::get_contracts_from_cache(&cache, &root, &"/proj/A.sol".to_string());
    assert_eq!(contracts.len(), 1);
    let a = &contracts[0];
    assert_eq!(a.name, "A");
    assert_eq!(a.kind, ContractKind::Contract(bytecode("0x608060")));
    assert_eq!(a.version, Version::new(0, 8, 19));
    assert_eq!(imported_names(a), vec!["B".to_string(), "C".to_string()]);
    assert_eq!(a.imported_contracts[0].kind, ContractKind::Interface);
    assert_eq!(a.imported_contracts[0].artifact_path, "/proj/out/B.sol/B.json");
    assert_eq!(a.imported_contracts[1].kind, ContractKind::Contract(bytecode("0x6080ab")));
}

#[allow(non_snake_case)]
#[test]
fn test_ContractResolver_get_contracts_from_cache() {
    let cache = sample_cache();
    let root = "/proj".to_string();
    let result = ContractResolver::get_contracts_from_cache(&cache, &root, &"/proj/C.sol".to_string());
    println!("{:#?}", result);
    assert_eq!(names_of(&result), vec!["C".to_string()]);
    assert!(result[0].imported_contracts.is_empty());
    let missing = ContractResolver::get_contracts_from_cache(&cache, &root, &"/proj/Z.sol".to_string());
    assert!(missing.is_empty());
}

#[test]
fn test_get_contracts_from_project() {
    let cache = sample_cache();
    let contracts = ContractResolver::get_contracts_from_project(&cache, &"/proj".to_string());
    for contract in contracts.iter() {
        println!("{:#?}", contract);
    }
    assert_eq!(names_of(&contracts), vec!["B".to_string(), "A".to_string(), "C".to_string()]);
    assert_eq!(contracts[0].kind, ContractKind::Interface);
}

#[test]
fn every_version_of_an_import_is_listed() {
    let mut cache = sample_cache();
    cache.files[2].artifacts.push(artifact_file(
        Version::new(0, 7, 6),
        "/proj/out/C.sol/C.0.7.6.json",
        Some("0x6080cd"),
        Some(vec![]),
    ));
    let contracts = ContractResolver::get_contracts_from_cache(&cache, &"/proj".to_string(), &"/proj/A.sol".to_string());
    let a = &contracts[0];
    assert_eq!(imported_names(a), vec!["B".to_string(), "C".to_string(), "C.0.7.6".to_string()]);
    assert_eq!(a.imported_contracts[2].artifact_path, "/proj/out/C.sol/C.0.7.6.json");
}

#[test]
fn one_contract_per_version() {
    let mut cache = sample_cache();
    cache.files[2].artifacts.push(artifact_file(
        Version::new(0, 7, 6),
        "/proj/out/C.sol/C.0.7.6.json",
        Some("0x"),
        Some(vec![]),
    ));
    let contracts = ContractResolver::get_contracts_from_cache(&cache, &"/proj".to_string(), &"/proj/C.sol".to_string());
    assert_eq!(contracts.len(), 2);
    assert_eq!(contracts[0].version, Version::new(0, 8, 19));
    assert_eq!(contracts[1].version, Version::new(0, 7, 6));
    assert_eq!(contracts[1].kind, ContractKind::Interface);
}

#[test]
fn artifact_without_ast_and_bytecode_yields_nothing() {
    let cache = BuildCache {
        files: vec![entry("/p/D.sol", vec![artifact_file(v0819(), "/p/out/D.sol/D.json", None, None)])],
    };
    let root = "/p".to_string();
    assert!(ContractResolver::get_contracts_from_cache(&cache, &root, &"/p/D.sol".to_string()).is_empty());
    assert!(ContractResolver::get_contracts_from_project(&cache, &root).is_empty());
}

#[test]
fn artifact_missing_one_part_or_unreadable_is_skipped() {
    let no_ast = artifact_file(v0819(), "/p/out/E.sol/E.json", Some("0x60"), None);
    let no_code = artifact_file(v0819(), "/p/out/E.sol/F.json", None, Some(vec![]));
    let unreadable = ArtifactFile {
        version: v0819(),
        path: "/p/out/E.sol/G.json".to_string(),
        artifact: None,
    };
    let good = artifact_file(v0819(), "/p/out/E.sol/H.json", Some("0x60"), Some(vec![]));
    let cache = BuildCache {
        files: vec![entry("/p/E.sol", vec![no_ast, no_code, unreadable, good])],
    };
    let contracts = ContractResolver::get_contracts_from_cache(&cache, &"/p".to_string(), &"/p/E.sol".to_string());
    assert_eq!(names_of(&contracts), vec!["H".to_string()]);
}

#[test]
fn import_of_file_without_bytecode_is_dropped() {
    let cache = BuildCache {
        files: vec![
            entry("/p/A.sol", vec![artifact_file(v0819(), "/p/out/A.json", Some("0x60"), Some(vec![import("B.sol"), import("Missing.sol")]))]),
            entry("/p/B.sol", vec![artifact_file(v0819(), "/p/out/B.json", None, Some(vec![]))]),
        ],
    };
    let contracts = ContractResolver::get_contracts_from_cache(&cache, &"/p".to_string(), &"/p/A.sol".to_string());
    assert_eq!(contracts.len(), 1);
    assert!(contracts[0].imported_contracts.is_empty());
}

#[test]
fn bytecode_of_artifact() {
    let a = Artifact {
        bytecode: Some(bytecode("0x60")),
        ast: None,
    };
    assert_eq!(ContractResolver::get_contract_bytecode_from_artifact(&a), Some(bytecode("0x60")));
    let b = Artifact { bytecode: None, ast: None };
    assert_eq!(ContractResolver::get_contract_bytecode_from_artifact(&b), None);
}

#[test]
fn imported_contract_from_file() {
    let f = artifact_file(v0819(), "/p/out/Token.sol/Token.json", Some("0x"), None);
    let c = ContractResolver::get_contract_artifact_from_file(&f).unwrap();
    assert_eq!(c.name, "Token");
    assert_eq!(c.kind, ContractKind::Interface);
    assert_eq!(c.artifact_path, "/p/out/Token.sol/Token.json");
    let unreadable = ArtifactFile {
        version: v0819(),
        path: "/p/out/X.json".to_string(),
        artifact: None,
    };
    assert!(ContractResolver::get_contract_artifact_from_file(&unreadable).is_none());
}

#[test]
fn ordering_keeps_order_within_groups() {
    let mk = |name: &str, code: &str| ContractFromArtifact {
        name: name.to_string(),
        kind: ContractKind::from(bytecode(code)),
        artifact_path: name.to_string(),
    };
    let v = vec![mk("c1", "0x1"), mk("i1", "0x"), mk("c2", "0x2"), mk("i2", "0x")];
    let r = ContractResolver::order_imported_contracts(v);
    let names: Vec<&str> = r.iter().map(|c| c.name.as_str()).collect();
    assert_eq!(names, vec!["i1", "i2", "c1", "c2"]);
    assert!(ContractResolver::order_imported_contracts(vec![]).is_empty());
}

#[test]
fn merged_parts_match_one_pass() {
    let cache = sample_cache();
    let root = "/proj".to_string();
    let parts: Vec<Vec<Contract>> = cache
        .files
        .iter()
        .map(|e| ContractResolver::get_contracts_from_cache(&cache, &root, &e.source))
        .collect();
    let merged = ContractResolver::merge_contracts(parts);
    let direct = ContractResolver::get_contracts_from_project(&cache, &root);
    assert_eq!(names_of(&merged), names_of(&direct));
}

#[test]
fn test_find_all_contracts() {
    let cache = sample_cache();
    let first = ContractResolver::get_contracts_from_project(&cache, &"/proj".to_string());
    let outcomes = vec![
        Ok(first),
        Err(AppError::ProjectCompileError("boom".to_string())),
        Ok(vec![]),
    ];
    let contracts = find_all_contracts(outcomes);
    assert!(contracts.len() > 0);
    assert_eq!(names_of(&contracts), vec!["B".to_string(), "A".to_string(), "C".to_string()]);
}

#[test]
fn failed_root_contributes_no_contracts() {
    let outcomes: Vec<Result<Vec<Contract>, AppError>> =
        vec![Err(AppError::ProjectCompileError("error: compiler failed".to_string()))];
    assert!(find_all_contracts(outcomes).is_empty());
}
