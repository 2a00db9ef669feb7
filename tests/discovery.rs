use c4_crawler::config::{FoundryConfig, FoundryConfigProfile, FoundryConfigProfileDefault, ProjectResolver};
use c4_crawler::project::{find_all_project_roots, is_ignored_dir, is_marker_file, DirEntry, ProjectType};

fn file(path: &str) -> DirEntry {
    DirEntry {
        components: path.split('/').map(|s| s.to_string()).collect(),
        is_file: true,
    }
}

fn dir(path: &str) -> DirEntry {
    DirEntry {
        components: path.split('/').map(|s| s.to_string()).collect(),
        is_file: false,
    }
}

fn roots(entries: Vec<DirEntry>) -> Vec<String> {
    find_all_project_roots(&entries)
        .into_iter()
        .map(|r| r.join("/"))
        .collect()
}

fn names(list: &[&str]) -> Vec<String> {
    list.iter().map(|s| s.to_string()).collect()
}

#[test]
fn monorepo_skips_vendored_descriptor() {
    let entries = vec![
        dir("projA"),
        file("projA/foundry.toml"),
        dir("projA/lib"),
        file("projA/lib/vendor/foundry.toml"),
    ];
    assert_eq!(roots(entries), vec!["projA".to_string()]);
}

#[test]
fn descriptor_in_ignored_directory_is_not_a_root() {
    let entries = vec![
        file("lib/foundry.toml"),
        file("libs/hardhat.config.js"),
        file("node_modules/truffle-config.js"),
        file("app/hardhat.config.ts"),
    ];
    assert_eq!(roots(entries), vec!["app".to_string()]);
}

#[test]
fn directory_with_several_markers_appears_once() {
    let entries = vec![
        file("foundry.toml"),
        file("hardhat.config.js"),
        file("hardhat.config.ts"),
        file("pkg/truffle-config.js"),
        file("pkg/foundry.toml"),
    ];
    assert_eq!(roots(entries), vec!["".to_string(), "pkg".to_string()]);
}

#[test]
fn deeper_descriptors_and_directories_are_ignored() {
    let entries = vec![
        file("a/b/foundry.toml"),
        dir("c/foundry.toml"),
        file("README.md"),
    ];
    assert!(roots(entries).is_empty());
    assert!(roots(vec![]).is_empty());
}

#[test]
fn marker_and_ignored_names() {
    assert!(is_marker_file(&"foundry.toml".to_string()));
    assert!(is_marker_file(&"truffle-config.js".to_string()));
    assert!(!is_marker_file(&"foundry.toml.bak".to_string()));
    assert!(is_ignored_dir(&"node_modules".to_string()));
    assert!(!is_ignored_dir(&"src".to_string()));
}

#[test]
fn project_type_by_priority() {
    assert_eq!(
        ProjectType::from_repo_dir(&names(&["hardhat.config.ts", "foundry.toml"])),
        ProjectType::Foundry
    );
    assert_eq!(
        ProjectType::from_repo_dir(&names(&["package.json", "hardhat.config.js", "truffle-config.js"])),
        ProjectType::Hardhat
    );
    assert_eq!(ProjectType::from_repo_dir(&names(&["truffle-config.js"])), ProjectType::Truffle);
    assert_eq!(ProjectType::from_repo_dir(&names(&["README.md"])), ProjectType::Unknown);
    assert_eq!(ProjectType::from_repo_dir(&vec![]), ProjectType::Unknown);
}

fn config(default: FoundryConfigProfileDefault) -> FoundryConfig {
    FoundryConfig {
        profile: FoundryConfigProfile { default },
    }
}

#[test]
fn layout_from_full_descriptor() {
    let c = config(FoundryConfigProfileDefault {
        src: Some("contracts".to_string()),
        libs: Some(names(&["lib", "node_modules"])),
        test: Some("test".to_string()),
        cache_path: Some("cache".to_string()),
        out: Some("artifacts".to_string()),
    });
    let layout = ProjectResolver::parse_foundry_config(&"/repo/p".to_string(), &c);
    assert_eq!(layout.root, "/repo/p");
    assert_eq!(layout.sources, Some("/repo/p/contracts".to_string()));
    assert_eq!(layout.libs, Some(names(&["/repo/p/lib", "/repo/p/node_modules"])));
    assert_eq!(layout.tests, Some("/repo/p/test".to_string()));
    assert_eq!(layout.cache, "/repo/p/cache/solidity-files-cache.json");
    assert_eq!(layout.artifacts, "/repo/p/artifacts");
}

#[test]
fn layout_defaults() {
    let c = config(FoundryConfigProfileDefault {
        src: None,
        libs: None,
        test: None,
        cache_path: None,
        out: None,
    });
    let layout = ProjectResolver::parse_foundry_config(&"/repo".to_string(), &c);
    assert_eq!(layout.sources, None);
    assert_eq!(layout.libs, None);
    assert_eq!(layout.tests, None);
    assert_eq!(layout.artifacts, "/repo/out");
    assert_eq!(layout.cache, "/repo/out/solidity-files-cache.json");
}

#[test]
fn test_project_resolver_parse() {
    let entries = vec![
        file("foundry.toml"),
        file("src/Token.sol"),
        file("sub/hardhat.config.ts"),
        file("sub/package.json"),
    ];
    let found = find_all_project_roots(&entries);
    assert_eq!(found.len(), 2);
    let mut kinds = vec![];
    for root in found.iter() {
        let listing: Vec<String> = entries
            .iter()
            .filter(|e| e.components.len() == root.len() + 1 && e.components[..root.len()] == root[..])
            .map(|e| e.components[root.len()].clone())
            .collect();
        kinds.push(ProjectType::from_repo_dir(&listing));
    }
    println!("{:#?}", kinds);
    assert_eq!(kinds, vec![ProjectType::Foundry, ProjectType::Hardhat]);
}

#[test]
fn default_cache_follows_artifacts_directory() {
    let c = config(FoundryConfigProfileDefault {
        src: None,
        libs: None,
        test: None,
        cache_path: None,
        out: Some("build".to_string()),
    });
    let layout = ProjectResolver::parse_foundry_config(&"/repo".to_string(), &c);
    assert_eq!(layout.artifacts, "/repo/build");
    assert_eq!(layout.cache, "/repo/build/solidity-files-cache.json");
}

#[test]
fn roots_come_in_walk_order() {
    let entries = vec![
        file("zeta/foundry.toml"),
        file("alpha/hardhat.config.js"),
        file("zeta/hardhat.config.ts"),
        file("mid/truffle-config.js"),
    ];
    let expected = vec!["zeta".to_string(), "alpha".to_string(), "mid".to_string()];
    assert_eq!(roots(entries.clone()), expected);
    assert_eq!(roots(entries), expected);
}
