use c4_crawler::errors::AppError;
use c4_crawler::orchestrator::{
    config_file_name, config_import_line, next_step, step_command, BuildStep, HardhatConfigFile, ProjectFiles,
    StepOutcome,
};
use c4_crawler::config::ProjectResolver;
use c4_crawler::project::ProjectType;
use c4_crawler::text::replace_first_line;

fn files(foundry: bool, ts: bool, js: bool) -> ProjectFiles {
    ProjectFiles {
        has_foundry_descriptor: foundry,
        has_hardhat_ts_config: ts,
        has_hardhat_js_config: js,
    }
}

/// Runs the step machine with every step succeeding, returning the steps.
fn plan(project_type: ProjectType, f: ProjectFiles) -> Result<Vec<BuildStep>, AppError> {
    let mut steps = vec![];
    let mut last = None;
    loop {
        match next_step(project_type, last, StepOutcome::Succeeded, f)? {
            Some(s) => {
                steps.push(s);
                last = Some(s);
            }
            None => return Ok(steps),
        }
    }
}

#[test]
fn test_resolve_dependencies() {
    let steps = plan(ProjectType::Hardhat, files(false, true, false)).unwrap();
    assert_eq!(
        steps,
        vec![
            BuildStep::InstallDependencies,
            BuildStep::InstallFoundryCompat,
            BuildStep::PatchHardhatConfig(HardhatConfigFile::TypeScript),
            BuildStep::InitFoundry,
            BuildStep::Compile,
        ]
    );
    let js = plan(ProjectType::Hardhat, files(false, false, true)).unwrap();
    assert_eq!(js[2], BuildStep::PatchHardhatConfig(HardhatConfigFile::JavaScript));
}

#[test]
fn test_compile_project() {
    assert_eq!(plan(ProjectType::Foundry, files(true, false, false)).unwrap(), vec![BuildStep::Compile]);
    assert_eq!(
        plan(ProjectType::Hardhat, files(true, true, false)).unwrap(),
        vec![BuildStep::InstallDependencies, BuildStep::Compile]
    );
    let c = step_command(BuildStep::Compile).unwrap();
    assert_eq!(c.program, "forge");
    assert_eq!(c.args, vec!["build".to_string()]);
}

#[test]
fn unsupported_types_fail_before_any_step() {
    for t in [ProjectType::Truffle, ProjectType::Unknown] {
        match next_step(t, None, StepOutcome::Succeeded, files(false, false, false)) {
            Err(AppError::UnsupportedProjectType(u)) => assert_eq!(u, t),
            other => panic!("unexpected {:?}", other),
        }
    }
}

#[test]
fn hardhat_compile_failure_carries_stderr() {
    let r = next_step(
        ProjectType::Hardhat,
        Some(BuildStep::Compile),
        StepOutcome::Failed("Error: compilation failed".to_string()),
        files(true, true, false),
    );
    match r {
        Err(AppError::ProjectCompileError(m)) => assert_eq!(m, "Error: compilation failed"),
        other => panic!("unexpected {:?}", other),
    }
}

#[test]
fn install_failure_is_dependency_error() {
    for step in [BuildStep::InstallDependencies, BuildStep::InstallFoundryCompat, BuildStep::InitFoundry] {
        match next_step(ProjectType::Hardhat, Some(step), StepOutcome::Failed("npm ERR!".to_string()), files(false, true, false)) {
            Err(AppError::ResolveDependenciesError(m)) => assert_eq!(m, "npm ERR!"),
            other => panic!("unexpected {:?}", other),
        }
    }
    match next_step(
        ProjectType::Hardhat,
        Some(BuildStep::PatchHardhatConfig(HardhatConfigFile::JavaScript)),
        StepOutcome::Failed("permission denied".to_string()),
        files(false, false, true),
    ) {
        Err(AppError::StdIoError(m)) => assert_eq!(m, "permission denied"),
        other => panic!("unexpected {:?}", other),
    }
}

#[test]
fn missing_hardhat_config_is_reported() {
    match next_step(
        ProjectType::Hardhat,
        Some(BuildStep::InstallFoundryCompat),
        StepOutcome::Succeeded,
        files(false, false, false),
    ) {
        Err(AppError::ParseHardhatConfigError(m)) => assert_eq!(m, "Missing hardhat config"),
        other => panic!("unexpected {:?}", other),
    }
}

#[test]
fn commands_of_steps() {
    let c = step_command(BuildStep::InstallFoundryCompat).unwrap();
    assert_eq!(c.program, "npm");
    assert_eq!(c.args, vec!["install", "--save-dev", "@nomicfoundation/hardhat-foundry"]);
    let c = step_command(BuildStep::InitFoundry).unwrap();
    assert_eq!(c.program, "npx");
    assert_eq!(c.args, vec!["hardhat", "init-foundry"]);
    assert_eq!(step_command(BuildStep::InstallDependencies).unwrap().args, vec!["install"]);
    assert!(step_command(BuildStep::PatchHardhatConfig(HardhatConfigFile::TypeScript)).is_none());
}

#[test]
fn first_line_is_replaced() {
    let line = config_import_line(HardhatConfigFile::TypeScript);
    assert_eq!(line, "import \"@nomicfoundation/hardhat-foundry\";");
    assert_eq!(
        config_import_line(HardhatConfigFile::JavaScript),
        "require(\"@nomicfoundation/hardhat-foundry\");"
    );
    assert_eq!(
        replace_first_line("import x;\r\nconst a = 1;\nexport default a;\n", &line),
        "import \"@nomicfoundation/hardhat-foundry\";\nconst a = 1;\nexport default a;"
    );
    assert_eq!(replace_first_line("only", "new"), "new");
    assert_eq!(replace_first_line("", "new"), "");
}

#[test]
fn project_files_from_listing() {
    let names: Vec<String> = ["package.json", "hardhat.config.js", "foundry.toml"]
        .iter()
        .map(|s| s.to_string())
        .collect();
    assert_eq!(ProjectFiles::from_file_names(&names), files(true, false, true));
    assert_eq!(ProjectFiles::from_file_names(&vec!["hardhat.config.ts".to_string()]), files(false, true, false));
    assert_eq!(ProjectFiles::from_file_names(&vec![]), files(false, false, false));
    assert_eq!(config_file_name(HardhatConfigFile::TypeScript), "hardhat.config.ts");
    assert_eq!(config_file_name(HardhatConfigFile::JavaScript), "hardhat.config.js");
}

#[test]
fn hardhat_config_choice() {
    assert_eq!(
        ProjectResolver::parse_hardhat_config(&files(false, true, true)).unwrap(),
        HardhatConfigFile::TypeScript
    );
    assert_eq!(
        ProjectResolver::parse_hardhat_config(&files(true, false, true)).unwrap(),
        HardhatConfigFile::JavaScript
    );
    match ProjectResolver::parse_hardhat_config(&files(true, false, false)) {
        Err(AppError::ParseHardhatConfigError(m)) => assert_eq!(m, "Missing hardhat config"),
        other => panic!("unexpected {:?}", other),
    }
}

#[test]
fn line_endings_when_replacing_first_line() {
    assert_eq!(replace_first_line("x\r\na\r", "n"), "n\na\r");
    assert_eq!(replace_first_line("x\n\n", "n"), "n\n");
    assert_eq!(replace_first_line("\n", "n"), "n");
    assert_eq!(replace_first_line("x\ny\r\nz\n", "n"), "n\ny\nz");
}
