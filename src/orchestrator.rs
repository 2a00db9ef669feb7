use crate::config::ProjectResolver;
use crate::errors::{AppError, ErrorView};
use crate::project::ProjectType;
use crate::text::{str_eq, str_views};
use vstd::prelude::*;

verus! {

/// The Hardhat configuration file of a project, by language.
#[derive(Debug, Clone, Copy, PartialEq, Eq, Structural)]
pub enum HardhatConfigFile {
    TypeScript,
    JavaScript,
}

/// One step of preparing and compiling a project root.
#[derive(Debug, Clone, Copy, PartialEq, Eq, Structural)]
pub enum BuildStep {
    /// Install the package dependencies (`npm install`).
    InstallDependencies,
    /// Install the Foundry-compatibility package for Hardhat.
    InstallFoundryCompat,
    /// Replace the first line of the Hardhat configuration file with the
    /// statement that loads the compatibility package.
    PatchHardhatConfig(HardhatConfigFile),
    /// Generate a Foundry descriptor from the Hardhat project.
    InitFoundry,
    /// Compile the project (`forge build`).
    Compile,
}

/// How the step just performed ended.
#[derive(Debug, Clone)]
pub enum StepOutcome {
    Succeeded,
    /// The step failed; holds the standard-error text of its command, or the
    /// reason the file could not be rewritten.
    Failed(String),
}

/// What is on disk in the project root when the next step is chosen.
#[derive(Debug, Clone, Copy, PartialEq, Eq, Structural)]
pub struct ProjectFiles {
    pub has_foundry_descriptor: bool,
    pub has_hardhat_ts_config: bool,
    pub has_hardhat_js_config: bool,
}

/// An external command: a program and its arguments, run in the project root.
#[derive(Debug, Clone)]
pub struct BuildCommand {
    pub program: String,
    pub args: Vec<String>,
}

/// The error that a failed step reports, carrying its text.
pub open spec fn step_error(step: BuildStep, message: Seq<char>) -> ErrorView {
    match step {
        BuildStep::Compile => ErrorView::ProjectCompileError(message),
        BuildStep::PatchHardhatConfig(_) => ErrorView::StdIoError(message),
        _ => ErrorView::ResolveDependenciesError(message),
    }
}

/// The Hardhat configuration file of a project: the TypeScript one where
/// there is one, else the JavaScript one; a project with neither is refused.
pub open spec fn hardhat_config_of(files: ProjectFiles) -> Result<HardhatConfigFile, ErrorView> {
    if files.has_hardhat_ts_config {
        Ok(HardhatConfigFile::TypeScript)
    } else if files.has_hardhat_js_config {
        Ok(HardhatConfigFile::JavaScript)
    } else {
        Err(ErrorView::ParseHardhatConfigError("Missing hardhat config"@))
    }
}

/// The step that follows `last` (the first step where `last` is `None`)
/// once it has succeeded: `Ok(None)` when the project is built.
pub open spec fn following_step(
    project_type: ProjectType,
    last: Option<BuildStep>,
    files: ProjectFiles,
) -> Result<Option<BuildStep>, ErrorView> {
    match last {
        None => match project_type {
            ProjectType::Foundry => Ok(Some(BuildStep::Compile)),
            ProjectType::Hardhat => Ok(Some(BuildStep::InstallDependencies)),
            _ => Err(ErrorView::UnsupportedProjectType(project_type)),
        },
        Some(BuildStep::InstallDependencies) => if files.has_foundry_descriptor {
            Ok(Some(BuildStep::Compile))
        } else {
            Ok(Some(BuildStep::InstallFoundryCompat))
        },
        Some(BuildStep::InstallFoundryCompat) => match hardhat_config_of(files) {
            Ok(config) => Ok(Some(BuildStep::PatchHardhatConfig(config))),
            Err(e) => Err(e),
        },
        Some(BuildStep::PatchHardhatConfig(_)) => Ok(Some(BuildStep::InitFoundry)),
        Some(BuildStep::InitFoundry) => Ok(Some(BuildStep::Compile)),
        Some(BuildStep::Compile) => Ok(None),
    }
}

/// What comes after the step `last` ended with `outcome`: its error where it
/// failed, else the following step.
pub open spec fn advance(
    project_type: ProjectType,
    last: Option<BuildStep>,
    outcome: StepOutcome,
    files: ProjectFiles,
) -> Result<Option<BuildStep>, ErrorView> {
    match (last, outcome) {
        (Some(step), StepOutcome::Failed(m)) => Err(step_error(step, m@)),
        _ => following_step(project_type, last, files),
    }
}

/// The view of a step decision.
pub open spec fn decision_view(r: Result<Option<BuildStep>, AppError>) -> Result<Option<BuildStep>, ErrorView> {
    match r {
        Ok(s) => Ok(s),
        Err(e) => Err(e@),
    }
}

/// The command that a step runs: `None` for the rewrite of the configuration
/// file, which runs no command.
pub open spec fn command_of(step: BuildStep) -> Option<(Seq<char>, Seq<Seq<char>>)> {
    match step {
        BuildStep::InstallDependencies => Some(("npm"@, seq!["install"@])),
        BuildStep::InstallFoundryCompat => Some(
            ("npm"@, seq!["install"@, "--save-dev"@, "@nomicfoundation/hardhat-foundry"@]),
        ),
        BuildStep::PatchHardhatConfig(_) => None,
        BuildStep::InitFoundry => Some(("npx"@, seq!["hardhat"@, "init-foundry"@])),
        BuildStep::Compile => Some(("forge"@, seq!["build"@])),
    }
}

/// The statement that loads the compatibility package, in the language of
/// the configuration file.
pub open spec fn import_line_of(config: HardhatConfigFile) -> Seq<char> {
    match config {
        HardhatConfigFile::TypeScript => "import \"@nomicfoundation/hardhat-foundry\";"@,
        HardhatConfigFile::JavaScript => "require(\"@nomicfoundation/hardhat-foundry\");"@,
    }
}

/// Chooses what comes after the step `last` (`None` before the first step)
/// ended with `outcome`, given what is on disk now. A failed step stops the
/// build with its error: a failed compile is a `ProjectCompileError`, a failed
/// installation a `ResolveDependenciesError`, each carrying the
/// standard-error text. Roots of an unsupported type fail before any step.
pub fn next_step(
    project_type: ProjectType,
    last: Option<BuildStep>,
    outcome: StepOutcome,
    files: ProjectFiles,
) -> (r: Result<Option<BuildStep>, AppError>)
    ensures
        decision_view(r) == advance(project_type, last, outcome, files),
{
    match (last, outcome) {
        (Some(step), StepOutcome::Failed(m)) => {
            return Err(
                match step {
                    BuildStep::Compile => AppError::ProjectCompileError(m),
                    BuildStep::PatchHardhatConfig(_) => AppError::StdIoError(m),
                    _ => AppError::ResolveDependenciesError(m),
                },
            );
        },
        _ => {},
    }
    match last {
        None => match project_type {
            ProjectType::Foundry => Ok(Some(BuildStep::Compile)),
            ProjectType::Hardhat => Ok(Some(BuildStep::InstallDependencies)),
            _ => Err(AppError::UnsupportedProjectType(project_type)),
        },
        Some(BuildStep::InstallDependencies) => if files.has_foundry_descriptor {
            Ok(Some(BuildStep::Compile))
        } else {
            Ok(Some(BuildStep::InstallFoundryCompat))
        },
        Some(BuildStep::InstallFoundryCompat) => match ProjectResolver::parse_hardhat_config(&files) {
            Ok(config) => Ok(Some(BuildStep::PatchHardhatConfig(config))),
            Err(e) => Err(e),
        },
        Some(BuildStep::PatchHardhatConfig(_)) => Ok(Some(BuildStep::InitFoundry)),
        Some(BuildStep::InitFoundry) => Ok(Some(BuildStep::Compile)),
        Some(BuildStep::Compile) => Ok(None),
    }
}

fn strings(parts: &[&str]) -> (r: Vec<String>)
    ensures
        r@.len() == parts@.len(),
        forall|i: int| 0 <= i < parts@.len() ==> #[trigger] r@[i]@ == parts@[i]@,
{
    let mut r: Vec<String> = Vec::new();
    let mut i: usize = 0;
    while i < parts.len()
        invariant
            i <= parts@.len(),
            r@.len() == i,
            forall|k: int| 0 <= k < i ==> #[trigger] r@[k]@ == parts@[k]@,
        decreases parts@.len() - i,
    {
        r.push(String::from_str(parts[i]));
        i = i + 1;
    }
    r
}

/// The command that a step runs, if any.
pub fn step_command(step: BuildStep) -> (r: Option<BuildCommand>)
    ensures
        match r {
            Some(c) => command_of(step) == Some((c.program@, str_views(c.args@))),
            None => command_of(step) == None::<(Seq<char>, Seq<Seq<char>>)>,
        },
{
    let (program, args): (&str, Vec<String>) = match step {
        BuildStep::InstallDependencies => ("npm", strings(&["install"])),
        BuildStep::InstallFoundryCompat => (
            "npm",
            strings(&["install", "--save-dev", "@nomicfoundation/hardhat-foundry"]),
        ),
        BuildStep::PatchHardhatConfig(_) => {
            return None;
        },
        BuildStep::InitFoundry => ("npx", strings(&["hardhat", "init-foundry"])),
        BuildStep::Compile => ("forge", strings(&["build"])),
    };
    let c = BuildCommand { program: String::from_str(program), args };
    proof {
        assert(str_views(c.args@) =~= command_of(step).unwrap().1);
    }
    Some(c)
}

/// The statement that loads the compatibility package, written over the
/// first line of the configuration file.
pub fn config_import_line(config: HardhatConfigFile) -> (r: String)
    ensures
        r@ == import_line_of(config),
{
    match config {
        HardhatConfigFile::TypeScript => String::from_str(
            "import \"@nomicfoundation/hardhat-foundry\";",
        ),
        HardhatConfigFile::JavaScript => String::from_str(
            "require(\"@nomicfoundation/hardhat-foundry\");",
        ),
    }
}

/// Whether one of `names` is `name`.
fn has_name(names: &Vec<String>, name: &str) -> (r: bool)
    ensures
        r == exists|i: int| 0 <= i < names@.len() && #[trigger] names@[i]@ == name@,
{
    let mut i: usize = 0;
    while i < names.len()
        invariant
            i <= names@.len(),
            forall|k: int| 0 <= k < i ==> #[trigger] names@[k]@ != name@,
        decreases names@.len() - i,
    {
        if str_eq(names[i].as_str(), name) {
            return true;
        }
        i = i + 1;
    }
    false
}

/// The name of the Hardhat configuration file in a given language.
pub open spec fn config_file_of(config: HardhatConfigFile) -> Seq<char> {
    match config {
        HardhatConfigFile::TypeScript => "hardhat.config.ts"@,
        HardhatConfigFile::JavaScript => "hardhat.config.js"@,
    }
}

/// The name of the Hardhat configuration file in a given language.
pub fn config_file_name(config: HardhatConfigFile) -> (r: String)
    ensures
        r@ == config_file_of(config),
{
    match config {
        HardhatConfigFile::TypeScript => String::from_str("hardhat.config.ts"),
        HardhatConfigFile::JavaScript => String::from_str("hardhat.config.js"),
    }
}

impl ProjectFiles {
    /// What a project root holds, given the names of the files directly
    /// inside it.
    pub fn from_file_names(names: &Vec<String>) -> (r: ProjectFiles)
        ensures
            r.has_foundry_descriptor == exists|i: int|
                0 <= i < names@.len() && #[trigger] names@[i]@ == "foundry.toml"@,
            r.has_hardhat_ts_config == exists|i: int|
                0 <= i < names@.len() && #[trigger] names@[i]@ == config_file_of(
                    HardhatConfigFile::TypeScript,
                ),
            r.has_hardhat_js_config == exists|i: int|
                0 <= i < names@.len() && #[trigger] names@[i]@ == config_file_of(
                    HardhatConfigFile::JavaScript,
                ),
    {
        ProjectFiles {
            has_foundry_descriptor: has_name(names, "foundry.toml"),
            has_hardhat_ts_config: has_name(names, "hardhat.config.ts"),
            has_hardhat_js_config: has_name(names, "hardhat.config.js"),
        }
    }
}

/// A compile step that fails, for a Hardhat project or any other, stops the
/// build with a `ProjectCompileError` carrying the standard-error text.
pub proof fn lemma_failed_compile_reports_stderr(
    project_type: ProjectType,
    stderr: String,
    files: ProjectFiles,
)
    ensures
        advance(project_type, Some(BuildStep::Compile), StepOutcome::Failed(stderr), files) == Err::<
            Option<BuildStep>,
            ErrorView,
        >(ErrorView::ProjectCompileError(stderr@)),
{
}

} // verus!
