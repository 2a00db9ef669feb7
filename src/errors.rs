use crate::project::ProjectType;
use vstd::prelude::*;

verus! {

/// Why the extraction of a project root failed.
#[derive(Debug, Clone)]
pub enum AppError {
    /// A dependency-installation command exited unsuccessfully; holds its
    /// standard-error text.
    ResolveDependenciesError(String),
    /// The compile command exited unsuccessfully; holds its standard-error
    /// text.
    ProjectCompileError(String),
    /// The build tool of the root is not supported; nothing was run.
    UnsupportedProjectType(ProjectType),
    /// The Foundry descriptor is missing or cannot be parsed.
    ParseFoundryConfigError(String),
    /// The Hardhat configuration file is missing.
    ParseHardhatConfigError(String),
    ContractError(ContractError),
    /// The build cache or another compiler file could not be read.
    SolcError(String),
    /// A file of the project could not be read or written.
    StdIoError(String),
    UnknownError(String),
}

/// Failures concerning a single contract.
#[derive(Debug, Clone)]
pub enum ContractError {
    InvalidBytecode(String),
    ContractNotFound(String),
    ContractNameNotFound(String),
    ContractBuilderError(String),
}

/// The mathematical value of an [`AppError`].
pub enum ErrorView {
    ResolveDependenciesError(Seq<char>),
    ProjectCompileError(Seq<char>),
    UnsupportedProjectType(ProjectType),
    ParseFoundryConfigError(Seq<char>),
    ParseHardhatConfigError(Seq<char>),
    ContractError(ContractErrorView),
    SolcError(Seq<char>),
    StdIoError(Seq<char>),
    UnknownError(Seq<char>),
}

/// The mathematical value of a [`ContractError`].
pub enum ContractErrorView {
    InvalidBytecode(Seq<char>),
    ContractNotFound(Seq<char>),
    ContractNameNotFound(Seq<char>),
    ContractBuilderError(Seq<char>),
}

impl View for ContractError {
    type V = ContractErrorView;

    open spec fn view(&self) -> ContractErrorView {
        match self {
            ContractError::InvalidBytecode(s) => ContractErrorView::InvalidBytecode(s@),
            ContractError::ContractNotFound(s) => ContractErrorView::ContractNotFound(s@),
            ContractError::ContractNameNotFound(s) => ContractErrorView::ContractNameNotFound(s@),
            ContractError::ContractBuilderError(s) => ContractErrorView::ContractBuilderError(s@),
        }
    }
}

impl View for AppError {
    type V = ErrorView;

    open spec fn view(&self) -> ErrorView {
        match self {
            AppError::ResolveDependenciesError(s) => ErrorView::ResolveDependenciesError(s@),
            AppError::ProjectCompileError(s) => ErrorView::ProjectCompileError(s@),
            AppError::UnsupportedProjectType(t) => ErrorView::UnsupportedProjectType(*t),
            AppError::ParseFoundryConfigError(s) => ErrorView::ParseFoundryConfigError(s@),
            AppError::ParseHardhatConfigError(s) => ErrorView::ParseHardhatConfigError(s@),
            AppError::ContractError(e) => ErrorView::ContractError(e@),
            AppError::SolcError(s) => ErrorView::SolcError(s@),
            AppError::StdIoError(s) => ErrorView::StdIoError(s@),
            AppError::UnknownError(s) => ErrorView::UnknownError(s@),
        }
    }
}

} // verus!
