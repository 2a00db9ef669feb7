use crate::contract::{contract_views, Contract, ContractView};
use crate::paths::{file_name, file_name_of, join_path, joined, opt_view};
use vstd::prelude::*;

verus! {

/// Where a contest stands.
#[derive(Debug, Clone, Copy, PartialEq, Eq, Structural)]
pub enum ContestStatus {
    Ongoing,
    Upcoming,
}

/// An audit contest and the contracts found in its repository.
#[derive(Debug, Clone)]
pub struct Contest {
    pub name: String,
    pub description: String,
    pub uri: String,
    pub repo_uri: Option<String>,
    pub status: ContestStatus,
    pub contracts: Vec<Contract>,
}

pub struct ContestView {
    pub name: Seq<char>,
    pub description: Seq<char>,
    pub uri: Seq<char>,
    pub repo_uri: Option<Seq<char>>,
    pub status: ContestStatus,
    pub contracts: Seq<ContractView>,
}

impl View for Contest {
    type V = ContestView;

    open spec fn view(&self) -> ContestView {
        ContestView {
            name: self.name@,
            description: self.description@,
            uri: self.uri@,
            repo_uri: opt_view(self.repo_uri),
            status: self.status,
            contracts: contract_views(self.contracts@),
        }
    }
}

/// The location of a contest's source repository.
#[derive(Debug, Clone)]
pub struct RepoUri(pub String);

impl From<String> for RepoUri {
    fn from(value: String) -> (r: RepoUri) {
        RepoUri(value)
    }
}

impl vstd::std_specs::convert::FromSpecImpl<String> for RepoUri {
    open spec fn obeys_from_spec() -> bool {
        true
    }

    open spec fn from_spec(v: String) -> RepoUri {
        RepoUri(v)
    }
}

impl RepoUri {

    /// The name of the directory that a clone of the repository gets: the
    /// last component of its location, if it has one.
    pub fn to_dir_name(&self) -> (r: Option<String>)
        ensures
            opt_view(r) == file_name_of(self.0@),
    {
        file_name(self.0.as_str())
    }
}

/// The directory under `base` into which the repository at `repo_uri` is
/// cloned: `base/contests/<name>`, where the location has a last component.
pub fn project_dir_from_uri(base: &String, repo_uri: &String) -> (r: Option<String>)
    ensures
        match file_name_of(repo_uri@) {
            Some(name) => opt_view(r) == Some(joined(joined(base@, "contests"@), name)),
            None => r.is_none(),
        },
{
    match file_name(repo_uri.as_str()) {
        None => None,
        Some(name) => {
            let contests = join_path(base.as_str(), "contests");
            Some(join_path(contests.as_str(), name.as_str()))
        },
    }
}

} // verus!
