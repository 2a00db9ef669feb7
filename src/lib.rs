//! Discovery of smart-contract build roots and resolution of their compiler
//! build caches into an ordered inventory of contracts.
//!
//! - [`project`]: which directories of a repository are build roots, and of
//!   which build tool.
//! - [`orchestrator`]: the steps that install a root's dependencies and
//!   compile it, chosen one at a time.
//! - [`config`]: the path layout that a Foundry descriptor gives a root.
//! - [`cache`]: a build cache loaded once, with its artifact files.
//! - [`contract`]: classified contracts and the order between them.
//! - [`resolver`]: from a build cache to the ordered contracts of a root.
//! - [`contest`], [`sherlock`]: contest records and the Sherlock listing.

pub mod artifacts;
pub mod cache;
pub mod config;
pub mod contest;
pub mod contract;
pub mod errors;
pub mod orchestrator;
pub mod paths;
pub mod project;
pub mod resolver;
pub mod sherlock;
pub mod text;
pub mod version;
