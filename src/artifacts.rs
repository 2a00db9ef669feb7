use crate::paths::{opt_view, stem_of};
use vstd::prelude::*;

verus! {

/// Relies on `ethers_solc::ArtifactOutput::contract_name` of
/// `ConfigurableArtifacts`, which takes the path's file stem
/// (`Path::file_stem`) as a string; the stem of a path given as `&str` is
/// always valid text.
#[verifier::external_body]
pub(crate) fn contract_name(path: &str) -> (r: Option<String>)
    ensures
        opt_view(r) == stem_of(path@),
{
    <ethers_solc::ConfigurableArtifacts as ethers_solc::ArtifactOutput>::contract_name(path)
}

/// Relies on `ethers_solc::cache::SOLIDITY_FILES_CACHE_FILENAME`, the name of
/// the compiler's cache file, which is `solidity-files-cache.json`.
#[verifier::external_body]
pub(crate) fn cache_file_name() -> (r: &'static str)
    ensures
        r@ == "solidity-files-cache.json"@,
{
    ethers_solc::cache::SOLIDITY_FILES_CACHE_FILENAME
}

} // verus!
