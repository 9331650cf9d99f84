//! What the contract persists: a version tag and the counter.
use vstd::prelude::*;
use crate::semver::spec_parse_semver;

verus! {

/// The stored identity tag: which contract this storage belongs to, and at
/// which semantic version it was last written.
#[derive(Debug)]
pub struct ContractVersion {
    pub contract: String,
    pub version: String,
}

/// The whole persisted state. The host hands it to each operation and writes
/// it back only when the operation succeeds, so an operation either commits
/// completely or leaves storage untouched.
#[derive(Debug)]
pub struct ContractState {
    pub version: ContractVersion,
    pub counter: u32,
}

/// A well-formed state carries a version tag that parses as a semantic
/// version. Instantiation establishes this and every operation preserves it.
pub open spec fn state_wf(s: ContractState) -> bool {
    spec_parse_semver(s.version.version@) is Some
}

} // verus!
