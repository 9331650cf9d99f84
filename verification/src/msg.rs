//! The closed set of operations the contract accepts, their answers, and the
//! error model.
use vstd::prelude::*;

verus! {

/// Payload of the instantiation operation; it carries no data.
#[derive(Debug)]
pub struct InstantiateMsg {}

/// State-mutating counter operations.
#[derive(Debug)]
pub enum ExecuteMsg {
    /// Adds `value` to the counter.
    IncreaseBy { value: u32 },
    /// Sets the counter back to zero.
    Reset {},
}

/// Read-only queries.
#[derive(Debug)]
pub enum QueryMsg {
    /// Asks for the stored version tag.
    GetContractVersion {},
    /// Asks for the current counter value.
    FetchCounter {},
}

/// Payload of the migration operation; the target is always the build's own
/// name and version.
#[derive(Debug)]
pub struct MigrateMsg {}

/// Answers to `QueryMsg`, one variant per query.
#[derive(Debug)]
pub enum QueryResponse {
    /// The stored version tag.
    Version { contract: String, version: String },
    /// The current counter value.
    Counter(u32),
}

/// Every failure the system surfaces. No operation retries internally, and a
/// failed operation leaves the state unchanged.
#[derive(Clone, Copy, Debug, PartialEq, Eq, Structural)]
pub enum ContractError {
    /// The persistence layer could not read or write the state. Only the
    /// host-facing shell reports this; the operations on an in-memory state
    /// never do.
    StorageUnavailable,
    /// An increment would push the counter past its representable range.
    ArithmeticOverflow,
    /// A migration was attempted across different contract identities.
    TypeMismatch,
    /// A migration was attempted to a version not strictly newer than the
    /// stored one.
    DowngradeRejected,
    /// A channel-open proposal asked for an ordering the contract does not
    /// support.
    HandshakeRejected,
}

impl ContractError {
    /// A short description, for the host-facing shell to report.
    pub fn message(&self) -> (r: &'static str)
        ensures
            *self == ContractError::StorageUnavailable ==> r@ == "storage unavailable"@,
            *self == ContractError::ArithmeticOverflow ==> r@ == "counter overflow"@,
            *self == ContractError::TypeMismatch ==> r@ == "Can only upgrade from same type"@,
            *self == ContractError::DowngradeRejected ==> r@
                == "Cannot upgrade from a newer version"@,
            *self == ContractError::HandshakeRejected ==> r@ == "unsupported channel ordering"@,
    {
        match self {
            ContractError::StorageUnavailable => "storage unavailable",
            ContractError::ArithmeticOverflow => "counter overflow",
            ContractError::TypeMismatch => "Can only upgrade from same type",
            ContractError::DowngradeRejected => "Cannot upgrade from a newer version",
            ContractError::HandshakeRejected => "unsupported channel ordering",
        }
    }
}

} // verus!
