//! Why a service-transaction check could not be completed.
use vstd::prelude::*;

verus! {

/// Failure of the certifier check; the whitelist check never surfaces one.
#[derive(Debug, PartialEq, Eq)]
pub enum CheckError {
    /// The registry holds no entry for the contract.
    ConfigurationMissing,
    /// The contract call itself failed, with the client's message.
    InvocationFailure(String),
    /// The contract returned bytes that are not an ABI `bool`.
    DecodeFailure,
}

impl CheckError {
    /// A short human-readable description.
    pub fn message(&self) -> (r: String)
        ensures
            r@ == match self {
                CheckError::ConfigurationMissing => "contract is not configured"@,
                CheckError::InvocationFailure(m) => m@,
                CheckError::DecodeFailure => "contract returned data that is not a bool"@,
            },
    {
        match self {
            CheckError::ConfigurationMissing => "contract is not configured".to_owned(),
            CheckError::InvocationFailure(m) => m.clone(),
            CheckError::DecodeFailure => "contract returned data that is not a bool".to_owned(),
        }
    }
}

} // verus!
