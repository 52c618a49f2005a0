//! The error taxonomy shared by the factory and offspring contracts.

use vstd::prelude::*;

verus! {

/// Every failure a contract operation can report.
///
/// Authentication failures are deliberately generic: a caller cannot tell
/// "no key set" from "wrong key" or "unknown identity".
#[derive(Clone, Copy, Debug, PartialEq, Eq, Structural)]
pub enum ContractError {
    /// The caller is not the admin, owner, or expected sender.
    Unauthorized,
    /// A viewing key or one-time password failed to authenticate.
    AuthenticationFailed,
    /// The operation is not allowed in the current lifecycle state
    /// (stopped factory, already-inactive offspring, already-registered
    /// address).
    InvalidState,
    /// An index references a record missing from the store. This signals a
    /// bug: it can never occur while the registry invariants hold.
    InternalConsistency,
    /// Malformed filter or paging combination.
    BadRequest,
}

impl ContractError {
    /// A short human-readable description of the error.
    pub fn message(&self) -> (r: String)
        ensures
            r@.len() > 0,
    {
        let s = match self {
            ContractError::Unauthorized => "This command can only be run from the authorized address",
            ContractError::AuthenticationFailed => "Unable to authenticate: wrong viewing key or password",
            ContractError::InvalidState => "The operation is not allowed in the current state",
            ContractError::InternalConsistency => "Error occurred while loading offspring data",
            ContractError::BadRequest => "Please select one of active or inactive offspring to list.",
        };
        proof {
            reveal_strlit("This command can only be run from the authorized address");
            reveal_strlit("Unable to authenticate: wrong viewing key or password");
            reveal_strlit("The operation is not allowed in the current state");
            reveal_strlit("Error occurred while loading offspring data");
            reveal_strlit("Please select one of active or inactive offspring to list.");
        }
        String::from_str(s)
    }
}

} // verus!
