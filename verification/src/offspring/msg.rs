//! The offspring's message surface.

use vstd::prelude::*;

verus! {

/// Code hash and address of a contract, as the offspring stores them.
#[derive(Debug, PartialEq, Eq)]
pub struct ContractInfo {
    /// The contract's code hash.
    pub code_hash: String,
    /// The contract's address.
    pub address: String,
}

impl Clone for ContractInfo {
    fn clone(&self) -> (r: Self)
        ensures
            r == *self,
    {
        ContractInfo { code_hash: self.code_hash.clone(), address: self.address.clone() }
    }
}

/// Instantiation message, delivered verbatim from the factory's spawn
/// instruction.
#[derive(Debug, PartialEq, Eq)]
pub struct InstantiateMsg {
    /// Factory contract code hash and address.
    pub factory: ContractInfo,
    /// Label used when initializing the offspring.
    pub label: String,
    /// Optional text description of this offspring.
    pub description: Option<String>,
    /// Address of the owner associated to this offspring contract.
    pub owner: String,
    /// The one-time password to present when registering.
    pub password: Vec<u8>,
    /// The initial count for the counter.
    pub count: i32,
}

/// Execute messages.
#[derive(Debug, PartialEq, Eq)]
pub enum ExecuteMsg {
    /// Increases the counter; anyone may call it.
    Increment,
    /// Resets the counter; owner only.
    Reset {
        /// The value to reset the counter to.
        count: i32,
    },
    /// Deactivates the offspring; owner only.
    Deactivate,
}

/// Queries.
#[derive(Debug, PartialEq, Eq)]
pub enum QueryMsg {
    /// Returns the current count; only the owner may query it, which
    /// demonstrates delegated viewing-key validation through the factory.
    GetCount {
        /// Address to authenticate as a viewer.
        address: String,
        /// The viewer's viewing key.
        viewing_key: String,
    },
}

/// Responses to queries.
#[derive(Debug, PartialEq, Eq)]
pub enum QueryAnswer {
    /// The current count.
    CountResponse {
        /// The counter value.
        count: i32,
    },
}

} // verus!
