//! The instantiation message the factory sends to a new offspring, and the
//! spawn instruction that carries it to the platform.

use vstd::prelude::*;
use crate::factory::structs::{CodeInfo, ContractInfo};

verus! {

/// Instantiation message delivered verbatim to the new offspring.
#[derive(Debug, PartialEq, Eq)]
pub struct OffspringInstantiateMsg {
    /// Factory contract code hash and address.
    pub factory: ContractInfo,
    /// Label used when initializing the offspring.
    pub label: String,
    /// The one-time password the offspring must present to register.
    pub password: Vec<u8>,
    /// Address of the owner associated to this offspring contract.
    pub owner: String,
    /// The count for the counter template.
    pub count: i32,
    /// Optional free-form description of the offspring.
    pub description: Option<String>,
}

/// A spawn instruction: which template to instantiate, under which label,
/// with which instantiation message.
#[derive(Debug, PartialEq, Eq)]
pub struct SpawnInstruction {
    /// Label for the new contract instance.
    pub label: String,
    /// The offspring template version to instantiate.
    pub code_info: CodeInfo,
    /// The instantiation message for the new offspring.
    pub init_msg: OffspringInstantiateMsg,
}

} // verus!
