//! Data carried for each offspring: template code info, contract identity,
//! registration replies, and the stored per-offspring record.

use vstd::prelude::*;

verus! {

/// Info needed to instantiate an offspring: the template version.
#[derive(Debug, PartialEq, Eq)]
pub struct CodeInfo {
    /// Code id of the stored offspring contract.
    pub code_id: u64,
    /// Code hash of the stored offspring contract.
    pub code_hash: String,
}

/// Code hash and address of a contract.
#[derive(Debug, PartialEq, Eq)]
pub struct ContractInfo {
    /// The contract's code hash.
    pub code_hash: String,
    /// The contract's address.
    pub address: String,
}

/// Registration data an offspring reports back after instantiation.
#[derive(Debug, PartialEq, Eq)]
pub struct ReplyOffspringInfo {
    /// Label used when initializing the offspring.
    pub label: String,
    /// The offspring's owner.
    pub owner: String,
    /// The offspring's own address.
    pub address: String,
    /// The offspring's code hash.
    pub code_hash: String,
}

/// Offspring info kept in the registry for storage and display.
#[derive(Debug, PartialEq, Eq)]
pub struct StoreOffspringInfo {
    /// The offspring's contract identity.
    pub contract: ContractInfo,
    /// Label used when initializing the offspring.
    pub label: String,
}

impl Clone for CodeInfo {
    fn clone(&self) -> (r: Self)
        ensures
            r == *self,
    {
        CodeInfo { code_id: self.code_id, code_hash: self.code_hash.clone() }
    }
}

impl Clone for ContractInfo {
    fn clone(&self) -> (r: Self)
        ensures
            r == *self,
    {
        ContractInfo { code_hash: self.code_hash.clone(), address: self.address.clone() }
    }
}

impl Clone for ReplyOffspringInfo {
    fn clone(&self) -> (r: Self)
        ensures
            r == *self,
    {
        ReplyOffspringInfo {
            label: self.label.clone(),
            owner: self.owner.clone(),
            address: self.address.clone(),
            code_hash: self.code_hash.clone(),
        }
    }
}

impl Clone for StoreOffspringInfo {
    fn clone(&self) -> (r: Self)
        ensures
            r == *self,
    {
        StoreOffspringInfo { contract: self.contract.clone(), label: self.label.clone() }
    }
}

impl CodeInfo {
    /// Pairs this template's code hash with a concrete contract address.
    pub fn to_contract_info(&self, contract_addr: String) -> (r: ContractInfo)
        ensures
            r.code_hash == self.code_hash,
            r.address == contract_addr,
    {
        ContractInfo { code_hash: self.code_hash.clone(), address: contract_addr }
    }
}

impl ReplyOffspringInfo {
    /// Converts the reported registration data into the stored record form.
    pub fn to_store_offspring_info(&self) -> (r: StoreOffspringInfo)
        ensures
            r.contract.code_hash == self.code_hash,
            r.contract.address == self.address,
            r.label == self.label,
    {
        StoreOffspringInfo {
            contract: ContractInfo {
                code_hash: self.code_hash.clone(),
                address: self.address.clone(),
            },
            label: self.label.clone(),
        }
    }
}

} // verus!
