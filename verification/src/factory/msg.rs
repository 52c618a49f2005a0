//! The factory's message surface: instantiation, execute and query
//! messages, and the answers they produce.

use vstd::prelude::*;
use crate::factory::offspring_msg::SpawnInstruction;
use crate::factory::structs::{CodeInfo, ContractInfo, StoreOffspringInfo};

verus! {

/// Instantiation message.
#[derive(Debug, PartialEq, Eq)]
pub struct InstantiateMsg {
    /// The offspring template version the factory starts with.
    pub offspring_code_info: CodeInfo,
    /// Entropy the instantiator supplies for seeding the generator.
    pub entropy: String,
}

/// Registration data an offspring presents when calling back.
#[derive(Debug, PartialEq, Eq)]
pub struct RegisterOffspringInfo {
    /// Label used when initializing the offspring.
    pub label: String,
    /// The one-time password handed out at creation.
    pub password: Vec<u8>,
}

impl RegisterOffspringInfo {
    /// Combines the registration data with the offspring's contract
    /// identity into the stored record form.
    pub fn to_store_offspring_info(&self, contract: ContractInfo) -> (r: StoreOffspringInfo)
        ensures
            r.contract == contract,
            r.label == self.label,
    {
        StoreOffspringInfo { contract, label: self.label.clone() }
    }
}

/// Execute messages.
#[derive(Debug, PartialEq, Eq)]
pub enum ExecuteMsg {
    /// Instantiate a new offspring contract.
    CreateOffspring {
        /// Label for the new offspring contract.
        label: String,
        /// Entropy the caller supplies for the one-time password.
        entropy: String,
        /// Address of the owner associated to this offspring contract.
        owner: String,
        /// The count for the counter offspring template.
        count: i32,
        /// Optional free-form description of the offspring.
        description: Option<String>,
    },
    /// An offspring registers itself by presenting its password.
    RegisterOffspring {
        /// The offspring's owner.
        owner: String,
        /// The registration data, password included.
        offspring: RegisterOffspringInfo,
    },
    /// An offspring tells the factory that it is now inactive.
    DeactivateOffspring {
        /// The offspring's owner.
        owner: String,
    },
    /// The admin installs a new offspring contract version.
    NewOffspringContract {
        /// The new template version.
        offspring_code_info: CodeInfo,
    },
    /// Create a viewing key for the caller.
    CreateViewingKey {
        /// Entropy for key generation.
        entropy: String,
    },
    /// Install a caller-chosen viewing key.
    SetViewingKey {
        /// The key to install.
        key: String,
        /// Optional padding so the message length does not betray the key
        /// length.
        padding: Option<String>,
    },
    /// The admin starts or stops all offspring creation.
    SetStatus {
        /// True if the factory should refuse new offspring.
        stop: bool,
    },
}

/// Queries.
#[derive(Debug, PartialEq, Eq)]
pub enum QueryMsg {
    /// Lists the offspring whose owner is the given address.
    ListMyOffspring {
        /// Address whose offspring to display.
        address: String,
        /// Viewing key for authentication.
        viewing_key: String,
        /// Optional filter for active or inactive offspring; unset means
        /// both.
        filter: Option<FilterTypes>,
        /// Start page; unset means 0.
        start_page: Option<u32>,
        /// Page size; unset means the default.
        page_size: Option<u32>,
    },
    /// Lists the active offspring.
    ListActiveOffspring {
        /// Start page; unset means 0.
        start_page: Option<u32>,
        /// Page size; unset means the default.
        page_size: Option<u32>,
    },
    /// Lists the inactive offspring.
    ListInactiveOffspring {
        /// Start page; unset means 0.
        start_page: Option<u32>,
        /// Page size; unset means the default.
        page_size: Option<u32>,
    },
    /// Authenticates an address/viewing-key pair on behalf of an
    /// offspring.
    IsKeyValid {
        /// Address whose viewing key is being authenticated.
        address: String,
        /// The presented viewing key.
        viewing_key: String,
    },
}

/// The filter types when viewing an address' offspring.
#[derive(Clone, Copy, Debug, PartialEq, Eq, Structural)]
pub enum FilterTypes {
    /// Only active offspring.
    Active,
    /// Only inactive offspring.
    Inactive,
    /// Both categories.
    All,
}

/// Responses to queries.
#[derive(Debug, PartialEq, Eq)]
pub enum QueryAnswer {
    /// The offspring associated with the queried owner. A category that
    /// was not requested stays unset.
    ListMyOffspring {
        /// The owner's active offspring, if requested.
        active: Option<Vec<StoreOffspringInfo>>,
        /// The owner's inactive offspring, if requested.
        inactive: Option<Vec<StoreOffspringInfo>>,
    },
    /// One page of the active offspring.
    ListActiveOffspring {
        /// The active offspring, in registration order.
        active: Vec<StoreOffspringInfo>,
    },
    /// One page of the inactive offspring.
    ListInactiveOffspring {
        /// The inactive offspring, in deactivation order.
        inactive: Vec<StoreOffspringInfo>,
    },
    /// The presented viewing key failed to authenticate; no list contents
    /// are revealed.
    ViewingKeyError {
        /// A generic description that does not distinguish "no key" from
        /// "wrong key".
        error: String,
    },
    /// Result of authenticating an address/key pair.
    IsKeyValid {
        /// Whether the pair is valid.
        is_valid: bool,
    },
}

/// Success or failure response.
#[derive(Clone, Copy, Debug, PartialEq, Eq, Structural)]
pub enum ResponseStatus {
    /// The operation succeeded.
    Success,
    /// The operation failed.
    Failure,
}

/// Responses from execute functions.
#[derive(Debug, PartialEq, Eq)]
pub enum HandleAnswer {
    /// Generic status response.
    Status {
        /// Success or failure.
        status: ResponseStatus,
        /// Execution description.
        message: Option<String>,
    },
    /// The viewing key now in force for the caller.
    ViewingKey {
        /// The key.
        key: String,
    },
}

/// Serialized responses are padded to whole blocks of this many bytes,
/// so that the response size does not leak key or password lengths.
pub const BLOCK_SIZE: usize = 256;

/// Space-pads `data` up to the next whole multiple of `BLOCK_SIZE` bytes
/// (data already on a block boundary, the empty response included, is
/// left as it is): the original bytes stay as a prefix, only spaces
/// follow them, and fewer than `BLOCK_SIZE` bytes are added.
pub fn pad_bytes_to_block(data: &mut Vec<u8>)
    ensures
        final(data)@.len() as int % (BLOCK_SIZE as int) == 0,
        final(data)@.subrange(0, old(data)@.len() as int) == old(data)@,
        final(data)@.len() - old(data)@.len() < BLOCK_SIZE,
        forall|i: int|
            old(data)@.len() <= i < final(data)@.len() ==> final(data)@[i] == 32u8,
{
    let rem = data.len() % BLOCK_SIZE;
    if rem == 0 {
        proof {
            assert(data@.subrange(0, old(data)@.len() as int) =~= old(data)@);
        }
        return;
    }
    let missing = BLOCK_SIZE - rem;
    let mut i: usize = 0;
    while i < missing
        invariant
            i <= missing,
            data@.len() == old(data)@.len() + i,
            forall|j: int| 0 <= j < old(data)@.len() ==> data@[j] == old(data)@[j],
            forall|j: int| old(data)@.len() <= j < data@.len() ==> data@[j] == 32u8,
        decreases missing - i,
    {
        data.push(32u8);
        i = i + 1;
    }
    proof {
        assert(data@.subrange(0, old(data)@.len() as int) =~= old(data)@);
        assert(data@.len() as int % (BLOCK_SIZE as int) == 0) by {
            let n = old(data)@.len() as int;
            let b = BLOCK_SIZE as int;
            assert(n == b * (n / b) + n % b);
            assert(data@.len() as int == b * (n / b) + b);
        };
    }
}

/// One logged attribute of an execution.
#[derive(Debug, PartialEq, Eq)]
pub struct LogAttribute {
    /// The attribute name.
    pub key: String,
    /// The attribute value.
    pub value: String,
}

/// What an execute message produces: outgoing spawn instructions, log
/// attributes, and an answer for the caller.
#[derive(Debug, PartialEq, Eq)]
pub struct HandleResponse {
    /// Spawn instructions for the platform to perform.
    pub messages: Vec<SpawnInstruction>,
    /// Logged attributes.
    pub log: Vec<LogAttribute>,
    /// The answer returned to the caller.
    pub data: Option<HandleAnswer>,
}

} // verus!
