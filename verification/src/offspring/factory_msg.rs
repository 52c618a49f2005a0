//! The factory messages an offspring sends and the answers it consumes.

use vstd::prelude::*;

verus! {

/// Factory execute messages sent by an offspring.
#[derive(Debug, PartialEq, Eq)]
pub enum FactoryExecuteMsg {
    /// The registration call emitted right after instantiation.
    RegisterOffspring {
        /// The offspring's owner.
        owner: String,
        /// Label used when initializing the offspring.
        label: String,
        /// The one-time password handed out at creation.
        password: Vec<u8>,
    },
    /// Tells the factory that the offspring is now inactive.
    DeactivateOffspring {
        /// The offspring's owner.
        owner: String,
    },
}

/// The registration data of an offspring in the factory's wire format.
#[derive(Debug, PartialEq, Eq)]
pub struct FactoryOffspringInfo {
    /// Label used when initializing the offspring.
    pub label: String,
    /// The offspring's owner.
    pub owner: String,
    /// The offspring's own address.
    pub address: String,
    /// The offspring's code hash.
    pub code_hash: String,
}

/// The factory query an offspring uses for delegated key validation.
#[derive(Debug, PartialEq, Eq)]
pub enum FactoryQueryMsg {
    /// Authenticates the supplied address/viewing-key pair.
    IsKeyValid {
        /// Address whose viewing key is being authenticated.
        address: String,
        /// The presented viewing key.
        viewing_key: String,
    },
}

/// Result of authenticating an address/key pair.
#[derive(Debug, PartialEq, Eq)]
pub struct IsKeyValid {
    /// Whether the pair is valid.
    pub is_valid: bool,
}

/// The factory's answer envelope for `IsKeyValid`.
#[derive(Debug, PartialEq, Eq)]
pub struct IsKeyValidWrapper {
    /// The validation result.
    pub is_key_valid: IsKeyValid,
}

} // verus!
