//! A factory / offspring registry: a long-lived coordinator contract spawns
//! ephemeral offspring contracts, authenticates their registration with a
//! one-time password, tracks their active/inactive lifecycle in paginated
//! indices (global and per-owner), and authenticates read-only queries with
//! per-identity viewing keys.

#![verifier::loop_isolation(false)]

use vstd::prelude::*;

pub mod context;
pub mod crypto;
pub mod error;
pub mod factory;
pub mod index;
pub mod offspring;
pub mod strmap;
pub mod viewing_keys;

verus! {

/// The default number of offspring listed during queries.
pub const DEFAULT_PAGE_SIZE: u32 = 200;

} // verus!
